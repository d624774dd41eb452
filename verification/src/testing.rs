//! In-memory implementations of the host-side interfaces and a minimal
//! store format, for driving the protocols end to end without a host.

use vstd::prelude::*;
use crate::com::{
    ExtractCbEvent, IArchiveExtractCallback, IArchiveUpdateCallback, ICryptoGetTextPassword,
    ICryptoGetTextPassword2, IInStream, ISequentialInStream, ISequentialOutStream,
    STREAM_SEEK_CUR, STREAM_SEEK_END, STREAM_SEEK_SET, UpdateCbEvent, UpdateSlot,
};
use crate::error::Error;
use crate::traits::{ArchiveFormat, ArchiveReader, ArchiveUpdater, ReadSeek, WriteSink};
use crate::types::{ArchiveItem, UpdateItem};
use crate::update::report_scaled;
use crate::variant::RawPropVariant;

verus! {

/// Copy a byte vector.
fn copy_bytes(src: &Vec<u8>) -> (r: Vec<u8>)
    ensures
        r@ == src@,
{
    let mut r: Vec<u8> = Vec::new();
    let mut i: usize = 0;
    while i < src.len()
        invariant
            i <= src@.len(),
            r@ == src@.take(i as int),
        decreases src@.len() - i,
    {
        r.push(src[i]);
        i = i + 1;
    }
    proof {
        assert(src@.take(src@.len() as int) =~= src@);
    }
    r
}

/// A sequential output stream that keeps every byte it accepts.
pub struct MemOutStream {
    data: Vec<u8>,
}

impl MemOutStream {
    /// An empty output stream.
    pub fn new() -> (r: Self)
        ensures
            r.written() == Seq::<u8>::empty(),
    {
        MemOutStream { data: Vec::new() }
    }

    /// The bytes accepted so far.
    pub fn bytes(&self) -> (r: &Vec<u8>)
        ensures
            r@ == self.written(),
    {
        &self.data
    }
}

impl ISequentialOutStream for MemOutStream {
    closed spec fn written(&self) -> Seq<u8> {
        self.data@
    }

    fn write(&mut self, data: &[u8]) -> (r: Result<u32, Error>) {
        let count: usize = if data.len() > u32::MAX as usize {
            u32::MAX as usize
        } else {
            data.len()
        };
        let mut j: usize = 0;
        while j < count
            invariant
                j <= count,
                count <= data@.len(),
                self.data@ == old(self).data@ + data@.take(j as int),
            decreases count - j,
        {
            self.data.push(data[j]);
            j = j + 1;
            proof {
                assert(data@.take(j as int) =~= data@.take(j as int - 1).push(data@[j as int
                    - 1]));
            }
        }
        Ok(count as u32)
    }
}

/// A sequential input stream over owned bytes.
pub struct MemInStream {
    data: Vec<u8>,
    pos: usize,
}

impl MemInStream {
    /// A stream that will deliver the given bytes.
    pub fn new(data: Vec<u8>) -> (r: Self)
        ensures
            r.remaining() == data@,
    {
        MemInStream { data, pos: 0 }
    }
}

impl ISequentialInStream for MemInStream {
    closed spec fn remaining(&self) -> Seq<u8> {
        if self.pos <= self.data@.len() {
            self.data@.skip(self.pos as int)
        } else {
            Seq::empty()
        }
    }

    fn read(&mut self, max: u32) -> (r: Result<Vec<u8>, Error>) {
        let len = self.data.len();
        let avail: usize = if self.pos < len {
            len - self.pos
        } else {
            0
        };
        let m: usize = if (max as usize) < avail {
            max as usize
        } else {
            avail
        };
        let mut out: Vec<u8> = Vec::new();
        let mut j: usize = 0;
        while j < m
            invariant
                j <= m,
                len == self.data@.len(),
                m == 0 || (self.pos < len && self.pos + m <= len),
                self.pos == old(self).pos,
                self.data@ == old(self).data@,
                m > 0 ==> out@ == self.data@.subrange(self.pos as int, self.pos + j),
                m == 0 ==> out@.len() == 0,
            decreases m - j,
        {
            out.push(self.data[self.pos + j]);
            j = j + 1;
        }
        proof {
            if m > 0 {
                assert(out@ =~= old(self).remaining().take(m as int));
            } else {
                assert(out@ =~= old(self).remaining().take(0));
            }
        }
        self.pos = self.pos + m;
        proof {
            assert(self.remaining() =~= old(self).remaining().skip(out@.len() as int));
        }
        Ok(out)
    }
}

/// A seekable input stream over owned bytes.
pub struct MemSeekStream {
    data: Vec<u8>,
    pos: u64,
}

impl MemSeekStream {
    /// A stream over the given bytes, positioned at the start.
    pub fn new(data: Vec<u8>) -> (r: Self)
        ensures
            r.content() == data@,
            r.pos() == 0,
    {
        MemSeekStream { data, pos: 0 }
    }
}

impl IInStream for MemSeekStream {
    closed spec fn content(&self) -> Seq<u8> {
        self.data@
    }

    closed spec fn pos(&self) -> int {
        self.pos as int
    }

    fn read(&mut self, max: u32) -> (r: Result<Vec<u8>, Error>) {
        let len = self.data.len();
        let avail: usize = if self.pos < len as u64 {
            len - self.pos as usize
        } else {
            0
        };
        let m: usize = if (max as usize) < avail {
            max as usize
        } else {
            avail
        };
        let mut out: Vec<u8> = Vec::new();
        let mut j: usize = 0;
        while j < m
            invariant
                j <= m,
                len == self.data@.len(),
                m == 0 || (self.pos < len as u64 && self.pos + m <= len),
                self.pos == old(self).pos,
                self.data@ == old(self).data@,
                m > 0 ==> out@ == self.data@.subrange(self.pos as int, self.pos as int + j),
                m == 0 ==> out@.len() == 0,
            decreases m - j,
        {
            out.push(self.data[self.pos as usize + j]);
            j = j + 1;
        }
        self.pos = self.pos + m as u64;
        Ok(out)
    }

    fn seek(&mut self, offset: i64, seek_origin: u32) -> (r: Result<u64, Error>) {
        let base: u64;
        if seek_origin == STREAM_SEEK_SET {
            base = 0;
        } else if seek_origin == STREAM_SEEK_CUR {
            base = self.pos;
        } else if seek_origin == STREAM_SEEK_END {
            base = self.data.len() as u64;
        } else {
            return Err(Error::Io("unknown seek origin".to_owned()));
        }
        let target: u64;
        if offset >= 0 {
            if base > u64::MAX - (offset as u64) {
                return Err(Error::Io("seek out of range".to_owned()));
            }
            target = base + (offset as u64);
        } else {
            let back = (-(offset as i128)) as u64;
            if back > base {
                return Err(Error::Io("seek before start".to_owned()));
            }
            target = base - back;
        }
        self.pos = target;
        Ok(target)
    }
}

/// An extract callback that records every call it observes; it hands out
/// an in-memory output stream per item, or none at all.
pub struct RecordingExtractCallback {
    log: Vec<ExtractCbEvent>,
    provide_streams: bool,
}

impl RecordingExtractCallback {
    /// A fresh callback with an empty log.
    pub fn new(provide_streams: bool) -> (r: Self)
        ensures
            r.events() == Seq::<ExtractCbEvent>::empty(),
    {
        RecordingExtractCallback { log: Vec::new(), provide_streams }
    }

    /// The calls observed so far, in order.
    pub fn log(&self) -> (r: &Vec<ExtractCbEvent>)
        ensures
            r@ == self.events(),
    {
        &self.log
    }
}

impl IArchiveExtractCallback for RecordingExtractCallback {
    type OutStream = MemOutStream;

    closed spec fn events(&self) -> Seq<ExtractCbEvent> {
        self.log@
    }

    fn set_total(&mut self, total: u64) -> (r: Result<(), Error>) {
        self.log.push(ExtractCbEvent::Total(total));
        Ok(())
    }

    fn set_completed(&mut self, complete_value: u64) -> (r: Result<(), Error>) {
        self.log.push(ExtractCbEvent::Completed(complete_value));
        Ok(())
    }

    fn get_stream(&mut self, index: u32, ask_extract_mode: i32) -> (r: Result<
        Option<MemOutStream>,
        Error,
    >) {
        self.log.push(ExtractCbEvent::StreamRequest(index, ask_extract_mode, self.provide_streams));
        if self.provide_streams {
            Ok(Some(MemOutStream::new()))
        } else {
            Ok(None)
        }
    }

    fn prepare_operation(&mut self, ask_extract_mode: i32) -> (r: Result<(), Error>) {
        self.log.push(ExtractCbEvent::Prepared(ask_extract_mode));
        Ok(())
    }

    fn release_stream(&mut self, stream: Option<MemOutStream>) {
        match stream {
            Some(s) => {
                let n = s.bytes().len();
                self.log.push(ExtractCbEvent::StreamReleased(Some(n as u64)));
            },
            None => {
                self.log.push(ExtractCbEvent::StreamReleased(None));
            },
        }
    }

    fn set_operation_result(&mut self, result: i32) -> (r: Result<(), Error>) {
        self.log.push(ExtractCbEvent::ResultSig(result));
        Ok(())
    }
}

/// An update callback that answers from a fixed slot table and records
/// every announcement it observes.
pub struct RecordingUpdateCallback {
    slot_table: Vec<UpdateSlot>,
    log: Vec<UpdateCbEvent>,
}

impl RecordingUpdateCallback {
    /// A callback answering from the given slot table, with an empty log.
    pub fn new(slot_table: Vec<UpdateSlot>) -> (r: Self)
        ensures
            r.slots() == slot_table@,
            r.events() == Seq::<UpdateCbEvent>::empty(),
    {
        RecordingUpdateCallback { slot_table, log: Vec::new() }
    }

    /// The announcements observed so far, in order.
    pub fn log(&self) -> (r: &Vec<UpdateCbEvent>)
        ensures
            r@ == self.events(),
    {
        &self.log
    }
}

impl IArchiveUpdateCallback for RecordingUpdateCallback {
    type InStream = MemInStream;

    closed spec fn slots(&self) -> Seq<UpdateSlot> {
        self.slot_table@
    }

    closed spec fn events(&self) -> Seq<UpdateCbEvent> {
        self.log@
    }

    fn get_update_item_info(&mut self, index: u32) -> (r: Result<(bool, bool, Option<u32>), Error>) {
        if (index as usize) < self.slot_table.len() {
            let new_data = self.slot_table[index as usize].new_data;
            let new_props = self.slot_table[index as usize].new_props;
            let in_archive = self.slot_table[index as usize].index_in_archive;
            Ok((new_data, new_props, in_archive))
        } else {
            Err(
                Error::IndexOutOfBounds { index: index as usize, count: self.slot_table.len() },
            )
        }
    }

    fn get_property(&mut self, index: u32, prop_id: u32) -> (v: RawPropVariant) {
        let mut prop = RawPropVariant::default();
        if (index as usize) < self.slot_table.len() {
            if prop_id == 3 {
                prop.set_bstr(self.slot_table[index as usize].name.as_str());
            } else if prop_id == 7 {
                match self.slot_table[index as usize].size {
                    Some(sz) => prop.set_u64(sz),
                    None => {},
                }
            } else if prop_id == 6 {
                let d = self.slot_table[index as usize].is_dir;
                prop.set_bool(d);
            }
        }
        prop
    }

    fn get_stream(&mut self, index: u32) -> (r: Result<Option<MemInStream>, Error>) {
        if (index as usize) < self.slot_table.len() {
            let content = copy_bytes(&self.slot_table[index as usize].content);
            Ok(Some(MemInStream::new(content)))
        } else {
            Err(
                Error::IndexOutOfBounds { index: index as usize, count: self.slot_table.len() },
            )
        }
    }

    fn set_total(&mut self, total: u64) -> (r: Result<(), Error>) {
        self.log.push(UpdateCbEvent::Total(total));
        Ok(())
    }

    fn set_completed(&mut self, complete_value: u64) -> (r: Result<(), Error>) {
        self.log.push(UpdateCbEvent::Completed(complete_value));
        Ok(())
    }

    fn set_operation_result(&mut self, operation_result: i32) -> (r: Result<(), Error>) {
        self.log.push(UpdateCbEvent::ResultSig(operation_result));
        Ok(())
    }
}

/// A minimal in-memory archive format: a fixed item table with stored
/// contents. Extraction of chosen items can be marked to fail, and the
/// updater records the descriptors handed to its write phase.
pub struct StoreFormat {
    item_table: Vec<ArchiveItem>,
    contents: Vec<Vec<u8>>,
    failing: Vec<u32>,
    received: Vec<UpdateItem>,
    fail_update: bool,
}

impl StoreFormat {
    /// Whether the item at `index` is marked to fail extraction.
    pub closed spec fn spec_marked_bad(&self, index: int) -> bool {
        exists|j: int| 0 <= j < self.failing@.len() && self.failing@[j] as int == index
    }
}

impl StoreFormat {
    /// A store over the given item table and contents; extraction of the
    /// indices in `failing` reports a data error.
    pub fn new(item_table: Vec<ArchiveItem>, contents: Vec<Vec<u8>>, failing: Vec<u32>) -> (r:
        Self)
        ensures
            r.items() == item_table@,
    {
        StoreFormat { item_table, contents, failing, received: Vec::new(), fail_update: false }
    }

    /// The descriptors the last write phase received.
    pub fn received_updates(&self) -> &Vec<UpdateItem> {
        &self.received
    }

    /// Make the next write phase fail after collecting its descriptors.
    pub fn set_update_failure(&mut self, fail: bool)
        ensures
            final(self).items() == old(self).items(),
    {
        self.fail_update = fail;
    }

    fn fails(&self, index: usize) -> (r: bool)
        ensures
            r == self.spec_marked_bad(index as int),
    {
        let mut i: usize = 0;
        let mut found = false;
        while i < self.failing.len()
            invariant
                i <= self.failing@.len(),
                found == exists|j: int|
                    0 <= j < i && self.failing@[j] as int == index as int,
            decreases self.failing@.len() - i,
        {
            if self.failing[i] as usize == index {
                found = true;
                proof {
                    assert(self.failing@[i as int] as int == index as int);
                }
            }
            i = i + 1;
        }
        found
    }
}

impl ArchiveFormat for StoreFormat {
    open spec fn spec_name() -> Seq<char> {
        "Store"@
    }

    open spec fn spec_extension() -> Seq<char> {
        "store"@
    }

    open spec fn spec_class_id() -> Seq<u8> {
        seq![
            0x53u8, 0x74, 0x6F, 0x72, 0x65, 0x46, 0x6D, 0x74, 0x00, 0x01, 0x02, 0x03, 0x04,
            0x05, 0x06, 0x07,
        ]
    }

    open spec fn spec_signature() -> Option<Seq<u8>> {
        None
    }

    open spec fn spec_supports_write() -> bool {
        true
    }

    open spec fn spec_supports_update() -> bool {
        true
    }

    fn name() -> (r: &'static str) {
        "Store"
    }

    fn extension() -> (r: &'static str) {
        "store"
    }

    fn class_id() -> (r: [u8; 16]) {
        let r: [u8; 16] = [
            0x53, 0x74, 0x6F, 0x72, 0x65, 0x46, 0x6D, 0x74, 0x00, 0x01, 0x02, 0x03, 0x04, 0x05,
            0x06, 0x07,
        ];
        proof {
            assert(r@ =~= Self::spec_class_id());
        }
        r
    }

    fn signature() -> (r: Option<&'static [u8]>) {
        None
    }

    fn supports_write() -> (b: bool) {
        true
    }

    fn supports_update() -> (b: bool) {
        true
    }

    fn skips_directory_entries() -> (b: bool) {
        true
    }
}

impl ArchiveReader for StoreFormat {
    closed spec fn items(&self) -> Seq<ArchiveItem> {
        self.item_table@
    }

    closed spec fn spec_physical_size(&self) -> Option<u64> {
        None
    }

    closed spec fn extract_ok(&self, index: int) -> bool {
        0 <= index < self.contents@.len() && !self.spec_marked_bad(index)
    }

    closed spec fn extracted(&self, index: int) -> Seq<u8> {
        if 0 <= index < self.contents@.len() {
            self.contents@[index]@
        } else {
            Seq::empty()
        }
    }

    fn open<R: ReadSeek>(&mut self, _reader: &mut R, _size: u64) -> (r: Result<(), Error>) {
        Ok(())
    }

    fn item_count(&self) -> (n: usize) {
        self.item_table.len()
    }

    fn get_item(&self, index: usize) -> (r: Option<&ArchiveItem>) {
        if index < self.item_table.len() {
            Some(&self.item_table[index])
        } else {
            None
        }
    }

    fn extract(&mut self, index: usize) -> (r: Result<Vec<u8>, Error>) {
        if index >= self.contents.len() {
            return Err(Error::IndexOutOfBounds { index, count: self.contents.len() });
        }
        if self.fails(index) {
            return Err(Error::Other("stored item is marked bad".to_owned()));
        }
        Ok(copy_bytes(&self.contents[index]))
    }

    fn physical_size(&self) -> (r: Option<u64>) {
        None
    }
}

impl ArchiveUpdater for StoreFormat {
    fn update_streaming<R: ReadSeek, W: WriteSink, U: IArchiveUpdateCallback>(
        &mut self,
        existing: &mut R,
        existing_size: u64,
        updates: Vec<UpdateItem>,
        writer: &mut W,
        progress: &mut U,
        declared_total: u64,
    ) -> (r: Result<u64, Error>) {
        let _ = report_scaled(progress, 1, 2, declared_total);
        proof {
            assert(old(progress).events().is_prefix_of(progress.events()));
        }
        self.received = updates;
        if self.fail_update {
            Err(Error::Other("write phase failed".to_owned()))
        } else {
            Ok(0)
        }
    }
}

/// A host password capability whose prompt always fails.
pub struct FailingPassword {
}

impl FailingPassword {
    /// A capability whose prompt fails.
    pub fn new() -> Self {
        FailingPassword {  }
    }
}

impl ICryptoGetTextPassword for FailingPassword {
    fn crypto_get_text_password(&self) -> (r: Result<Option<String>, Error>) {
        Err(Error::Other("prompt failed".to_owned()))
    }
}

impl ICryptoGetTextPassword2 for FailingPassword {
    fn crypto_get_text_password2(&self) -> (r: Result<(bool, Option<String>), Error>) {
        Err(Error::Other("prompt failed".to_owned()))
    }
}

/// A host decryption-password capability answering with a fixed reply.
pub struct FixedPassword {
    text: Option<String>,
}

impl FixedPassword {
    /// A capability that answers with the given text, or with no text.
    pub fn new(text: Option<String>) -> Self {
        FixedPassword { text }
    }
}

impl ICryptoGetTextPassword for FixedPassword {
    fn crypto_get_text_password(&self) -> (r: Result<Option<String>, Error>) {
        match &self.text {
            Some(s) => Ok(Some(s.clone())),
            None => Ok(None),
        }
    }
}

/// A host encryption-password capability answering with a fixed reply.
pub struct FixedPassword2 {
    defined: bool,
    text: Option<String>,
}

impl FixedPassword2 {
    /// A capability whose reply defines (or not) the given password.
    pub fn new(defined: bool, text: Option<String>) -> Self {
        FixedPassword2 { defined, text }
    }
}

impl ICryptoGetTextPassword2 for FixedPassword2 {
    fn crypto_get_text_password2(&self) -> (r: Result<(bool, Option<String>), Error>) {
        let text = match &self.text {
            Some(s) => Some(s.clone()),
            None => None,
        };
        Ok((self.defined, text))
    }
}

} // verus!
