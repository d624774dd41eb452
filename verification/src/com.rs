//! The host-side object surface: stream, progress, callback and password
//! capability interfaces, and the protocol's property identifiers.
//!
//! The host implements these objects and hands them to the plugin; the
//! bridge only ever calls them. Each trait couples its methods to a small
//! model — a stream's remaining bytes, a callback's observable event log,
//! an update callback's planned answers — and the orchestrators' contracts
//! are stated over those models.

use vstd::prelude::*;
use crate::error::Error;
use crate::variant::{RawPropVariant, spec_cleared, spec_set_bool, spec_set_u64, VT_BSTR};

verus! {

/// Seek origin: absolute from the start.
pub const STREAM_SEEK_SET: u32 = 0;

/// Seek origin: relative to the current position.
pub const STREAM_SEEK_CUR: u32 = 1;

/// Seek origin: relative to the end.
pub const STREAM_SEEK_END: u32 = 2;

/// Ask-mode: extract the item.
pub const NASK_EXTRACT: i32 = 0;

/// Ask-mode: test the item without writing.
pub const NASK_TEST: i32 = 1;

/// Ask-mode: skip the item.
pub const NASK_SKIP: i32 = 2;

/// Per-item result: success.
pub const NRESULT_OK: i32 = 0;

/// Per-item result: the item's data could not be produced.
pub const NRESULT_DATA_ERROR: i32 = 1;

/// The file-time kind this bridge reports: Windows FILETIME.
pub const NFILETIME_WINDOWS: u32 = 0;

/// A sequential read-only stream of the host.
///
/// `remaining()` models the bytes the stream will still deliver. A read
/// hands back a prefix of them, of any length the host chooses up to
/// `max`; an empty result only happens at end of stream (or for `max`
/// zero), which is how a reader can drain the stream to completion.
pub trait ISequentialInStream {
    /// The bytes this stream will still deliver.
    open spec fn remaining(&self) -> Seq<u8> {
        Seq::empty()
    }

    /// Read up to `max` bytes.
    fn read(&mut self, max: u32) -> (r: Result<Vec<u8>, Error>)
        ensures
            r matches Ok(data) ==> {
                &&& data@.len() <= max
                &&& data@.len() <= old(self).remaining().len()
                &&& data@ == old(self).remaining().take(data@.len() as int)
                &&& final(self).remaining() == old(self).remaining().skip(data@.len() as int)
                &&& (data@.len() == 0 ==> max == 0 || old(self).remaining().len() == 0)
            },
            r is Err ==> final(self).remaining() == old(self).remaining();
}

/// A sequential write-only stream of the host.
///
/// `written()` models the bytes the stream has accepted. A write may be
/// partial; the count accepted comes back. Accepting zero bytes of a
/// non-empty buffer is how the host signals a write fault.
pub trait ISequentialOutStream {
    /// The bytes this stream has accepted so far.
    open spec fn written(&self) -> Seq<u8> {
        Seq::empty()
    }

    /// Write a prefix of `data`; returns how many bytes were accepted.
    fn write(&mut self, data: &[u8]) -> (r: Result<u32, Error>)
        ensures
            r matches Ok(n) ==> {
                &&& n <= data@.len()
                &&& final(self).written() == old(self).written() + data@.take(n as int)
            },
            r is Err ==> final(self).written() == old(self).written();
}

/// A seekable input stream of the host: a byte content and a cursor.
///
/// Reading delivers bytes at the cursor and advances it; past the end it
/// delivers nothing. Seeking moves the cursor relative to the start, the
/// cursor, or the end, and reports the new absolute position.
pub trait IInStream {
    /// The full byte content behind this stream.
    open spec fn content(&self) -> Seq<u8> {
        Seq::empty()
    }

    /// The current cursor position.
    open spec fn pos(&self) -> int {
        0
    }

    /// Read up to `max` bytes at the cursor.
    fn read(&mut self, max: u32) -> (r: Result<Vec<u8>, Error>)
        ensures
            final(self).content() == old(self).content(),
            r matches Ok(data) ==> {
                let p = old(self).pos();
                let len = old(self).content().len() as int;
                let avail = if 0 <= p && p < len { len - p } else { 0 };
                &&& data@.len() <= max
                &&& data@.len() <= avail
                &&& final(self).pos() == p + data@.len()
                &&& (data@.len() > 0 ==> data@ == old(self).content().subrange(
                    p,
                    p + data@.len(),
                ))
                &&& (data@.len() == 0 ==> max == 0 || avail == 0)
            },
            r is Err ==> final(self).pos() == old(self).pos();

    /// Move the cursor; returns the new absolute position.
    fn seek(&mut self, offset: i64, seek_origin: u32) -> (r: Result<u64, Error>)
        ensures
            final(self).content() == old(self).content(),
            r matches Ok(p) ==> {
                let target = if seek_origin == STREAM_SEEK_SET {
                    offset as int
                } else if seek_origin == STREAM_SEEK_CUR {
                    old(self).pos() + offset
                } else {
                    old(self).content().len() + offset
                };
                &&& (seek_origin == STREAM_SEEK_SET || seek_origin == STREAM_SEEK_CUR
                    || seek_origin == STREAM_SEEK_END)
                &&& 0 <= target
                &&& final(self).pos() == target
                &&& p == target
            },
            r is Err ==> final(self).pos() == old(self).pos();
}

/// A seekable output stream of the host. Declared for completeness of the
/// host surface; the bridge itself writes through `ISequentialOutStream`.
pub trait IOutStream {
    /// Write a prefix of `data`; returns how many bytes were accepted.
    fn write(&mut self, data: &[u8]) -> Result<u32, Error>;

    /// Move the cursor; returns the new absolute position.
    fn seek(&mut self, offset: i64, seek_origin: u32) -> Result<u64, Error>;

    /// Truncate or extend the stream to `new_size` bytes.
    fn set_size(&mut self, new_size: u64) -> Result<(), Error>;
}

/// The host's base progress interface.
pub trait IProgress {
    /// Announce the total amount of work.
    fn set_total(&mut self, total: u64) -> Result<(), Error>;

    /// Announce the amount of work done so far, when known.
    fn set_completed(&mut self, complete_value: Option<u64>) -> Result<(), Error>;
}

/// The host's callback for archive open operations.
pub trait IArchiveOpenCallback {
    /// Announce the totals, where known (may be called repeatedly or not
    /// at all).
    fn set_total(&mut self, files: Option<u64>, bytes: Option<u64>) -> Result<(), Error>;

    /// Announce open progress, where known.
    fn set_completed(&mut self, files: Option<u64>, bytes: Option<u64>) -> Result<(), Error>;
}

/// The host capability for obtaining a decryption password.
///
/// `Ok(None)` models the host answering with no password text at all;
/// failure models a cancelled or broken prompt.
pub trait ICryptoGetTextPassword {
    /// Ask the host for the password to decrypt with.
    fn crypto_get_text_password(&self) -> Result<Option<String>, Error>;
}

/// The host capability for obtaining an encryption password.
///
/// The boolean says whether a password is defined at all; `None` text with
/// a defined password models an empty password string.
pub trait ICryptoGetTextPassword2 {
    /// Ask the host whether to encrypt, and with what password.
    fn crypto_get_text_password2(&self) -> Result<(bool, Option<String>), Error>;
}

/// One observable call made on an extract callback.
#[derive(Debug, Clone, Copy, PartialEq, Eq, Structural)]
pub enum ExtractCbEvent {
    /// The total byte count was announced.
    Total(u64),
    /// A cumulative completed byte count was announced.
    Completed(u64),
    /// An output stream was requested for an item, in an ask-mode; the
    /// flag tells whether the host supplied one.
    StreamRequest(u32, i32, bool),
    /// The operation on an item was announced, in an ask-mode.
    Prepared(i32),
    /// An item's output stream was handed back after use, with the byte
    /// count it had accepted; absent where no stream was held.
    StreamReleased(Option<u64>),
    /// An item's per-item result was signaled.
    ResultSig(i32),
}

/// The host's callback for extraction.
///
/// `events()` models the calls the callback has observed, in order; every
/// method appends its event whether or not the host reports success. The
/// extraction orchestrator's contract pins this log down.
pub trait IArchiveExtractCallback {
    /// The output stream type this callback hands out.
    type OutStream: ISequentialOutStream;

    /// The calls observed so far, in order.
    open spec fn events(&self) -> Seq<ExtractCbEvent> {
        Seq::empty()
    }

    /// Announce the total byte count of the batch.
    fn set_total(&mut self, total: u64) -> (r: Result<(), Error>)
        ensures
            final(self).events() == old(self).events().push(ExtractCbEvent::Total(total));

    /// Announce the cumulative completed byte count.
    fn set_completed(&mut self, complete_value: u64) -> (r: Result<(), Error>)
        ensures
            final(self).events() == old(self).events().push(
                ExtractCbEvent::Completed(complete_value),
            );

    /// Ask for the output stream of the item at `index`; `None` means the
    /// host wants the item processed without writing. A supplied stream
    /// starts with nothing accepted.
    fn get_stream(&mut self, index: u32, ask_extract_mode: i32) -> (r: Result<
        Option<Self::OutStream>,
        Error,
    >)
        ensures
            r matches Ok(s) ==> {
                &&& final(self).events() == old(self).events().push(
                    ExtractCbEvent::StreamRequest(index, ask_extract_mode, s is Some),
                )
                &&& (s matches Some(stream) ==> stream.written().len() == 0)
            },
            r is Err ==> final(self).events() == old(self).events().push(
                ExtractCbEvent::StreamRequest(index, ask_extract_mode, false),
            );

    /// Announce that an operation on the current item begins.
    fn prepare_operation(&mut self, ask_extract_mode: i32) -> (r: Result<(), Error>)
        ensures
            final(self).events() == old(self).events().push(
                ExtractCbEvent::Prepared(ask_extract_mode),
            );

    /// Hand an item's output stream back after use — exactly once per
    /// supplied stream — recording how many bytes it accepted.
    fn release_stream(&mut self, stream: Option<Self::OutStream>)
        ensures
            final(self).events() == old(self).events().push(
                ExtractCbEvent::StreamReleased(
                    match stream {
                        Some(s) => Some(s.written().len() as u64),
                        None => None,
                    },
                ),
            );

    /// Signal the per-item result for the current item.
    fn set_operation_result(&mut self, result: i32) -> (r: Result<(), Error>)
        ensures
            final(self).events() == old(self).events().push(ExtractCbEvent::ResultSig(result));
}

/// What the host would answer for one slot of an update batch: the
/// descriptor flags, the item's declared properties, and the bytes its
/// input stream will deliver.
#[derive(Debug, Clone)]
pub struct UpdateSlot {
    /// Whether the slot carries new data.
    pub new_data: bool,
    /// Whether the slot carries new properties.
    pub new_props: bool,
    /// The index of the existing item this slot copies, if any.
    pub index_in_archive: Option<u32>,
    /// The declared name (path) of the item.
    pub name: String,
    /// The declared byte size of the item, when the host declares one.
    pub size: Option<u64>,
    /// Whether the item is a directory.
    pub is_dir: bool,
    /// The bytes the slot's input stream delivers.
    pub content: Vec<u8>,
}

/// One observable call made on an update callback.
#[derive(Debug, Clone, Copy, PartialEq, Eq, Structural)]
pub enum UpdateCbEvent {
    /// The total byte count was announced.
    Total(u64),
    /// A cumulative completed byte count was announced.
    Completed(u64),
    /// A slot's per-item result was signaled.
    ResultSig(i32),
}

/// Does `v` hold what an update callback must answer for `slot` under
/// `prop_id`? The collection pass reads the path, size and directory flag;
/// those are pinned, other properties are left open.
pub open spec fn slot_property_ok(slot: UpdateSlot, prop_id: u32, v: RawPropVariant) -> bool {
    if prop_id == 3 {
        // Path
        v.vt == VT_BSTR && v.spec_get_bstr() == Some(slot.name@)
    } else if prop_id == 7 {
        // Size
        match slot.size {
            Some(sz) => v == spec_set_u64(sz),
            None => v == spec_cleared(),
        }
    } else if prop_id == 6 {
        // IsDir
        v == spec_set_bool(slot.is_dir)
    } else {
        true
    }
}

/// The host's callback for update and create operations.
///
/// `slots()` models what the host will answer for each slot of the batch:
/// the descriptor queries and property reads are total and report the slot
/// table exactly (a host that refuses a property is modeled by an absent
/// declared value). `events()` models the announcements the callback has
/// observed, as for extraction.
pub trait IArchiveUpdateCallback {
    /// The input stream type this callback hands out.
    type InStream: ISequentialInStream;

    /// The host's planned answer for each slot.
    open spec fn slots(&self) -> Seq<UpdateSlot> {
        Seq::empty()
    }

    /// The announcements observed so far, in order.
    open spec fn events(&self) -> Seq<UpdateCbEvent> {
        Seq::empty()
    }

    /// The descriptor flags of the slot at `index`: has-new-data,
    /// has-new-properties, and the copied existing item, if any.
    fn get_update_item_info(&mut self, index: u32) -> (r: Result<(bool, bool, Option<u32>), Error>)
        ensures
            final(self).slots() == old(self).slots(),
            final(self).events() == old(self).events(),
            r matches Ok(info) ==> {
                &&& (index as int) < old(self).slots().len()
                &&& info.0 == old(self).slots()[index as int].new_data
                &&& info.1 == old(self).slots()[index as int].new_props
                &&& info.2 == old(self).slots()[index as int].index_in_archive
            };

    /// Read a declared property of the slot at `index`. The answer is the
    /// slot's declared value; an index outside the batch reads as empty.
    fn get_property(&mut self, index: u32, prop_id: u32) -> (v: RawPropVariant)
        ensures
            final(self).slots() == old(self).slots(),
            final(self).events() == old(self).events(),
            (index as int) < old(self).slots().len() ==> slot_property_ok(
                old(self).slots()[index as int],
                prop_id,
                v,
            ),
            (index as int) >= old(self).slots().len() ==> v == spec_cleared();

    /// Ask for the input stream of the slot at `index`; `None` means the
    /// slot has no bytes to deliver.
    fn get_stream(&mut self, index: u32) -> (r: Result<Option<Self::InStream>, Error>)
        ensures
            final(self).slots() == old(self).slots(),
            final(self).events() == old(self).events(),
            r matches Ok(s) ==> (match s {
                Some(stream) => (index as int) < old(self).slots().len()
                    && stream.remaining() == old(self).slots()[index as int].content@,
                None => (index as int) < old(self).slots().len() ==> old(self).slots()[
                    index as int
                ].content@.len() == 0,
            });

    /// Announce the total byte count of the batch.
    fn set_total(&mut self, total: u64) -> (r: Result<(), Error>)
        ensures
            final(self).slots() == old(self).slots(),
            final(self).events() == old(self).events().push(UpdateCbEvent::Total(total));

    /// Announce the cumulative completed byte count.
    fn set_completed(&mut self, complete_value: u64) -> (r: Result<(), Error>)
        ensures
            final(self).slots() == old(self).slots(),
            final(self).events() == old(self).events().push(
                UpdateCbEvent::Completed(complete_value),
            );

    /// Signal the per-item result for a slot.
    fn set_operation_result(&mut self, operation_result: i32) -> (r: Result<(), Error>)
        ensures
            final(self).slots() == old(self).slots(),
            final(self).events() == old(self).events().push(
                UpdateCbEvent::ResultSig(operation_result),
            );
}

/// Item property identifiers.
#[derive(Debug, Clone, Copy, PartialEq, Eq, Structural)]
pub enum PropId {
    /// The item's path within the archive.
    Path,
    /// Whether the item is a directory.
    IsDir,
    /// The uncompressed size.
    Size,
    /// The compressed size.
    PackSize,
    /// The file attributes.
    Attrib,
    /// The creation time.
    CTime,
    /// The access time.
    ATime,
    /// The modification time.
    MTime,
    /// The CRC32 checksum.
    Crc,
    /// Whether the item is encrypted.
    Encrypted,
}

/// The protocol code of an item property identifier.
pub open spec fn spec_prop_id_code(p: PropId) -> u32 {
    match p {
        PropId::Path => 3,
        PropId::IsDir => 6,
        PropId::Size => 7,
        PropId::PackSize => 8,
        PropId::Attrib => 9,
        PropId::CTime => 10,
        PropId::ATime => 11,
        PropId::MTime => 12,
        PropId::Crc => 19,
        PropId::Encrypted => 21,
    }
}

impl PropId {
    /// The protocol code of this property identifier.
    pub fn code(self) -> (c: u32)
        ensures
            c == spec_prop_id_code(self),
    {
        match self {
            PropId::Path => 3,
            PropId::IsDir => 6,
            PropId::Size => 7,
            PropId::PackSize => 8,
            PropId::Attrib => 9,
            PropId::CTime => 10,
            PropId::ATime => 11,
            PropId::MTime => 12,
            PropId::Crc => 19,
            PropId::Encrypted => 21,
        }
    }
}

/// Archive-level property identifiers.
#[derive(Debug, Clone, Copy, PartialEq, Eq, Structural)]
pub enum ArchivePropId {
    /// The physical size of the archive.
    PhySize,
}

impl ArchivePropId {
    /// The protocol code of this archive property identifier.
    pub fn code(self) -> (c: u32)
        ensures
            c == 4,
    {
        match self {
            ArchivePropId::PhySize => 4,
        }
    }
}

/// Handler metadata identifiers, queried before any object exists.
#[derive(Debug, Clone, Copy, PartialEq, Eq, Structural)]
pub enum HandlerPropId {
    /// The format's name.
    Name,
    /// The format's class identifier.
    ClassId,
    /// The format's file extension.
    Extension,
    /// An additional extension.
    AddExtension,
    /// Whether the format supports writing.
    Update,
    /// Whether names are kept.
    KeepName,
    /// The detection signature.
    Signature,
    /// A multi-part detection signature.
    MultiSignature,
    /// The offset at which the signature sits.
    SignatureOffset,
    /// Alternate-stream support.
    AltStreams,
    /// Security-information support.
    NtSecure,
    /// Format flags.
    Flags,
}

/// The protocol code of a handler metadata identifier.
pub open spec fn spec_handler_prop_id_code(p: HandlerPropId) -> u32 {
    match p {
        HandlerPropId::Name => 0,
        HandlerPropId::ClassId => 1,
        HandlerPropId::Extension => 2,
        HandlerPropId::AddExtension => 3,
        HandlerPropId::Update => 4,
        HandlerPropId::KeepName => 5,
        HandlerPropId::Signature => 6,
        HandlerPropId::MultiSignature => 7,
        HandlerPropId::SignatureOffset => 8,
        HandlerPropId::AltStreams => 9,
        HandlerPropId::NtSecure => 10,
        HandlerPropId::Flags => 11,
    }
}

impl HandlerPropId {
    /// The protocol code of this handler metadata identifier.
    pub fn code(self) -> (c: u32)
        ensures
            c == spec_handler_prop_id_code(self),
    {
        match self {
            HandlerPropId::Name => 0,
            HandlerPropId::ClassId => 1,
            HandlerPropId::Extension => 2,
            HandlerPropId::AddExtension => 3,
            HandlerPropId::Update => 4,
            HandlerPropId::KeepName => 5,
            HandlerPropId::Signature => 6,
            HandlerPropId::MultiSignature => 7,
            HandlerPropId::SignatureOffset => 8,
            HandlerPropId::AltStreams => 9,
            HandlerPropId::NtSecure => 10,
            HandlerPropId::Flags => 11,
        }
    }
}

} // verus!
