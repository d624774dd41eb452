//! The traits a format implementation provides.
//!
//! A format implementation exposes its metadata through [`ArchiveFormat`],
//! reading through [`ArchiveReader`], and writing through
//! [`ArchiveUpdater`]. Each executable method is tied to a specification
//! twin, so the bridge's contracts can speak about what a format reports:
//! in particular, which items extract successfully and what bytes they
//! yield are part of the reader's model, which is what lets the
//! extraction protocol promise the per-item result codes it signals.

use vstd::prelude::*;
use crate::com::IArchiveUpdateCallback;
use crate::error::Error;
use crate::types::{ArchiveItem, PasswordProvider, PasswordRequester, UpdateItem};

verus! {

/// The origin-relative target of a seek.
#[derive(Debug, Clone, Copy, PartialEq, Eq, Structural)]
pub enum SeekFrom {
    /// An absolute offset from the start.
    Start(u64),
    /// A signed offset from the current position.
    Current(i64),
    /// A signed offset from the end.
    End(i64),
}

/// The absolute position a seek aims at: the offset from the start, the
/// cursor, or the end.
pub open spec fn seek_target(pos: SeekFrom, cursor: int, len: int) -> int {
    match pos {
        SeekFrom::Start(n) => n as int,
        SeekFrom::Current(d) => cursor + d,
        SeekFrom::End(d) => len + d,
    }
}

/// A seekable byte source handed to format logic, so that an archive can
/// be parsed on demand without buffering it whole: a byte content and a
/// cursor.
pub trait ReadSeek {
    /// The full byte content behind this source.
    open spec fn stream_content(&self) -> Seq<u8> {
        Seq::empty()
    }

    /// The current cursor position.
    open spec fn stream_pos(&self) -> int {
        0
    }

    /// Read up to `max` bytes from the cursor and advance it. A short
    /// read — any count below `max`, down to zero at end of stream — is
    /// not an error.
    fn read(&mut self, max: usize) -> (r: Result<Vec<u8>, Error>)
        ensures
            final(self).stream_content() == old(self).stream_content(),
            r matches Ok(data) ==> {
                let p = old(self).stream_pos();
                let len = old(self).stream_content().len() as int;
                let avail = if 0 <= p && p < len { len - p } else { 0 };
                &&& data@.len() <= max
                &&& data@.len() <= avail
                &&& final(self).stream_pos() == p + data@.len()
                &&& (data@.len() > 0 ==> data@ == old(self).stream_content().subrange(
                    p,
                    p + data@.len(),
                ))
                &&& (data@.len() == 0 ==> max == 0 || avail == 0)
            },
            r is Err ==> final(self).stream_pos() == old(self).stream_pos();

    /// Move the cursor; returns the new absolute position.
    fn seek(&mut self, pos: SeekFrom) -> (r: Result<u64, Error>)
        ensures
            final(self).stream_content() == old(self).stream_content(),
            r matches Ok(p) ==> {
                let target = seek_target(
                    pos,
                    old(self).stream_pos(),
                    old(self).stream_content().len() as int,
                );
                &&& 0 <= target
                &&& final(self).stream_pos() == target
                &&& p == target
            },
            r is Err ==> final(self).stream_pos() == old(self).stream_pos();
}

/// A byte sink for extracted or produced data.
pub trait WriteSink {
    /// The bytes accepted so far.
    open spec fn sunk(&self) -> Seq<u8> {
        Seq::empty()
    }

    /// Accept all of `data`, or fail — and a failure means not all of
    /// `data` arrived. Accepting nothing always succeeds.
    fn write_all(&mut self, data: &[u8]) -> (r: Result<(), Error>)
        ensures
            r is Ok ==> final(self).sunk() == old(self).sunk() + data@,
            r is Err ==> final(self).sunk().len() < old(self).sunk().len() + data@.len(),
            data@.len() == 0 ==> r is Ok && final(self).sunk() == old(self).sunk();
}

/// Metadata about an archive format.
///
/// Each executable method reports exactly the value of its specification
/// twin, so contracts elsewhere can name what a format declares.
pub trait ArchiveFormat {
    /// The format's human-readable name.
    open spec fn spec_name() -> Seq<char> {
        Seq::empty()
    }

    /// The format's file extension, without the dot.
    open spec fn spec_extension() -> Seq<char> {
        Seq::empty()
    }

    /// The format's unique 16-byte class identifier.
    open spec fn spec_class_id() -> Seq<u8> {
        Seq::empty()
    }

    /// The detection signature, if the format has one.
    open spec fn spec_signature() -> Option<Seq<u8>> {
        None
    }

    /// Whether the format supports creating new archives.
    open spec fn spec_supports_write() -> bool {
        false
    }

    /// Whether the format supports editing existing archives.
    open spec fn spec_supports_update() -> bool {
        false
    }

    /// Whether the update collection pass should skip emitting entries
    /// for items flagged as directories. Whether directories need their
    /// own entries is format-specific, so the format decides.
    open spec fn spec_skips_directory_entries() -> bool {
        true
    }

    /// Human-readable name of the format.
    fn name() -> (r: &'static str)
        ensures
            r@ == Self::spec_name();

    /// File extension without the dot.
    fn extension() -> (r: &'static str)
        ensures
            r@ == Self::spec_extension();

    /// Unique 16-byte class identifier for this format.
    fn class_id() -> (r: [u8; 16])
        ensures
            r@ == Self::spec_class_id();

    /// Optional signature (magic bytes) for format detection.
    fn signature() -> (r: Option<&'static [u8]>)
        ensures
            match r {
                Some(s) => Self::spec_signature() == Some(s@),
                None => Self::spec_signature() is None,
            };

    /// Whether this format supports creating new archives.
    fn supports_write() -> (b: bool)
        ensures
            b == Self::spec_supports_write();

    /// Whether this format supports editing existing archives.
    fn supports_update() -> (b: bool)
        ensures
            b == Self::spec_supports_update();

    /// Whether update collection skips directory entries for this format.
    fn skips_directory_entries() -> (b: bool)
        ensures
            b == Self::spec_skips_directory_entries();
}

/// Reading support for a format.
///
/// The reader's model is its item table `items()`, and, per item, whether
/// extraction succeeds (`extract_ok`) and which bytes it then yields
/// (`extracted`). `item_count` and `get_item` report the table exactly;
/// extraction returns the modeled bytes exactly when the model says it
/// succeeds, and leaves the whole model untouched — which is what lets
/// the extraction protocol account sizes and promise result codes across
/// a batch.
pub trait ArchiveReader: ArchiveFormat {
    /// The item table of the archive this reader currently has open.
    open spec fn items(&self) -> Seq<ArchiveItem> {
        Seq::empty()
    }

    /// The physical archive size the format knows, if any.
    open spec fn spec_physical_size(&self) -> Option<u64> {
        None
    }

    /// Whether extraction of the item at `index` succeeds in the current
    /// state.
    open spec fn extract_ok(&self, index: int) -> bool {
        false
    }

    /// The bytes extraction of the item at `index` yields when it
    /// succeeds.
    open spec fn extracted(&self, index: int) -> Seq<u8> {
        Seq::empty()
    }

    /// Open and parse the archive from a streaming reader of `size` bytes.
    fn open<R: ReadSeek>(&mut self, reader: &mut R, size: u64) -> (r: Result<(), Error>);

    /// The number of items in the archive.
    fn item_count(&self) -> (n: usize)
        ensures
            n == self.items().len();

    /// Information about the item at `index`, if there is one.
    fn get_item(&self, index: usize) -> (r: Option<&ArchiveItem>)
        ensures
            match r {
                Some(item) => index < self.items().len() && *item == self.items()[index as int],
                None => index >= self.items().len(),
            };

    /// Extract an item's uncompressed contents: exactly the modeled bytes
    /// when the model says extraction succeeds, an error when it does
    /// not; the reader's model is not disturbed.
    fn extract(&mut self, index: usize) -> (r: Result<Vec<u8>, Error>)
        ensures
            final(self).items() == old(self).items(),
            forall|j: int| final(self).extract_ok(j) == old(self).extract_ok(j),
            forall|j: int| final(self).extracted(j) == old(self).extracted(j),
            r matches Ok(data) ==> old(self).extract_ok(index as int) && data@ == old(
                self,
            ).extracted(index as int),
            r is Err ==> !old(self).extract_ok(index as int);

    /// Extract an item's data directly into a sink, returning the byte
    /// count on success; on success the sink receives exactly the modeled
    /// bytes. A failure comes from the item — the model refuses it — or
    /// from the sink, in which case not all of the item's bytes arrived.
    fn extract_to<W: WriteSink>(&mut self, index: usize, writer: &mut W) -> (r: Result<u64, Error>)
        ensures
            final(self).items() == old(self).items(),
            forall|j: int| final(self).extract_ok(j) == old(self).extract_ok(j),
            forall|j: int| final(self).extracted(j) == old(self).extracted(j),
            r matches Ok(n) ==> {
                &&& old(self).extract_ok(index as int)
                &&& n == old(self).extracted(index as int).len()
                &&& final(writer).sunk() == old(writer).sunk() + old(self).extracted(
                    index as int,
                )
            },
            r is Err ==> !old(self).extract_ok(index as int) || final(writer).sunk().len()
                < old(writer).sunk().len() + old(self).extracted(index as int).len(),
    {
        match self.extract(index) {
            Ok(data) => {
                let len = data.len();
                match writer.write_all(data.as_slice()) {
                    Ok(()) => Ok(len as u64),
                    Err(e) => Err(e),
                }
            },
            Err(e) => Err(e),
        }
    }

    /// Close the archive and release resources.
    fn close(&mut self) {
    }

    /// The physical size of the archive, when the format tracks one.
    fn physical_size(&self) -> (r: Option<u64>)
        ensures
            r == self.spec_physical_size();

    /// Open an archive that may need a password for its header. The
    /// default ignores the password callback and opens normally.
    fn open_with_password<R: ReadSeek, P: PasswordRequester>(
        &mut self,
        reader: &mut R,
        size: u64,
        password_requester: Option<&P>,
    ) -> (r: Result<(), Error>) {
        self.open(reader, size)
    }

    /// Extract an item that may need a password. The default ignores the
    /// password callback.
    fn extract_to_with_password<W: WriteSink, P: PasswordRequester>(
        &mut self,
        index: usize,
        writer: &mut W,
        password_requester: Option<&P>,
    ) -> (r: Result<u64, Error>)
        ensures
            final(self).items() == old(self).items(),
            forall|j: int| final(self).extract_ok(j) == old(self).extract_ok(j),
            forall|j: int| final(self).extracted(j) == old(self).extracted(j),
            r matches Ok(n) ==> {
                &&& old(self).extract_ok(index as int)
                &&& n == old(self).extracted(index as int).len()
                &&& final(writer).sunk() == old(writer).sunk() + old(self).extracted(
                    index as int,
                )
            },
            r is Err ==> !old(self).extract_ok(index as int) || final(writer).sunk().len()
                < old(writer).sunk().len() + old(self).extracted(index as int).len(),
    {
        self.extract_to(index, writer)
    }
}

/// Writing and updating support for a format.
///
/// Creating a new archive is an update against empty existing data in
/// which every item is new. During the write phase the format reports
/// progress through the update callback it is handed, scaled onto the
/// bridge's declared total with `report_scaled`; the contract permits the
/// write phase nothing but completion announcements on that callback, so
/// the protocol's earlier announcements survive it.
pub trait ArchiveUpdater: ArchiveReader {
    /// Apply `updates` against the existing archive, streaming the result
    /// into `writer` and announcing progress on `progress` — rescaled
    /// onto `declared_total` via `report_scaled`, and nothing beyond
    /// completion announcements. Returns the number of bytes written.
    fn update_streaming<R: ReadSeek, W: WriteSink, U: IArchiveUpdateCallback>(
        &mut self,
        existing: &mut R,
        existing_size: u64,
        updates: Vec<UpdateItem>,
        writer: &mut W,
        progress: &mut U,
        declared_total: u64,
    ) -> (r: Result<u64, Error>)
        ensures
            final(progress).slots() == old(progress).slots(),
            old(progress).events().is_prefix_of(final(progress).events()),
            forall|q: int|
                old(progress).events().len() <= q < final(progress).events().len()
                    ==> final(progress).events()[q] is Completed;

    /// Apply `updates` with encryption support. The default ignores the
    /// password callback and updates unencrypted.
    fn update_streaming_with_password<
        R: ReadSeek,
        W: WriteSink,
        U: IArchiveUpdateCallback,
        Q: PasswordProvider,
    >(
        &mut self,
        existing: &mut R,
        existing_size: u64,
        updates: Vec<UpdateItem>,
        writer: &mut W,
        progress: &mut U,
        declared_total: u64,
        password_provider: Option<&Q>,
    ) -> (r: Result<u64, Error>)
        ensures
            final(progress).slots() == old(progress).slots(),
            old(progress).events().is_prefix_of(final(progress).events()),
            forall|q: int|
                old(progress).events().len() <= q < final(progress).events().len()
                    ==> final(progress).events()[q] is Completed,
    {
        self.update_streaming(existing, existing_size, updates, writer, progress, declared_total)
    }
}

} // verus!
