//! Adapters between the host's opaque streams and the byte interfaces the
//! format logic consumes.
//!
//! The input adapter measures the stream on construction by seeking to the
//! end and back, because the host hands over no size of its own. The output
//! adapter accepts every byte or fails, treating a zero-byte acceptance of
//! a non-empty write as a write fault.

use vstd::prelude::*;
use crate::com::{
    IInStream, ISequentialInStream, ISequentialOutStream, STREAM_SEEK_CUR, STREAM_SEEK_END,
    STREAM_SEEK_SET,
};
use crate::error::Error;
use crate::traits::{ReadSeek, SeekFrom, WriteSink};

verus! {

/// Drain a sequential host stream to completion. Short reads are retried;
/// an empty read marks the end of the stream.
pub fn read_sequential_stream<S: ISequentialInStream>(stream: &mut S) -> (r: Result<Vec<u8>, Error>)
    ensures
        r matches Ok(data) ==> data@ == old(stream).remaining()
            && final(stream).remaining().len() == 0,
{
    let mut data: Vec<u8> = Vec::new();
    loop
        invariant
            data@ + stream.remaining() == old(stream).remaining(),
        decreases stream.remaining().len(),
    {
        let ghost pre_rem = stream.remaining();
        match stream.read(65536) {
            Ok(mut chunk) => {
                if chunk.len() == 0 {
                    proof {
                        assert(data@ =~= old(stream).remaining());
                    }
                    return Ok(data);
                }
                proof {
                    assert(pre_rem.take(chunk@.len() as int) + pre_rem.skip(
                        chunk@.len() as int,
                    ) =~= pre_rem);
                }
                data.append(&mut chunk);
                proof {
                    assert(data@ + stream.remaining() =~= old(stream).remaining());
                }
            },
            Err(e) => {
                return Err(e);
            },
        }
    }
}

/// A read/seek adapter over a host seekable input stream.
///
/// Construction measures the total size by seeking to the end and seeking
/// back to the start, since the host does not pass the size separately.
pub struct InStreamReader<S: IInStream> {
    stream: S,
    size: u64,
}

impl<S: IInStream> InStreamReader<S> {
    /// The measured total size.
    pub closed spec fn spec_size(&self) -> u64 {
        self.size
    }

    /// The content of the wrapped stream.
    pub closed spec fn spec_content(&self) -> Seq<u8> {
        self.stream.content()
    }

    /// The cursor of the wrapped stream.
    pub closed spec fn spec_pos(&self) -> int {
        self.stream.pos()
    }

    /// Wrap a host stream, measuring its size: seek to the end to learn
    /// the size, then seek back to the start.
    pub fn new(stream: S) -> (r: Result<Self, Error>)
        ensures
            r matches Ok(rd) ==> {
                &&& rd.spec_content() == stream.content()
                &&& rd.spec_size() == rd.spec_content().len()
                &&& rd.spec_pos() == 0
            },
    {
        let mut s = stream;
        let size: u64 = match s.seek(0, STREAM_SEEK_END) {
            Ok(n) => n,
            Err(_) => {
                return Err(Error::Io("failed to get stream size".to_owned()));
            },
        };
        match s.seek(0, STREAM_SEEK_SET) {
            Ok(_) => {},
            Err(_) => {
                return Err(Error::Io("failed to seek to start".to_owned()));
            },
        }
        Ok(InStreamReader { stream: s, size })
    }

    /// The total size of the stream in bytes.
    pub fn size(&self) -> (n: u64)
        ensures
            n == self.spec_size(),
    {
        self.size
    }

    /// Measure the stream again and rewind it, as on construction.
    pub fn reset(&mut self) -> (r: Result<(), Error>)
        ensures
            final(self).spec_content() == old(self).spec_content(),
            r is Ok ==> final(self).spec_size() == final(self).spec_content().len()
                && final(self).spec_pos() == 0,
    {
        let size: u64 = match self.stream.seek(0, STREAM_SEEK_END) {
            Ok(n) => n,
            Err(_) => {
                return Err(Error::Io("failed to get stream size".to_owned()));
            },
        };
        match self.stream.seek(0, STREAM_SEEK_SET) {
            Ok(_) => {},
            Err(_) => {
                return Err(Error::Io("failed to seek to start".to_owned()));
            },
        }
        self.size = size;
        Ok(())
    }
}

impl<S: IInStream> ReadSeek for InStreamReader<S> {
    open spec fn stream_content(&self) -> Seq<u8> {
        self.spec_content()
    }

    open spec fn stream_pos(&self) -> int {
        self.spec_pos()
    }

    fn read(&mut self, max: usize) -> (r: Result<Vec<u8>, Error>) {
        let max32: u32 = if max > u32::MAX as usize {
            u32::MAX
        } else {
            max as u32
        };
        match self.stream.read(max32) {
            Ok(data) => Ok(data),
            Err(_) => Err(Error::Io("read failed".to_owned())),
        }
    }

    fn seek(&mut self, pos: SeekFrom) -> (r: Result<u64, Error>) {
        let offset: i64;
        let origin: u32;
        match pos {
            SeekFrom::Start(n) => {
                if n > i64::MAX as u64 {
                    return Err(Error::Io("seek offset out of range".to_owned()));
                }
                offset = n as i64;
                origin = STREAM_SEEK_SET;
            },
            SeekFrom::Current(n) => {
                offset = n;
                origin = STREAM_SEEK_CUR;
            },
            SeekFrom::End(n) => {
                offset = n;
                origin = STREAM_SEEK_END;
            },
        }
        match self.stream.seek(offset, origin) {
            Ok(p) => Ok(p),
            Err(_) => Err(Error::Io("seek failed".to_owned())),
        }
    }
}

/// A write adapter over a host sequential output stream.
///
/// `write_all` pushes every byte into the host stream, looping over the
/// host's partial writes, and fails when the host accepts zero bytes of a
/// non-empty buffer.
pub struct SeqOutStreamWriter<S: ISequentialOutStream> {
    stream: S,
}

impl<S: ISequentialOutStream> SeqOutStreamWriter<S> {
    /// Wrap a host output stream.
    pub fn new(stream: S) -> (w: Self)
        ensures
            w.sunk() == stream.written(),
    {
        SeqOutStreamWriter { stream }
    }

    /// Hand the wrapped stream back, for the caller to release.
    pub fn into_inner(self) -> (s: S)
        ensures
            s.written() == self.sunk(),
    {
        self.stream
    }

    /// Nothing buffers here, so there is nothing to flush.
    pub fn flush(&mut self) -> (r: Result<(), Error>)
        ensures
            r is Ok,
            final(self).sunk() == old(self).sunk(),
    {
        Ok(())
    }
}

impl<S: ISequentialOutStream> WriteSink for SeqOutStreamWriter<S> {
    closed spec fn sunk(&self) -> Seq<u8> {
        self.stream.written()
    }

    fn write_all(&mut self, data: &[u8]) -> (r: Result<(), Error>) {
        let mut offset: usize = 0;
        while offset < data.len()
            invariant
                offset <= data@.len(),
                self.stream.written() == old(self).stream.written() + data@.take(offset as int),
            decreases data@.len() - offset,
        {
            let part = vstd::slice::slice_subrange(data, offset, data.len());
            match self.stream.write(part) {
                Ok(n) => {
                    if n == 0 {
                        return Err(Error::Io("write returned zero bytes".to_owned()));
                    }
                    proof {
                        assert(data@.take(offset as int) + data@.subrange(
                            offset as int,
                            offset + n,
                        ) =~= data@.take(offset + n));
                        assert(part@.take(n as int) =~= data@.subrange(
                            offset as int,
                            offset + n,
                        ));
                    }
                    offset = offset + n as usize;
                },
                Err(e) => {
                    return Err(e);
                },
            }
        }
        proof {
            assert(data@.take(data@.len() as int) =~= data@);
        }
        Ok(())
    }
}

/// An in-memory byte source: the seekable reader used where an update runs
/// against no existing archive, and for driving format logic from owned
/// bytes.
pub struct MemReader {
    data: Vec<u8>,
    pos: usize,
}

impl MemReader {
    /// The bytes behind this reader.
    pub closed spec fn spec_data(&self) -> Seq<u8> {
        self.data@
    }

    /// The current cursor position.
    pub closed spec fn spec_pos(&self) -> int {
        self.pos as int
    }

    /// A reader over the given bytes, positioned at the start.
    pub fn new(data: Vec<u8>) -> (r: Self)
        ensures
            r.spec_data() == data@,
            r.spec_pos() == 0,
    {
        MemReader { data, pos: 0 }
    }

    /// A reader over no bytes at all.
    pub fn empty() -> (r: Self)
        ensures
            r.spec_data().len() == 0,
            r.spec_pos() == 0,
    {
        MemReader { data: Vec::new(), pos: 0 }
    }
}

impl ReadSeek for MemReader {
    open spec fn stream_content(&self) -> Seq<u8> {
        self.spec_data()
    }

    open spec fn stream_pos(&self) -> int {
        self.spec_pos()
    }

    fn read(&mut self, max: usize) -> (r: Result<Vec<u8>, Error>) {
        let len: usize = self.data.len();
        let avail: usize = if self.pos < len {
            len - self.pos
        } else {
            0
        };
        let count: usize = if max < avail {
            max
        } else {
            avail
        };
        let mut out: Vec<u8> = Vec::new();
        let mut n: usize = 0;
        while n < count
            invariant
                n <= count,
                count <= max,
                len == self.data@.len(),
                count == 0 || (self.pos < len && self.pos + count <= len),
                self.pos == old(self).pos,
                self.data@ == old(self).data@,
                count > 0 ==> out@ == self.data@.subrange(self.pos as int, self.pos + n),
                count == 0 ==> out@.len() == 0,
            decreases count - n,
        {
            out.push(self.data[self.pos + n]);
            n = n + 1;
        }
        self.pos = self.pos + count;
        Ok(out)
    }

    fn seek(&mut self, pos: SeekFrom) -> (r: Result<u64, Error>) {
        let target: u64;
        match pos {
            SeekFrom::Start(n) => {
                target = n;
            },
            SeekFrom::Current(n) => {
                let base = self.pos as u64;
                if n >= 0 {
                    if base > u64::MAX - (n as u64) {
                        return Err(Error::Io("seek out of range".to_owned()));
                    }
                    target = base + (n as u64);
                } else {
                    let back = (-(n as i128)) as u64;
                    if back > base {
                        return Err(Error::Io("seek before start".to_owned()));
                    }
                    target = base - back;
                }
            },
            SeekFrom::End(n) => {
                let base = self.data.len() as u64;
                if n >= 0 {
                    if base > u64::MAX - (n as u64) {
                        return Err(Error::Io("seek out of range".to_owned()));
                    }
                    target = base + (n as u64);
                } else {
                    let back = (-(n as i128)) as u64;
                    if back > base {
                        return Err(Error::Io("seek before start".to_owned()));
                    }
                    target = base - back;
                }
            },
        }
        if target > usize::MAX as u64 {
            return Err(Error::Io("seek out of range".to_owned()));
        }
        self.pos = target as usize;
        Ok(target)
    }
}

} // verus!
