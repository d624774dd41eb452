use sevenzip_plugin::com::{ISequentialInStream, ISequentialOutStream};
use sevenzip_plugin::streams::{
    read_sequential_stream, InStreamReader, MemReader, SeqOutStreamWriter,
};
use sevenzip_plugin::testing::{MemInStream, MemOutStream, MemSeekStream};
use sevenzip_plugin::traits::{ReadSeek, SeekFrom, WriteSink};

#[test]
fn in_stream_reader_measures_by_seeking() {
    let stream = MemSeekStream::new(vec![10, 20, 30, 40]);
    let mut rd = InStreamReader::new(stream).unwrap();
    assert_eq!(rd.size(), 4);
    // construction rewound to the start, so reading yields from byte 0
    let first = rd.read(2).unwrap();
    assert_eq!(first, vec![10, 20]);
    let rest = rd.read(10).unwrap();
    assert_eq!(rest, vec![30, 40]);
    assert_eq!(rd.read(10).unwrap(), Vec::<u8>::new());
}

#[test]
fn in_stream_reader_seeks_by_origin() {
    let mut rd = InStreamReader::new(MemSeekStream::new(vec![1, 2, 3, 4, 5])).unwrap();
    assert_eq!(rd.seek(SeekFrom::Start(3)).unwrap(), 3);
    assert_eq!(rd.read(1).unwrap(), vec![4]);
    assert_eq!(rd.seek(SeekFrom::Current(-2)).unwrap(), 2);
    assert_eq!(rd.read(1).unwrap(), vec![3]);
    assert_eq!(rd.seek(SeekFrom::End(-1)).unwrap(), 4);
    assert_eq!(rd.read(5).unwrap(), vec![5]);
}

#[test]
fn sequential_stream_drains_to_completion() {
    let mut s = MemInStream::new((0u8..100).collect());
    let all = read_sequential_stream(&mut s).unwrap();
    assert_eq!(all, (0u8..100).collect::<Vec<u8>>());
    assert_eq!(s.read(100).unwrap(), Vec::<u8>::new());
}

#[test]
fn writer_pushes_every_byte() {
    let mut w = SeqOutStreamWriter::new(MemOutStream::new());
    w.write_all(&[1, 2, 3]).unwrap();
    w.write_all(&[]).unwrap();
    w.write_all(&[4, 5]).unwrap();
    let stream = w.into_inner();
    assert_eq!(stream.bytes().as_slice(), &[1, 2, 3, 4, 5]);
}

#[test]
fn mem_out_stream_accepts_partial_writes() {
    let mut s = MemOutStream::new();
    let n = s.write(&[9, 8, 7]).unwrap();
    assert_eq!(n, 3);
    assert_eq!(s.bytes().as_slice(), &[9, 8, 7]);
}

#[test]
fn mem_reader_reads_and_seeks() {
    let mut r = MemReader::new(vec![5, 6, 7, 8]);
    assert_eq!(r.read(2).unwrap(), vec![5, 6]);
    assert_eq!(r.seek(SeekFrom::Start(0)).unwrap(), 0);
    assert_eq!(r.read(10).unwrap(), vec![5, 6, 7, 8]);
    assert_eq!(r.seek(SeekFrom::End(-1)).unwrap(), 3);
    assert_eq!(r.read(10).unwrap(), vec![8]);
    let empty = MemReader::empty();
    let mut empty = empty;
    assert_eq!(empty.read(10).unwrap(), Vec::<u8>::new());
}
