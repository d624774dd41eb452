use sevenzip_plugin::types::{ArchiveItem, UnixTime};

#[test]
fn file_builder_fills_defaults() {
    let item = ArchiveItem::file("a.txt".to_string(), 5);
    assert_eq!(item.name, "a.txt");
    assert_eq!(item.size, 5);
    assert!(!item.is_dir);
    assert_eq!(item.compressed_size, None);
    assert_eq!(item.modified, None);
    assert_eq!(item.created, None);
    assert_eq!(item.accessed, None);
    assert_eq!(item.attributes, None);
    assert_eq!(item.crc, None);
    assert!(!item.encrypted);
}

#[test]
fn directory_builder_marks_directory() {
    let item = ArchiveItem::directory("docs".to_string());
    assert_eq!(item.name, "docs");
    assert_eq!(item.size, 0);
    assert!(item.is_dir);
}

#[test]
fn with_builders_set_each_field() {
    let t = UnixTime::from_secs(1_700_000_000);
    let item = ArchiveItem::file("b.bin".to_string(), 9)
        .with_compressed_size(4)
        .with_modified(t)
        .with_created(t)
        .with_accessed(t)
        .with_attributes(0x20)
        .with_crc(0xDEADBEEF)
        .with_encrypted(true);
    assert_eq!(item.compressed_size, Some(4));
    assert_eq!(item.modified, Some(t));
    assert_eq!(item.created, Some(t));
    assert_eq!(item.accessed, Some(t));
    assert_eq!(item.attributes, Some(0x20));
    assert_eq!(item.crc, Some(0xDEADBEEF));
    assert!(item.encrypted);
    assert_eq!(item.name, "b.bin");
    assert_eq!(item.size, 9);
}
