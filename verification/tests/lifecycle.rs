use sevenzip_plugin::error::Error;
use sevenzip_plugin::guid::{iid_iinarchive, iid_ioutarchive, iid_iunknown, Guid};
use sevenzip_plugin::handler::{InterfaceKind, PluginHandler, PasswordRequesterWrapper};
use sevenzip_plugin::testing::{FixedPassword, MemSeekStream, StoreFormat};
use sevenzip_plugin::types::ArchiveItem;
use sevenzip_plugin::variant::{VT_BOOL, VT_BSTR, VT_EMPTY, VT_UI8};

type Handler = PluginHandler<StoreFormat, MemSeekStream>;

fn store(names_and_sizes: &[(&str, u64)]) -> StoreFormat {
    let mut items = Vec::new();
    let mut data = Vec::new();
    for (name, size) in names_and_sizes {
        items.push(ArchiveItem::file(name.to_string(), *size));
        data.push(vec![0u8; *size as usize]);
    }
    StoreFormat::new(items, data, Vec::new())
}

#[test]
fn release_after_n_add_refs_destroys_on_the_last() {
    let mut h: Handler = PluginHandler::new(store(&[]));
    // two extra references on top of the creation reference
    assert_eq!(h.add_ref(), 2);
    assert_eq!(h.add_ref(), 3);
    // the first two releases must not destroy
    assert_eq!(h.release(), (2, false));
    assert_eq!(h.release(), (1, false));
    // the third release brings the count to zero and destroys, exactly once
    assert_eq!(h.release(), (0, true));
}

#[test]
fn release_with_no_extra_refs_destroys_immediately() {
    let mut h: Handler = PluginHandler::new(store(&[]));
    assert_eq!(h.release(), (0, true));
}

#[test]
fn query_interface_takes_a_reference() {
    let mut h: Handler = PluginHandler::new(store(&[]));
    assert_eq!(h.query_interface(&iid_iunknown()), Ok(InterfaceKind::ReadInterface));
    assert_eq!(h.ref_count, 2);
    assert_eq!(h.query_interface(&iid_iinarchive()), Ok(InterfaceKind::ReadInterface));
    assert_eq!(h.ref_count, 3);
    // the store format supports writing, so the write face is available
    assert_eq!(h.query_interface(&iid_ioutarchive()), Ok(InterfaceKind::WriteInterface));
    assert_eq!(h.ref_count, 4);
}

#[test]
fn unknown_interface_is_refused_without_a_reference() {
    let mut h: Handler = PluginHandler::new(store(&[]));
    let stranger = Guid { data1: 1, data2: 2, data3: 3, data4: 4 };
    match h.query_interface(&stranger) {
        Err(Error::NotSupported(_)) => {}
        other => panic!("expected a no-interface refusal, got {:?}", other),
    }
    assert_eq!(h.ref_count, 1);
}

#[test]
fn open_measures_and_close_detaches() {
    let mut h: Handler = PluginHandler::new(store(&[("a", 3)]));
    let stream = MemSeekStream::new(vec![1, 2, 3, 4, 5]);
    let no_pw: Option<&PasswordRequesterWrapper<FixedPassword>> = None;
    h.open(stream, no_pw).unwrap();
    assert!(h.is_open);
    assert_eq!(h.archive_size, 5);
    assert!(h.in_stream.is_some());
    h.close().unwrap();
    assert!(!h.is_open);
    assert!(h.in_stream.is_none());
    assert_eq!(h.archive_size, 0);
}

#[test]
fn properties_encode_the_item_table() {
    let h: Handler = PluginHandler::new(store(&[("first.txt", 10)]));
    assert_eq!(h.get_number_of_items(), 1);

    let name = h.get_property(0, 3).unwrap();
    assert_eq!(name.vt, VT_BSTR);
    assert_eq!(name.get_bstr(), Some("first.txt".to_string()));

    let size = h.get_property(0, 7).unwrap();
    assert_eq!(size.vt, VT_UI8);
    assert_eq!(size.get_u64(), Some(10));

    let is_dir = h.get_property(0, 6).unwrap();
    assert_eq!(is_dir.vt, VT_BOOL);
    assert_eq!(is_dir.get_bool(), Some(false));

    // absent optional properties read as empty
    let packed = h.get_property(0, 8).unwrap();
    assert_eq!(packed.vt, VT_EMPTY);

    // an index outside the table is rejected
    match h.get_property(9, 3) {
        Err(Error::IndexOutOfBounds { index: 9, count: 1 }) => {}
        other => panic!("expected out-of-bounds, got {:?}", other),
    }
}

#[test]
fn property_tables_are_fixed() {
    let h: Handler = PluginHandler::new(store(&[]));
    assert_eq!(h.get_number_of_properties(), 10);
    assert_eq!(h.get_property_info(0).unwrap(), (3, 8));
    assert_eq!(h.get_property_info(1).unwrap(), (7, 21));
    assert_eq!(h.get_property_info(9).unwrap(), (21, 11));
    assert!(h.get_property_info(10).is_err());
    assert_eq!(h.get_number_of_archive_properties(), 1);
    assert_eq!(h.get_archive_property_info(0).unwrap(), (4, 21));
    assert!(h.get_archive_property_info(1).is_err());
    assert_eq!(h.get_file_time_type(), 0);
}

#[test]
fn archive_property_reports_measured_size() {
    let mut h: Handler = PluginHandler::new(store(&[]));
    let no_pw: Option<&PasswordRequesterWrapper<FixedPassword>> = None;
    h.open(MemSeekStream::new(vec![7; 42]), no_pw).unwrap();
    let phy = h.get_archive_property(4).unwrap();
    assert_eq!(phy.get_u64(), Some(42));
}
