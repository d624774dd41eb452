use sevenzip_plugin::com::{ArchivePropId, HandlerPropId, PropId};
use sevenzip_plugin::error::Error;
use sevenzip_plugin::exports::{create_object, get_handler_property2, get_number_of_formats};
use sevenzip_plugin::guid::{guid_from_bytes, iid_iinarchive, iid_ioutarchive, make_format_guid, Guid};
use sevenzip_plugin::handler::{
    InterfaceKind, PasswordProviderWrapper, PasswordRequesterWrapper, PluginHandler,
};
use sevenzip_plugin::testing::{
    FailingPassword, FixedPassword, FixedPassword2, MemSeekStream, StoreFormat,
};
use sevenzip_plugin::types::{PasswordProvider, PasswordRequester};
use sevenzip_plugin::variant::BstrPayload;

type Handler = PluginHandler<StoreFormat, MemSeekStream>;

fn empty_store() -> StoreFormat {
    StoreFormat::new(Vec::new(), Vec::new(), Vec::new())
}

fn store_class_id() -> [u8; 16] {
    [
        0x53, 0x74, 0x6F, 0x72, 0x65, 0x46, 0x6D, 0x74, 0x00, 0x01, 0x02, 0x03, 0x04, 0x05,
        0x06, 0x07,
    ]
}

#[test]
fn guid_from_bytes_reads_mixed_endianness() {
    let bytes: [u8; 16] = [
        0x78, 0x56, 0x34, 0x12, 0xBC, 0x9A, 0xF0, 0xDE, 0x11, 0x22, 0x33, 0x44, 0x55, 0x66,
        0x77, 0x88,
    ];
    let g = guid_from_bytes(&bytes);
    assert_eq!(g.data1, 0x12345678);
    assert_eq!(g.data2, 0x9ABC);
    assert_eq!(g.data3, 0xDEF0);
    assert_eq!(g.data4, 0x1122334455667788);
}

#[test]
fn format_guids_follow_the_fixed_scheme() {
    let g = make_format_guid(0x05);
    assert_eq!(g.data1, 0x23170F69);
    assert_eq!(g.data2, 0x40C1);
    assert_eq!(g.data3, 0x278A);
    assert_eq!(g.data4, 0x1000_0001_1000_0000u64 | (0x05u64 << 32));
}

#[test]
fn one_format_is_served() {
    assert_eq!(get_number_of_formats(), 1);
}

#[test]
fn handler_metadata_is_served_by_identifier() {
    // Name
    let name = get_handler_property2::<StoreFormat>(0, 0).unwrap();
    assert_eq!(name.get_bstr(), Some("Store".to_string()));
    // ClassId travels as raw bytes
    let class = get_handler_property2::<StoreFormat>(0, 1).unwrap();
    match &class.payload {
        Some(BstrPayload::Raw(b)) => assert_eq!(b.as_slice(), &store_class_id()),
        other => panic!("expected raw class id, got {:?}", other),
    }
    // Extension
    let ext = get_handler_property2::<StoreFormat>(0, 2).unwrap();
    assert_eq!(ext.get_bstr(), Some("store".to_string()));
    // Update capability
    let upd = get_handler_property2::<StoreFormat>(0, 4).unwrap();
    assert_eq!(upd.get_bool(), Some(true));
    // No signature: reads as empty
    let sig = get_handler_property2::<StoreFormat>(0, 6).unwrap();
    assert_eq!(sig.vt, sevenzip_plugin::variant::VT_EMPTY);
    // Signature offset is zero
    let off = get_handler_property2::<StoreFormat>(0, 8).unwrap();
    assert_eq!(off.get_u32(), Some(0));
    // Only format index 0 exists
    assert!(get_handler_property2::<StoreFormat>(1, 0).is_err());
}

#[test]
fn create_object_checks_class_and_interface() {
    let clsid = guid_from_bytes(&store_class_id());

    let made: Result<(Handler, InterfaceKind), Error> =
        create_object(&clsid, &iid_iinarchive(), empty_store());
    let (h, kind) = made.unwrap();
    assert_eq!(kind, InterfaceKind::ReadInterface);
    assert_eq!(h.ref_count, 1);
    assert!(!h.is_open);

    let made_out: Result<(Handler, InterfaceKind), Error> =
        create_object(&clsid, &iid_ioutarchive(), empty_store());
    assert_eq!(made_out.unwrap().1, InterfaceKind::WriteInterface);

    // a stranger class is not available
    let stranger = Guid { data1: 7, data2: 7, data3: 7, data4: 7 };
    let refused: Result<(Handler, InterfaceKind), Error> =
        create_object(&stranger, &iid_iinarchive(), empty_store());
    assert!(matches!(refused, Err(Error::NotSupported(_))));

    // an unknown interface is not available either
    let refused2: Result<(Handler, InterfaceKind), Error> =
        create_object(&clsid, &stranger, empty_store());
    assert!(matches!(refused2, Err(Error::NotSupported(_))));
}

#[test]
fn decryption_password_negotiation() {
    // a supplied password comes through
    let w = PasswordRequesterWrapper::new(FixedPassword::new(Some("secret".to_string())));
    assert_eq!(w.get_password().unwrap(), Some("secret".to_string()));
    // a reply without text is the empty password
    let w = PasswordRequesterWrapper::new(FixedPassword::new(None));
    assert_eq!(w.get_password().unwrap(), Some(String::new()));
    // a failed or cancelled prompt is no password, not an error
    let w = PasswordRequesterWrapper::new(FailingPassword::new());
    assert_eq!(w.get_password().unwrap(), None);
}

#[test]
fn encryption_password_negotiation() {
    // a defined password comes through
    let w = PasswordProviderWrapper::new(FixedPassword2::new(true, Some("key".to_string())));
    assert_eq!(w.get_password().unwrap(), Some("key".to_string()));
    // defined but empty is distinct from undefined
    let w = PasswordProviderWrapper::new(FixedPassword2::new(true, None));
    assert_eq!(w.get_password().unwrap(), Some(String::new()));
    // undefined means no encryption was requested
    let w = PasswordProviderWrapper::new(FixedPassword2::new(false, Some("ignored".to_string())));
    assert_eq!(w.get_password().unwrap(), None);
    // a failed prompt means no encryption
    let w = PasswordProviderWrapper::new(FailingPassword::new());
    assert_eq!(w.get_password().unwrap(), None);
}

#[test]
fn property_identifier_codes() {
    assert_eq!(PropId::Path.code(), 3);
    assert_eq!(PropId::IsDir.code(), 6);
    assert_eq!(PropId::Size.code(), 7);
    assert_eq!(PropId::PackSize.code(), 8);
    assert_eq!(PropId::Attrib.code(), 9);
    assert_eq!(PropId::CTime.code(), 10);
    assert_eq!(PropId::ATime.code(), 11);
    assert_eq!(PropId::MTime.code(), 12);
    assert_eq!(PropId::Crc.code(), 19);
    assert_eq!(PropId::Encrypted.code(), 21);
    assert_eq!(ArchivePropId::PhySize.code(), 4);
    assert_eq!(HandlerPropId::Name.code(), 0);
    assert_eq!(HandlerPropId::ClassId.code(), 1);
    assert_eq!(HandlerPropId::Update.code(), 4);
    assert_eq!(HandlerPropId::Signature.code(), 6);
    assert_eq!(HandlerPropId::SignatureOffset.code(), 8);
}

#[test]
fn error_messages_name_the_failure() {
    assert_eq!(
        Error::InvalidFormat("bad header".to_string()).message(),
        "invalid format: bad header"
    );
    assert_eq!(Error::IndexOutOfBounds { index: 4, count: 2 }.message(), "index out of bounds");
    assert_eq!(Error::Other("anything".to_string()).message(), "anything");
    assert_eq!(Error::from("free text".to_string()), Error::Other("free text".to_string()));
}
