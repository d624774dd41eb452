use sevenzip_plugin::types::UnixTime;
use sevenzip_plugin::variant::{
    systemtime_to_filetime, BstrPayload, RawPropVariant, VT_BOOL, VT_BSTR, VT_EMPTY,
    VT_FILETIME, VT_UI4, VT_UI8,
};

fn fresh() -> RawPropVariant {
    RawPropVariant::default()
}

#[test]
fn default_is_empty() {
    let v = fresh();
    assert_eq!(v.vt, VT_EMPTY);
    assert_eq!(v.data, 0);
    assert_eq!(v.allocation_count(), 0);
}

#[test]
fn u64_round_trip_zero_and_max() {
    for value in [0u64, 1, 0x1234_5678_9ABC_DEF0, u64::MAX] {
        let mut v = fresh();
        v.set_u64(value);
        assert_eq!(v.vt, VT_UI8);
        assert_eq!(v.get_u64(), Some(value));
    }
}

#[test]
fn u32_round_trip() {
    let mut v = fresh();
    v.set_u32(0xCAFE_F00D);
    assert_eq!(v.vt, VT_UI4);
    assert_eq!(v.get_u32(), Some(0xCAFE_F00D));
    assert_eq!(v.get_u64(), Some(0xCAFE_F00D));
}

#[test]
fn bool_encoding_is_ffff() {
    let mut v = fresh();
    v.set_bool(true);
    assert_eq!(v.vt, VT_BOOL);
    assert_eq!(v.data, 0xFFFF);
    assert_eq!(v.get_bool(), Some(true));
    v.set_bool(false);
    assert_eq!(v.data, 0);
    assert_eq!(v.get_bool(), Some(false));
}

#[test]
fn mismatched_decode_is_absent() {
    let mut v = fresh();
    v.set_u64(7);
    assert_eq!(v.get_bool(), None);
    assert_eq!(v.get_u32(), None);
    assert_eq!(v.get_bstr(), None);
    v.set_bool(true);
    assert_eq!(v.get_u64(), None);
}

#[test]
fn string_round_trip() {
    let mut v = fresh();
    v.set_bstr("hello.txt");
    assert_eq!(v.vt, VT_BSTR);
    assert_eq!(v.get_bstr(), Some("hello.txt".to_string()));
    assert_eq!(v.allocation_count(), 1);
}

#[test]
fn reencoding_never_accumulates_allocations() {
    let mut v = fresh();
    for _cycle in 0..16 {
        v.set_bstr("payload one");
        assert_eq!(v.allocation_count(), 1);
        v.set_bstr("payload two");
        assert_eq!(v.allocation_count(), 1);
        v.set_u64(42);
        assert_eq!(v.allocation_count(), 0);
        v.set_bstr("payload three");
        assert_eq!(v.allocation_count(), 1);
        v.clear();
        assert_eq!(v.allocation_count(), 0);
    }
}

#[test]
fn set_empty_keeps_the_allocation() {
    let mut v = fresh();
    v.set_bstr("kept");
    v.set_empty();
    assert_eq!(v.vt, VT_EMPTY);
    assert_eq!(v.data, 0);
    assert_eq!(v.allocation_count(), 1);
    match &v.payload {
        Some(BstrPayload::Text(s)) => assert_eq!(s, "kept"),
        _ => panic!("payload should have been kept"),
    }
    v.clear();
    assert_eq!(v.allocation_count(), 0);
}

#[test]
fn guid_and_bytes_payloads() {
    let id: [u8; 16] = [9; 16];
    let mut v = fresh();
    v.set_guid(&id);
    assert_eq!(v.vt, VT_BSTR);
    match &v.payload {
        Some(BstrPayload::Raw(b)) => assert_eq!(b.as_slice(), &id),
        _ => panic!("expected raw payload"),
    }
    v.set_bytes(&[1, 2, 3]);
    match &v.payload {
        Some(BstrPayload::Raw(b)) => assert_eq!(b.as_slice(), &[1, 2, 3]),
        _ => panic!("expected raw payload"),
    }
}

#[test]
fn filetime_of_epoch_is_the_epoch_difference() {
    let epoch = UnixTime { before_epoch: false, secs: 0, nanos: 0 };
    assert_eq!(systemtime_to_filetime(epoch), 116_444_736_000_000_000);
}

#[test]
fn filetime_before_epoch_is_zero() {
    let before = UnixTime { before_epoch: true, secs: 1, nanos: 0 };
    assert_eq!(systemtime_to_filetime(before), 0);
    let way_before = UnixTime { before_epoch: true, secs: 1_000_000, nanos: 500 };
    assert_eq!(systemtime_to_filetime(way_before), 0);
}

#[test]
fn filetime_counts_hundred_nanosecond_ticks() {
    let t = UnixTime { before_epoch: false, secs: 1, nanos: 0 };
    assert_eq!(systemtime_to_filetime(t), 116_444_736_000_000_000 + 10_000_000);
    let t2 = UnixTime { before_epoch: false, secs: 0, nanos: 250 };
    assert_eq!(systemtime_to_filetime(t2), 116_444_736_000_000_000 + 2);
    let t3 = UnixTime { before_epoch: false, secs: 0, nanos: 99 };
    assert_eq!(systemtime_to_filetime(t3), 116_444_736_000_000_000);
}

#[test]
fn filetime_encodes_into_variant() {
    let mut v = fresh();
    v.set_filetime(116_444_736_000_000_000);
    assert_eq!(v.vt, VT_FILETIME);
    assert_eq!(v.data, 116_444_736_000_000_000);
}
