use sevenzip_plugin::com::{UpdateCbEvent, UpdateSlot};
use sevenzip_plugin::handler::{PluginHandler, PasswordProviderWrapper};
use sevenzip_plugin::testing::{
    FixedPassword2, MemOutStream, MemSeekStream, RecordingUpdateCallback, StoreFormat,
};
use sevenzip_plugin::types::{ArchiveItem, UpdateItem};
use sevenzip_plugin::update::rescale_progress;

type Handler = PluginHandler<StoreFormat, MemSeekStream>;

const OK: i32 = 0;

fn add_slot(name: &str, size: u64, content: Vec<u8>) -> UpdateSlot {
    UpdateSlot {
        new_data: true,
        new_props: true,
        index_in_archive: None,
        name: name.to_string(),
        size: Some(size),
        is_dir: false,
        content,
    }
}

fn copy_slot(index: u32) -> UpdateSlot {
    UpdateSlot {
        new_data: false,
        new_props: false,
        index_in_archive: Some(index),
        name: String::new(),
        size: None,
        is_dir: false,
        content: Vec::new(),
    }
}

fn no_pw() -> Option<&'static PasswordProviderWrapper<FixedPassword2>> {
    None
}

#[test]
fn add_and_copy_report_combined_total_and_emit_both_descriptors() {
    // existing archive with one 6-byte item; one new 4-byte item
    let existing = vec![ArchiveItem::file("old.txt".to_string(), 6)];
    let mut h: Handler =
        PluginHandler::new(StoreFormat::new(existing, vec![vec![9u8; 6]], Vec::new()));
    let slots = vec![add_slot("new.txt", 4, vec![1, 2, 3, 4]), copy_slot(0)];
    let mut cb = RecordingUpdateCallback::new(slots);

    h.update_items(MemOutStream::new(), 2, &mut cb, no_pw()).unwrap();

    // the combined declared size went out as the initial total
    assert_eq!(cb.log().first(), Some(&UpdateCbEvent::Total(10)));
    // exactly one AddNew and one CopyExisting reached the write phase
    let received = h.inner.received_updates();
    assert_eq!(received.len(), 2);
    match &received[0] {
        UpdateItem::AddNew { name, data } => {
            assert_eq!(name, "new.txt");
            assert_eq!(data.as_slice(), &[1, 2, 3, 4]);
        }
        other => panic!("expected AddNew first, got {:?}", other),
    }
    match &received[1] {
        UpdateItem::CopyExisting { index, new_name } => {
            assert_eq!(*index, 0);
            assert_eq!(*new_name, None);
        }
        other => panic!("expected CopyExisting second, got {:?}", other),
    }
    // both slots were signaled success, progress was rescaled (1 of 2 of a
    // 10-byte total is 5), and completion was pinned to the full total
    assert_eq!(
        cb.log().as_slice(),
        &[
            UpdateCbEvent::Total(10),
            UpdateCbEvent::ResultSig(OK),
            UpdateCbEvent::ResultSig(OK),
            UpdateCbEvent::Completed(5),
            UpdateCbEvent::Completed(10),
        ]
    );
    // the object ends the call closed
    assert!(!h.is_open);
    assert!(h.in_stream.is_none());
}

#[test]
fn object_ends_closed_even_when_the_write_phase_fails() {
    let mut format = StoreFormat::new(Vec::new(), Vec::new(), Vec::new());
    format.set_update_failure(true);
    let mut h: Handler = PluginHandler::new(format);
    let mut cb = RecordingUpdateCallback::new(vec![add_slot("x", 1, vec![7])]);

    let result = h.update_items(MemOutStream::new(), 1, &mut cb, no_pw());
    assert!(result.is_err());
    assert!(!h.is_open);
    assert!(h.in_stream.is_none());
    // collection still ran and handed the descriptor over before the failure
    assert_eq!(h.inner.received_updates().len(), 1);
}

#[test]
fn directories_are_skipped_but_still_signaled() {
    let mut h: Handler = PluginHandler::new(StoreFormat::new(Vec::new(), Vec::new(), Vec::new()));
    let mut dir = add_slot("folder", 0, Vec::new());
    dir.is_dir = true;
    let slots = vec![dir, add_slot("f.txt", 2, vec![5, 6])];
    let mut cb = RecordingUpdateCallback::new(slots);

    h.update_items(MemOutStream::new(), 2, &mut cb, no_pw()).unwrap();

    let received = h.inner.received_updates();
    assert_eq!(received.len(), 1);
    match &received[0] {
        UpdateItem::AddNew { name, .. } => assert_eq!(name, "f.txt"),
        other => panic!("expected only the file, got {:?}", other),
    }
    let signals = cb
        .log()
        .iter()
        .filter(|e| matches!(e, UpdateCbEvent::ResultSig(_)))
        .count();
    assert_eq!(signals, 2);
}

#[test]
fn deletions_emit_nothing_but_are_still_signaled() {
    let mut h: Handler = PluginHandler::new(StoreFormat::new(Vec::new(), Vec::new(), Vec::new()));
    let deletion = UpdateSlot {
        new_data: false,
        new_props: false,
        index_in_archive: None,
        name: String::new(),
        size: None,
        is_dir: false,
        content: Vec::new(),
    };
    let mut cb = RecordingUpdateCallback::new(vec![deletion, add_slot("kept", 3, vec![1, 2, 3])]);

    h.update_items(MemOutStream::new(), 2, &mut cb, no_pw()).unwrap();

    // the deletion appends no descriptor, but still gets its result signal
    assert_eq!(h.inner.received_updates().len(), 1);
    let signals = cb
        .log()
        .iter()
        .filter(|e| matches!(e, UpdateCbEvent::ResultSig(_)))
        .count();
    assert_eq!(signals, 2);
    assert_eq!(cb.log().first(), Some(&UpdateCbEvent::Total(3)));
}

#[test]
fn undeclared_sizes_count_as_zero() {
    let mut h: Handler = PluginHandler::new(StoreFormat::new(Vec::new(), Vec::new(), Vec::new()));
    let mut slot = add_slot("nosize", 0, vec![1]);
    slot.size = None;
    let mut cb = RecordingUpdateCallback::new(vec![slot]);
    h.update_items(MemOutStream::new(), 1, &mut cb, no_pw()).unwrap();
    assert_eq!(cb.log().first(), Some(&UpdateCbEvent::Total(0)));
}

#[test]
fn rescaling_maps_onto_the_declared_total() {
    assert_eq!(rescale_progress(0, 100, 10), 0);
    assert_eq!(rescale_progress(50, 100, 10), 5);
    assert_eq!(rescale_progress(100, 100, 10), 10);
    // over-reporting clamps to the declared total
    assert_eq!(rescale_progress(150, 100, 10), 10);
    // a zero total maps to zero rather than dividing
    assert_eq!(rescale_progress(7, 0, 10), 0);
    assert_eq!(rescale_progress(1, 2, 10), 5);
    // large values do not overflow
    assert_eq!(rescale_progress(u64::MAX, u64::MAX, u64::MAX), u64::MAX);
}
