use sevenzip_plugin::com::ExtractCbEvent;
use sevenzip_plugin::extract::ExtractIndices;
use sevenzip_plugin::handler::{PluginHandler, PasswordRequesterWrapper};
use sevenzip_plugin::testing::{
    FixedPassword, MemSeekStream, RecordingExtractCallback, StoreFormat,
};
use sevenzip_plugin::types::ArchiveItem;

type Handler = PluginHandler<StoreFormat, MemSeekStream>;

const OK: i32 = 0;
const DATA_ERROR: i32 = 1;

fn three_item_store(failing: Vec<u32>) -> StoreFormat {
    let items = vec![
        ArchiveItem::file("a".to_string(), 5),
        ArchiveItem::file("b".to_string(), 7),
        ArchiveItem::file("c".to_string(), 11),
    ];
    let data = vec![vec![1u8; 5], vec![2u8; 7], vec![3u8; 11]];
    StoreFormat::new(items, data, failing)
}

fn no_pw() -> Option<&'static PasswordRequesterWrapper<FixedPassword>> {
    None
}

#[test]
fn all_items_sentinel_reports_total_and_three_results() {
    let mut h: Handler = PluginHandler::new(three_item_store(Vec::new()));
    let mut cb = RecordingExtractCallback::new(true);
    h.extract(&ExtractIndices::All, false, &mut cb, no_pw()).unwrap();
    let log = cb.log();
    assert_eq!(
        log.as_slice(),
        &[
            ExtractCbEvent::Total(23),
            ExtractCbEvent::StreamRequest(0, 0, true),
            ExtractCbEvent::Prepared(0),
            ExtractCbEvent::StreamReleased(Some(5)),
            ExtractCbEvent::ResultSig(OK),
            ExtractCbEvent::Completed(5),
            ExtractCbEvent::StreamRequest(1, 0, true),
            ExtractCbEvent::Prepared(0),
            ExtractCbEvent::StreamReleased(Some(7)),
            ExtractCbEvent::ResultSig(OK),
            ExtractCbEvent::Completed(12),
            ExtractCbEvent::StreamRequest(2, 0, true),
            ExtractCbEvent::Prepared(0),
            ExtractCbEvent::StreamReleased(Some(11)),
            ExtractCbEvent::ResultSig(OK),
            ExtractCbEvent::Completed(23),
        ]
    );
    // exactly three per-item result signals, cumulative completion == total
    let results: Vec<_> = log
        .iter()
        .filter(|e| matches!(e, ExtractCbEvent::ResultSig(_)))
        .collect();
    assert_eq!(results.len(), 3);
}

#[test]
fn middle_item_failure_does_not_stop_the_batch() {
    let mut h: Handler = PluginHandler::new(three_item_store(vec![1]));
    let mut cb = RecordingExtractCallback::new(true);
    // the overall call still succeeds
    h.extract(&ExtractIndices::All, false, &mut cb, no_pw()).unwrap();
    let results: Vec<i32> = cb
        .log()
        .iter()
        .filter_map(|e| match e {
            ExtractCbEvent::ResultSig(r) => Some(*r),
            _ => None,
        })
        .collect();
    assert_eq!(results, vec![OK, DATA_ERROR, OK]);
    // the failed item's stream received nothing; the others got their bytes
    let released: Vec<_> = cb
        .log()
        .iter()
        .filter_map(|e| match e {
            ExtractCbEvent::StreamReleased(r) => Some(*r),
            _ => None,
        })
        .collect();
    assert_eq!(released, vec![Some(5), Some(0), Some(11)]);
    // progress still runs to the full total
    assert_eq!(cb.log().last(), Some(&ExtractCbEvent::Completed(23)));
}

#[test]
fn listed_indices_skip_missing_items() {
    let mut h: Handler = PluginHandler::new(three_item_store(Vec::new()));
    let mut cb = RecordingExtractCallback::new(true);
    h.extract(&ExtractIndices::Listed(vec![0, 5, 2]), false, &mut cb, no_pw()).unwrap();
    let log = cb.log();
    assert_eq!(log[0], ExtractCbEvent::Total(16));
    let results: Vec<_> = log
        .iter()
        .filter(|e| matches!(e, ExtractCbEvent::ResultSig(_)))
        .collect();
    assert_eq!(results.len(), 2);
    assert_eq!(log.last(), Some(&ExtractCbEvent::Completed(16)));
}

#[test]
fn test_mode_signals_success_without_extracting() {
    // item 1 is marked bad, but test mode never runs the extraction
    let mut h: Handler = PluginHandler::new(three_item_store(vec![1]));
    let mut cb = RecordingExtractCallback::new(true);
    h.extract(&ExtractIndices::All, true, &mut cb, no_pw()).unwrap();
    let results: Vec<i32> = cb
        .log()
        .iter()
        .filter_map(|e| match e {
            ExtractCbEvent::ResultSig(r) => Some(*r),
            _ => None,
        })
        .collect();
    assert_eq!(results, vec![OK, OK, OK]);
}

#[test]
fn absent_streams_count_as_trivially_successful() {
    let mut h: Handler = PluginHandler::new(three_item_store(vec![0, 1, 2]));
    let mut cb = RecordingExtractCallback::new(false);
    h.extract(&ExtractIndices::All, false, &mut cb, no_pw()).unwrap();
    let results: Vec<i32> = cb
        .log()
        .iter()
        .filter_map(|e| match e {
            ExtractCbEvent::ResultSig(r) => Some(*r),
            _ => None,
        })
        .collect();
    assert_eq!(results, vec![OK, OK, OK]);
}

#[test]
fn empty_batch_reports_zero_total() {
    let mut h: Handler = PluginHandler::new(three_item_store(Vec::new()));
    let mut cb = RecordingExtractCallback::new(true);
    h.extract(&ExtractIndices::Listed(Vec::new()), false, &mut cb, no_pw()).unwrap();
    assert_eq!(cb.log().as_slice(), &[ExtractCbEvent::Total(0)]);
}
