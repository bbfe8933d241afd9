//! The transfer state machine and the progress aggregator.

use jan_core::err_to_string;
use jan_core::errors::DownloadError;
use jan_core::orchestrator::{final_event, DownloadEvent};
use jan_core::progress::ProgressTracker;
use jan_core::transfer::{
    range_header_value, FetchOutcome, TransferAction, TransferMachine, TransferPhase,
};

fn fresh_machine(url: &str) -> TransferMachine {
    let (mut m, a) = TransferMachine::start(url.to_string(), false, false, &None);
    assert_eq!(a, TransferAction::WriteMarker);
    let a = m.after_marker();
    assert_eq!(a, TransferAction::Fetch { offset: 0 });
    m
}

#[test]
fn fresh_transfer_streams_from_zero() {
    let mut m = fresh_machine("https://x/model.bin");
    let a = m.on_fetch(FetchOutcome::Status {
        status: 200,
        body: String::new(),
    });
    assert_eq!(
        a,
        TransferAction::StartStream {
            append: false,
            report: None
        }
    );
    assert!(matches!(
        m.phase,
        TransferPhase::Stream {
            resumed: false,
            transferred: 0,
            delta: 0
        }
    ));
}

#[test]
fn single_item_scenario_reports_full_total() {
    // One item of size 1000, transferred in two chunks of 600 and 400
    // bytes: the final event reports {transferred: 1000, total: 1000},
    // the temporary file is renamed and the marker deleted.
    let sizes = vec![1000u64];
    let mut tracker = ProgressTracker::new(&sizes);
    let mut m = fresh_machine("https://x/model.bin");
    let a = m.on_fetch(FetchOutcome::Status {
        status: 200,
        body: String::new(),
    });
    assert_eq!(
        a,
        TransferAction::StartStream {
            append: false,
            report: None
        }
    );
    // chunks below the 10 MiB threshold do not report mid-stream
    assert_eq!(m.on_chunk(600, false), TransferAction::WriteChunk { report: None });
    assert_eq!(m.on_chunk(400, false), TransferAction::WriteChunk { report: None });
    let a = m.on_stream_end();
    // the finish step renames the temporary file and deletes the marker
    assert_eq!(a, TransferAction::FinishUp { report: 1000 });
    tracker.update(0, 1000);
    let evt = final_event(&tracker);
    assert_eq!(
        evt,
        DownloadEvent {
            transferred: 1000,
            total: 1000
        }
    );
}

#[test]
fn marker_mismatch_never_resumes() {
    // The marker file records a different URL: the partial bytes are
    // never reused; the transfer restarts from offset zero.
    let marker = Some("https://elsewhere/model.bin".to_string());
    let (mut m, _) = TransferMachine::start("https://x/model.bin".to_string(), true, true, &marker);
    let a = m.after_marker();
    assert_eq!(a, TransferAction::Fetch { offset: 0 });
    assert!(matches!(
        m.phase,
        TransferPhase::Request {
            offset: 0,
            resumed: false
        }
    ));
}

#[test]
fn matching_marker_resumes_from_tmp_length() {
    let marker = Some("https://x/model.bin".to_string());
    let (mut m, _) = TransferMachine::start("https://x/model.bin".to_string(), true, true, &marker);
    assert_eq!(m.after_marker(), TransferAction::ReadTmpLength);
    assert_eq!(m.on_tmp_length(Ok(700)), TransferAction::Fetch { offset: 700 });
    let a = m.on_fetch(FetchOutcome::Status {
        status: 206,
        body: String::new(),
    });
    // a resumed stream appends, and reports the resumed bytes up front
    assert_eq!(
        a,
        TransferAction::StartStream {
            append: true,
            report: Some(700)
        }
    );
}

#[test]
fn rejected_resume_falls_back_to_full_fetch() {
    // A non-partial-content answer to a ranged fetch falls back to a
    // fresh full fetch, which then completes correctly.
    let marker = Some("https://x/model.bin".to_string());
    let (mut m, _) = TransferMachine::start("https://x/model.bin".to_string(), true, true, &marker);
    m.after_marker();
    m.on_tmp_length(Ok(700));
    let a = m.on_fetch(FetchOutcome::Status {
        status: 200,
        body: String::new(),
    });
    assert_eq!(a, TransferAction::Fetch { offset: 0 });
    assert!(matches!(
        m.phase,
        TransferPhase::Request {
            offset: 0,
            resumed: false
        }
    ));
    // the fallback fetch behaves exactly like a fresh transfer
    let a = m.on_fetch(FetchOutcome::Status {
        status: 200,
        body: String::new(),
    });
    assert_eq!(
        a,
        TransferAction::StartStream {
            append: false,
            report: None
        }
    );
    assert_eq!(m.on_chunk(1000, false), TransferAction::WriteChunk { report: None });
    assert_eq!(m.on_stream_end(), TransferAction::FinishUp { report: 1000 });
}

#[test]
fn rejected_fresh_fetch_is_fatal() {
    let mut m = fresh_machine("https://x/model.bin");
    let a = m.on_fetch(FetchOutcome::Status {
        status: 503,
        body: "unavailable".to_string(),
    });
    assert_eq!(a, TransferAction::Fail);
    match m.stopped_error() {
        Some(DownloadError::Transport { status, message }) => {
            assert_eq!(*status, 503);
            assert_eq!(message, "unavailable");
        }
        other => panic!("expected a transport error, got {:?}", other.is_some()),
    }
}

#[test]
fn cancel_fresh_removes_parent_dir() {
    let mut m = fresh_machine("https://x/model.bin");
    m.on_fetch(FetchOutcome::Status {
        status: 200,
        body: String::new(),
    });
    m.on_chunk(100, false);
    let a = m.on_chunk(100, true);
    assert_eq!(a, TransferAction::AbortCancelled { remove_parent: true });
    assert!(matches!(m.stopped_error(), Some(DownloadError::Cancelled)));
}

#[test]
fn cancel_resumed_preserves_partial_file() {
    let marker = Some("https://x/model.bin".to_string());
    let (mut m, _) = TransferMachine::start("https://x/model.bin".to_string(), true, true, &marker);
    m.after_marker();
    m.on_tmp_length(Ok(500));
    m.on_fetch(FetchOutcome::Status {
        status: 206,
        body: String::new(),
    });
    let a = m.on_chunk(100, true);
    assert_eq!(a, TransferAction::AbortCancelled { remove_parent: false });
}

#[test]
fn ten_mib_threshold_triggers_report() {
    let mut m = fresh_machine("https://x/model.bin");
    m.on_fetch(FetchOutcome::Status {
        status: 200,
        body: String::new(),
    });
    let five_mib = 5 * 1024 * 1024;
    assert_eq!(m.on_chunk(five_mib, false), TransferAction::WriteChunk { report: None });
    // the second five MiB reaches the threshold: report the running total
    assert_eq!(
        m.on_chunk(five_mib, false),
        TransferAction::WriteChunk {
            report: Some(2 * five_mib)
        }
    );
    // and the delta starts over
    assert_eq!(m.on_chunk(100, false), TransferAction::WriteChunk { report: None });
}

#[test]
fn two_item_aggregate_snapshot() {
    // Items of sizes 500 and 1500: A complete (500/500), B at 300/1500;
    // the aggregate event reports {transferred: 800, total: 2000}.
    let sizes = vec![500u64, 1500u64];
    let mut tracker = ProgressTracker::new(&sizes);
    tracker.update(0, 500);
    tracker.update(1, 300);
    assert_eq!(tracker.total_progress(), (800, 2000));
}

#[test]
fn aggregate_total_never_changes() {
    let sizes = vec![10u64, 20u64];
    let mut tracker = ProgressTracker::new(&sizes);
    assert_eq!(tracker.total_progress(), (0, 30));
    tracker.update(0, 3);
    assert_eq!(tracker.total_progress(), (3, 30));
    tracker.update(0, 10);
    tracker.update(1, 20);
    assert_eq!(tracker.total_progress(), (30, 30));
}

#[test]
fn aggregate_transferred_saturates() {
    let sizes = vec![10u64, 10u64];
    let mut tracker = ProgressTracker::new(&sizes);
    tracker.update(0, u64::MAX);
    tracker.update(1, 5);
    assert_eq!(tracker.total_progress(), (u64::MAX, 20));
}

#[test]
fn range_header_names_offset() {
    assert_eq!(range_header_value(0), "bytes=0-");
    assert_eq!(range_header_value(1048576), "bytes=1048576-");
}

#[test]
fn error_prefix() {
    assert_eq!(err_to_string("boom"), "Error: boom");
}
