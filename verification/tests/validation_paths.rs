//! Validation decisions, cleanup, destination sanitization, and the
//! error messages.

use jan_core::errors::DownloadError;
use jan_core::orchestrator::{cleanup_after_validation, cleanup_batch, CleanupAction};
use jan_core::paths::{artifact_id, marker_name, sanitize_save_path, tmp_name};
use jan_core::validate::{ValidationAction, ValidationPhase, Validator};

fn strings(v: &[&str]) -> Vec<String> {
    v.iter().map(|s| s.to_string()).collect()
}

#[test]
fn no_expectations_validates_trivially() {
    // With neither an expected size nor an expected digest, validation
    // succeeds at once: no notification, no read of the file's bytes.
    let (v, a) = Validator::new(None, None);
    assert_eq!(a, ValidationAction::Finish);
    assert!(matches!(v.outcome(), Some(Ok(()))));
}

#[test]
fn size_match_then_no_hash_succeeds() {
    let (mut v, a) = Validator::new(Some(1000), None);
    assert_eq!(a, ValidationAction::EmitStarted);
    assert_eq!(v.after_started(), ValidationAction::ReadSize);
    assert_eq!(v.on_size(Ok(1000)), ValidationAction::CheckCancel);
    assert_eq!(v.on_cancel(false), ValidationAction::Finish);
    assert!(matches!(v.outcome(), Some(Ok(()))));
}

#[test]
fn size_mismatch_fails_and_cleans_up() {
    let (mut v, _) = Validator::new(Some(1000), Some("abc".to_string()));
    v.after_started();
    let a = v.on_size(Ok(999));
    assert_eq!(a, ValidationAction::Finish);
    let outcome = v.outcome().unwrap().clone();
    match &outcome {
        Err(DownloadError::SizeMismatch { expected, actual }) => {
            assert_eq!((*expected, *actual), (1000, 999));
        }
        _ => panic!("expected a size mismatch"),
    }
    // the mismatch error names both byte counts
    assert_eq!(
        outcome.unwrap_err().message(),
        "Size verification failed. Expected 1000 bytes but got 999 bytes."
    );
    // a failed validation removes that file and its parent if empty
    let (mut v2, _) = Validator::new(Some(1000), None);
    v2.after_started();
    v2.on_size(Ok(999));
    let cleanup = cleanup_after_validation(v2.outcome().unwrap());
    assert_eq!(
        cleanup,
        CleanupAction {
            remove_file: true,
            remove_parent_if_empty: true
        }
    );
}

#[test]
fn hash_mismatch_fails_without_echoing_digest() {
    let (mut v, _) = Validator::new(None, Some("expected-digest".to_string()));
    v.after_started();
    assert_eq!(v.on_cancel(false), ValidationAction::ComputeDigest);
    let a = v.on_digest(Ok("computed-digest".to_string()));
    assert_eq!(a, ValidationAction::Finish);
    let outcome = v.outcome().unwrap();
    assert!(matches!(outcome, Err(DownloadError::HashMismatch)));
    let msg = outcome.clone().unwrap_err().message();
    assert!(!msg.contains("computed-digest"));
    assert_eq!(
        msg,
        "Hash verification failed. The downloaded file is corrupted or has been tampered with."
    );
    let cleanup = cleanup_after_validation(outcome);
    assert!(cleanup.remove_file && cleanup.remove_parent_if_empty);
}

#[test]
fn hash_match_succeeds() {
    let (mut v, _) = Validator::new(Some(4), Some("abc123".to_string()));
    v.after_started();
    assert_eq!(v.on_size(Ok(4)), ValidationAction::CheckCancel);
    assert_eq!(v.on_cancel(false), ValidationAction::ComputeDigest);
    assert_eq!(v.on_digest(Ok("abc123".to_string())), ValidationAction::Finish);
    assert!(matches!(v.outcome(), Some(Ok(()))));
}

#[test]
fn cancellation_between_size_and_hash() {
    let (mut v, _) = Validator::new(Some(4), Some("abc".to_string()));
    v.after_started();
    v.on_size(Ok(4));
    assert_eq!(v.on_cancel(true), ValidationAction::Finish);
    assert!(matches!(v.outcome(), Some(Err(DownloadError::Cancelled))));
}

#[test]
fn metadata_failure_is_io_error() {
    let (mut v, _) = Validator::new(Some(4), None);
    v.after_started();
    v.on_size(Err("no such file".to_string()));
    match v.outcome() {
        Some(Err(DownloadError::Io { message })) => {
            assert_eq!(message, "Failed to verify file size: no such file");
        }
        _ => panic!("expected an io error"),
    }
}

#[test]
fn digest_failure_is_io_error() {
    let (mut v, _) = Validator::new(None, Some("abc".to_string()));
    v.after_started();
    v.on_cancel(false);
    v.on_digest(Err("read interrupted".to_string()));
    match v.outcome() {
        Some(Err(DownloadError::Io { message })) => {
            assert_eq!(message, "Failed to verify file integrity: read interrupted");
        }
        _ => panic!("expected an io error"),
    }
}

#[test]
fn successful_validation_removes_nothing() {
    let ok: Result<(), DownloadError> = Ok(());
    let cleanup = cleanup_after_validation(&ok);
    assert_eq!(
        cleanup,
        CleanupAction {
            remove_file: false,
            remove_parent_if_empty: false
        }
    );
}

#[test]
fn failing_item_cleanup_spares_siblings() {
    // one item fails validation, its sibling succeeds: only the failing
    // item's own file (and then-empty parent) is marked for removal
    let results: Vec<Result<(), DownloadError>> = vec![
        Err(DownloadError::SizeMismatch { expected: 10, actual: 9 }),
        Ok(()),
    ];
    let cleanups = cleanup_batch(&results);
    assert_eq!(
        cleanups,
        vec![
            CleanupAction { remove_file: true, remove_parent_if_empty: true },
            CleanupAction { remove_file: false, remove_parent_if_empty: false },
        ]
    );
}

#[test]
fn traversal_outside_root_is_rejected() {
    // "../secrets" climbs above the data root: rejected before any
    // network request.
    let r = sanitize_save_path(&strings(&["..", "secrets"]));
    assert!(matches!(r, Err(DownloadError::PathSecurity)));
    // climbing out and back in is rejected too
    let r = sanitize_save_path(&strings(&["models", "..", "..", "x", "y"]));
    assert!(matches!(r, Err(DownloadError::PathSecurity)));
}

#[test]
fn plain_relative_path_is_kept() {
    let r = sanitize_save_path(&strings(&["models", "abc", "model.gguf"])).unwrap();
    assert_eq!(r, strings(&["models", "abc", "model.gguf"]));
}

#[test]
fn dots_and_empty_segments_normalize_away() {
    let r = sanitize_save_path(&strings(&["models", ".", "", "abc", "..", "xyz", "m.bin"])).unwrap();
    assert_eq!(r, strings(&["models", "xyz", "m.bin"]));
}

#[test]
fn sidecar_names_append_after_extension() {
    assert_eq!(tmp_name("model.gguf"), "model.gguf.tmp");
    assert_eq!(marker_name("model.gguf"), "model.gguf.url");
    assert_eq!(tmp_name("weights"), "weights.tmp");
}

#[test]
fn artifact_id_is_parent_directory() {
    assert_eq!(artifact_id(&strings(&["models", "abc", "model.gguf"])), "abc");
    assert_eq!(artifact_id(&strings(&["model.gguf"])), "unknown");
}

#[test]
fn error_messages_render() {
    assert_eq!(
        DownloadError::PathSecurity.message(),
        "Path is outside of the data folder"
    );
    assert_eq!(DownloadError::Cancelled.message(), "Download cancelled");
    assert_eq!(
        DownloadError::Transport {
            status: 503,
            message: "unavailable".to_string()
        }
        .message(),
        "Failed to download: HTTP status 503, unavailable"
    );
    assert_eq!(
        DownloadError::Io {
            message: "disk full".to_string()
        }
        .message(),
        "disk full"
    );
}
