use update_coordinator::{Notification, ProgressSample, UpdateCandidate, UpdateError};

#[test]
fn candidate_keeps_its_parts() {
    let candidate = UpdateCandidate::new(
        "1.2.0".to_string(),
        "bugfixes".to_string(),
        "artifact://1.2.0".to_string(),
    );
    assert_eq!(candidate.version(), "1.2.0");
    assert_eq!(candidate.release_notes(), "bugfixes");
    assert_eq!(candidate.artifact_locator(), "artifact://1.2.0");
    let copy = candidate.clone();
    assert_eq!(copy, candidate);
}

#[test]
fn progress_starts_at_zero_with_unknown_total() {
    assert_eq!(
        ProgressSample::zero(),
        ProgressSample { bytes_transferred: 0, total_bytes: None }
    );
}

#[test]
fn progress_adds_chunks_and_takes_the_announced_total() {
    let sample = ProgressSample::zero().advance(512, Some(4096));
    assert_eq!(sample, ProgressSample { bytes_transferred: 512, total_bytes: Some(4096) });
    let sample = sample.advance(1024, Some(4096));
    assert_eq!(sample, ProgressSample { bytes_transferred: 1536, total_bytes: Some(4096) });
    let sample = sample.advance(1, None);
    assert_eq!(sample, ProgressSample { bytes_transferred: 1537, total_bytes: None });
}

#[test]
fn progress_saturates() {
    let sample = ProgressSample { bytes_transferred: u64::MAX - 1, total_bytes: None };
    assert_eq!(sample.advance(1, None).bytes_transferred, u64::MAX);
    assert_eq!(sample.advance(2, None).bytes_transferred, u64::MAX);
    assert_eq!(sample.advance(u64::MAX, None).bytes_transferred, u64::MAX);
}

#[test]
fn error_messages() {
    assert_eq!(UpdateError::Query("q".to_string()).message(), "q");
    assert_eq!(UpdateError::Download("d".to_string()).message(), "d");
    assert_eq!(UpdateError::Apply("a".to_string()).message(), "a");
    assert_eq!(UpdateError::Busy.message(), "An update operation is already in progress");
    assert_eq!(UpdateError::Cancelled.message(), "The update was cancelled");
}

#[test]
fn error_copies_are_equal() {
    for error in vec![
        UpdateError::Query("q".to_string()),
        UpdateError::Download("d".to_string()),
        UpdateError::Apply("a".to_string()),
        UpdateError::Busy,
        UpdateError::Cancelled,
    ] {
        assert_eq!(error.clone(), error);
    }
}

#[test]
fn notification_names() {
    assert_eq!(
        Notification::UpdateAvailable { message: String::new(), version: String::new() }.name(),
        "update-available"
    );
    assert_eq!(Notification::DownloadStarted.name(), "update-download-started");
    assert_eq!(
        Notification::DownloadProgress(ProgressSample::zero()).name(),
        "update-download-progress"
    );
    assert_eq!(Notification::Installed { version: String::new() }.name(), "update-installed");
    assert_eq!(Notification::Failed { reason: String::new() }.name(), "update-failed");
}
