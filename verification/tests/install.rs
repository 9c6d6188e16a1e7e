use update_coordinator::{
    Activity, CheckResult, CoordinatorState, Directive, Event, FailureContext, InstallResult,
    Notification, ProgressSample, Step, UpdateCandidate, UpdateCoordinator, UpdateError,
};

fn candidate(version: &str) -> UpdateCandidate {
    UpdateCandidate::new(
        version.to_string(),
        "notes".to_string(),
        format!("artifact-{}", version),
    )
}

fn silent(directive: Directive) -> Step {
    Step { notifications: vec![], directive }
}

fn progress(bytes_transferred: u64, total_bytes: Option<u64>) -> ProgressSample {
    ProgressSample { bytes_transferred, total_bytes }
}

fn downloading(version: &str) -> UpdateCoordinator {
    let mut coordinator = UpdateCoordinator::new("1.0.0".to_string());
    coordinator.request_check();
    coordinator.query_answered(Some(candidate(version)));
    coordinator.request_install(None);
    coordinator
}

#[test]
fn install_of_known_candidate_starts_download_at_zero() {
    let mut coordinator = UpdateCoordinator::new("1.0.0".to_string());
    coordinator.request_check();
    coordinator.query_answered(Some(candidate("1.2.0")));
    let started = coordinator.request_install(None);
    assert_eq!(
        started,
        Step {
            notifications: vec![Notification::DownloadStarted],
            directive: Directive::Fetch("artifact-1.2.0".to_string()),
        }
    );
    assert_eq!(
        coordinator.state(),
        &CoordinatorState::Downloading(candidate("1.2.0"), progress(0, None))
    );
    assert_eq!(coordinator.activity(), Activity::Transfer);
}

#[test]
fn install_without_candidate_checks_first_and_finds_nothing() {
    let mut coordinator = UpdateCoordinator::new("1.0.0".to_string());
    let requested = coordinator.request_install(None);
    assert_eq!(requested, silent(Directive::Query("1.0.0".to_string())));
    assert_eq!(coordinator.state(), &CoordinatorState::Checking);
    assert_eq!(coordinator.activity(), Activity::InstallQuery);
    let answered = coordinator.query_answered(None);
    assert_eq!(answered, silent(Directive::InstallFinished(Ok(InstallResult::NoUpdate))));
    assert_eq!(coordinator.state(), &CoordinatorState::Idle);
    assert!(!coordinator.is_busy());
}

#[test]
fn install_without_candidate_downloads_what_the_check_finds() {
    let mut coordinator = UpdateCoordinator::new("1.0.0".to_string());
    coordinator.request_install(None);
    let answered = coordinator.query_answered(Some(candidate("1.5.0")));
    assert_eq!(
        answered,
        Step {
            notifications: vec![Notification::DownloadStarted],
            directive: Directive::Fetch("artifact-1.5.0".to_string()),
        }
    );
    assert_eq!(
        coordinator.state(),
        &CoordinatorState::Downloading(candidate("1.5.0"), progress(0, None))
    );
}

#[test]
fn install_with_supplied_candidate_skips_the_check() {
    let mut coordinator = UpdateCoordinator::new("1.0.0".to_string());
    let started = coordinator.handle(Event::InstallRequested(Some(candidate("4.0.0"))));
    assert_eq!(
        started,
        Step {
            notifications: vec![Notification::DownloadStarted],
            directive: Directive::Fetch("artifact-4.0.0".to_string()),
        }
    );
    assert_eq!(
        coordinator.state(),
        &CoordinatorState::Downloading(candidate("4.0.0"), progress(0, None))
    );
}

#[test]
fn supplied_candidate_goes_before_the_known_one() {
    let mut coordinator = UpdateCoordinator::new("1.0.0".to_string());
    coordinator.request_check();
    coordinator.query_answered(Some(candidate("1.1.0")));
    let started = coordinator.request_install(Some(candidate("1.3.0")));
    assert_eq!(started.directive, Directive::Fetch("artifact-1.3.0".to_string()));
    assert_eq!(
        coordinator.state(),
        &CoordinatorState::Downloading(candidate("1.3.0"), progress(0, None))
    );
}

#[test]
fn whole_install_publishes_start_progress_and_end_in_order() {
    let mut coordinator = downloading("1.2.0");
    let mut published: Vec<Notification> = vec![Notification::DownloadStarted];

    let first = coordinator.chunk_received(400, Some(1000));
    assert_eq!(first.directive, Directive::Continue);
    published.extend(first.notifications);
    let second = coordinator.chunk_received(600, Some(1000));
    assert_eq!(second.directive, Directive::Continue);
    published.extend(second.notifications);
    assert_eq!(
        coordinator.state(),
        &CoordinatorState::Downloading(candidate("1.2.0"), progress(1000, Some(1000)))
    );

    let completed = coordinator.transfer_completed();
    assert_eq!(completed, silent(Directive::Apply));
    assert_eq!(coordinator.activity(), Activity::Apply);
    assert_eq!(
        coordinator.state(),
        &CoordinatorState::Downloading(candidate("1.2.0"), progress(1000, Some(1000)))
    );

    let applied = coordinator.applied();
    assert_eq!(
        applied.directive,
        Directive::InstallFinished(Ok(InstallResult::Installed { version: "1.2.0".to_string() }))
    );
    published.extend(applied.notifications);
    assert_eq!(coordinator.state(), &CoordinatorState::Installed(candidate("1.2.0")));
    assert!(!coordinator.is_busy());

    assert_eq!(
        published,
        vec![
            Notification::DownloadStarted,
            Notification::DownloadProgress(progress(400, Some(1000))),
            Notification::DownloadProgress(progress(1000, Some(1000))),
            Notification::Installed { version: "1.2.0".to_string() },
        ]
    );
}

#[test]
fn progress_with_unknown_total() {
    let mut coordinator = downloading("1.2.0");
    let step = coordinator.chunk_received(123, None);
    assert_eq!(
        step.notifications,
        vec![Notification::DownloadProgress(progress(123, None))]
    );
    let step = coordinator.chunk_received(0, None);
    assert_eq!(
        step.notifications,
        vec![Notification::DownloadProgress(progress(123, None))]
    );
}

#[test]
fn progress_count_stops_at_the_largest_value() {
    let mut coordinator = downloading("1.2.0");
    coordinator.chunk_received(u64::MAX - 5, None);
    let step = coordinator.chunk_received(10, None);
    assert_eq!(
        step.notifications,
        vec![Notification::DownloadProgress(progress(u64::MAX, None))]
    );
    assert_eq!(
        coordinator.state(),
        &CoordinatorState::Downloading(candidate("1.2.0"), progress(u64::MAX, None))
    );
}

#[test]
fn download_failing_partway_fails_once_and_restarts_from_zero() {
    let mut coordinator = downloading("1.2.0");
    coordinator.chunk_received(300, Some(1000));
    let failed = coordinator.operation_failed("stream reset at byte 300".to_string());
    assert_eq!(
        failed,
        Step {
            notifications: vec![Notification::Failed {
                reason: "stream reset at byte 300".to_string(),
            }],
            directive: Directive::InstallFinished(Err(UpdateError::Download(
                "stream reset at byte 300".to_string()
            ))),
        }
    );
    assert_eq!(
        coordinator.state(),
        &CoordinatorState::Failed(
            UpdateError::Download("stream reset at byte 300".to_string()),
            FailureContext::Downloading(candidate("1.2.0"), progress(300, Some(1000))),
        )
    );
    assert!(!coordinator.is_busy());

    let retried = coordinator.request_install(None);
    assert_eq!(retried, silent(Directive::Query("1.0.0".to_string())));
    let answered = coordinator.query_answered(Some(candidate("1.2.0")));
    assert_eq!(
        answered,
        Step {
            notifications: vec![Notification::DownloadStarted],
            directive: Directive::Fetch("artifact-1.2.0".to_string()),
        }
    );
    assert_eq!(
        coordinator.state(),
        &CoordinatorState::Downloading(candidate("1.2.0"), progress(0, None))
    );
    let step = coordinator.chunk_received(100, Some(1000));
    assert_eq!(
        step.notifications,
        vec![Notification::DownloadProgress(progress(100, Some(1000)))]
    );
}

#[test]
fn failure_after_the_transfer_is_an_apply_error() {
    let mut coordinator = downloading("1.2.0");
    coordinator.chunk_received(1000, Some(1000));
    coordinator.transfer_completed();
    let failed = coordinator.operation_failed("signature mismatch".to_string());
    assert_eq!(
        failed,
        Step {
            notifications: vec![Notification::Failed { reason: "signature mismatch".to_string() }],
            directive: Directive::InstallFinished(Err(UpdateError::Apply(
                "signature mismatch".to_string()
            ))),
        }
    );
    assert_eq!(
        coordinator.state(),
        &CoordinatorState::Failed(
            UpdateError::Apply("signature mismatch".to_string()),
            FailureContext::Downloading(candidate("1.2.0"), progress(1000, Some(1000))),
        )
    );
}

#[test]
fn failed_query_of_an_install_is_a_query_error() {
    let mut coordinator = UpdateCoordinator::new("1.0.0".to_string());
    coordinator.request_install(None);
    let failed = coordinator.operation_failed("dns failure".to_string());
    assert_eq!(
        failed,
        silent(Directive::InstallFinished(Err(UpdateError::Query("dns failure".to_string()))))
    );
    assert_eq!(
        coordinator.state(),
        &CoordinatorState::Failed(
            UpdateError::Query("dns failure".to_string()),
            FailureContext::Checking
        )
    );
}

#[test]
fn second_install_while_downloading_is_busy() {
    let mut coordinator = downloading("1.2.0");
    coordinator.chunk_received(10, Some(20));
    let second = coordinator.request_install(None);
    assert_eq!(second, silent(Directive::InstallFinished(Err(UpdateError::Busy))));
    let third = coordinator.request_install(Some(candidate("7.0.0")));
    assert_eq!(third, silent(Directive::InstallFinished(Err(UpdateError::Busy))));
    assert_eq!(
        coordinator.state(),
        &CoordinatorState::Downloading(candidate("1.2.0"), progress(10, Some(20)))
    );
    assert_eq!(coordinator.activity(), Activity::Transfer);

    let step = coordinator.chunk_received(10, Some(20));
    assert_eq!(
        step.notifications,
        vec![Notification::DownloadProgress(progress(20, Some(20)))]
    );
}

#[test]
fn requests_while_the_other_operation_is_in_flight_are_busy() {
    let mut coordinator = UpdateCoordinator::new("1.0.0".to_string());
    coordinator.request_check();
    assert_eq!(
        coordinator.request_install(None),
        silent(Directive::InstallFinished(Err(UpdateError::Busy)))
    );
    assert_eq!(coordinator.activity(), Activity::CheckQuery);

    let mut coordinator = downloading("1.2.0");
    assert_eq!(
        coordinator.request_check(),
        silent(Directive::CheckFinished(Err(UpdateError::Busy)))
    );
    coordinator.transfer_completed();
    assert_eq!(
        coordinator.request_check(),
        silent(Directive::CheckFinished(Err(UpdateError::Busy)))
    );
    assert_eq!(
        coordinator.request_install(None),
        silent(Directive::InstallFinished(Err(UpdateError::Busy)))
    );
    assert_eq!(coordinator.activity(), Activity::Apply);
}

#[test]
fn cancelled_install_goes_to_idle_and_leaves_no_trace() {
    let mut coordinator = downloading("1.2.0");
    coordinator.chunk_received(700, Some(1000));
    let cancelled = coordinator.cancel();
    assert_eq!(
        cancelled,
        silent(Directive::InstallFinished(Err(UpdateError::Cancelled)))
    );
    assert_eq!(coordinator.state(), &CoordinatorState::Idle);
    assert!(!coordinator.is_busy());

    let mut fresh = UpdateCoordinator::new("1.0.0".to_string());
    assert_eq!(coordinator.request_check(), fresh.request_check());
    assert_eq!(
        coordinator.query_answered(Some(candidate("1.2.0"))),
        fresh.query_answered(Some(candidate("1.2.0")))
    );
    assert_eq!(coordinator.state(), fresh.state());
    assert_eq!(
        coordinator.state(),
        &CoordinatorState::UpdateAvailable(candidate("1.2.0"))
    );
}

#[test]
fn install_can_be_cancelled_while_it_asks() {
    let mut coordinator = UpdateCoordinator::new("1.0.0".to_string());
    coordinator.request_install(None);
    let cancelled = coordinator.handle(Event::CancelRequested);
    assert_eq!(
        cancelled,
        silent(Directive::InstallFinished(Err(UpdateError::Cancelled)))
    );
    assert_eq!(coordinator.state(), &CoordinatorState::Idle);
    assert_eq!(coordinator.query_answered(None), silent(Directive::Ignored));
}

#[test]
fn cancel_comes_too_late_once_the_artifact_is_applied() {
    let mut coordinator = downloading("1.2.0");
    coordinator.transfer_completed();
    assert_eq!(coordinator.cancel(), silent(Directive::Ignored));
    assert_eq!(coordinator.activity(), Activity::Apply);
    let applied = coordinator.applied();
    assert_eq!(
        applied.notifications,
        vec![Notification::Installed { version: "1.2.0".to_string() }]
    );
}

#[test]
fn chunks_after_the_transfer_are_ignored() {
    let mut coordinator = downloading("1.2.0");
    coordinator.chunk_received(50, Some(50));
    coordinator.transfer_completed();
    assert_eq!(coordinator.chunk_received(1, Some(50)), silent(Directive::Ignored));
    assert_eq!(coordinator.transfer_completed(), silent(Directive::Ignored));
    assert_eq!(
        coordinator.state(),
        &CoordinatorState::Downloading(candidate("1.2.0"), progress(50, Some(50)))
    );
}

#[test]
fn applied_before_the_transfer_ended_is_ignored() {
    let mut coordinator = downloading("1.2.0");
    assert_eq!(coordinator.applied(), silent(Directive::Ignored));
    assert_eq!(coordinator.activity(), Activity::Transfer);
}

#[test]
fn installed_is_final() {
    let mut coordinator = downloading("1.2.0");
    coordinator.transfer_completed();
    coordinator.applied();
    let installed = CoordinatorState::Installed(candidate("1.2.0"));
    assert_eq!(coordinator.state(), &installed);

    assert_eq!(
        coordinator.request_check(),
        silent(Directive::CheckFinished(Ok(CheckResult::NoUpdate)))
    );
    assert_eq!(coordinator.state(), &installed);
    assert_eq!(
        coordinator.request_install(None),
        silent(Directive::InstallFinished(Ok(InstallResult::NoUpdate)))
    );
    assert_eq!(
        coordinator.request_install(Some(candidate("2.0.0"))),
        silent(Directive::InstallFinished(Ok(InstallResult::NoUpdate)))
    );
    assert_eq!(coordinator.state(), &installed);
    for event in vec![
        Event::QueryAnswered(Some(candidate("3.0.0"))),
        Event::ChunkReceived { length: 1, total: None },
        Event::TransferCompleted,
        Event::Applied,
        Event::OperationFailed("late".to_string()),
        Event::CancelRequested,
    ] {
        assert_eq!(coordinator.handle(event), silent(Directive::Ignored));
        assert_eq!(coordinator.state(), &installed);
        assert!(!coordinator.is_busy());
    }
}

#[test]
fn candidate_stays_the_same_through_the_install() {
    let mut coordinator = downloading("1.2.0");
    coordinator.query_answered(Some(candidate("6.6.6")));
    coordinator.chunk_received(1, None);
    coordinator.request_install(Some(candidate("6.6.6")));
    coordinator.transfer_completed();
    coordinator.query_answered(Some(candidate("6.6.6")));
    coordinator.applied();
    assert_eq!(coordinator.state(), &CoordinatorState::Installed(candidate("1.2.0")));
}
