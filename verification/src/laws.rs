//! What holds of the coordinator whatever happens to it.
//!
//! Each law is stated over the transition system of [`crate::model`], which
//! the coordinator's operations are proved to follow.

use vstd::prelude::*;
use crate::candidate::{CandidateView, ProgressSample};
use crate::error::ErrorView;
use crate::event::{CheckView, DirectiveView, EventView, InstallView, StepView};
use crate::model::{lemma_react_preserves_wf, CoordinatorView};
use crate::notification::NotificationView;
use crate::scheduler::{schedule, SchedulerEventView, SchedulerStage};
use crate::state::{Activity, ContextView, StateView};

verus! {

/// A whole check that the release source answers with "nothing newer".
pub open spec fn check_finding_nothing(coordinator: CoordinatorView) -> CoordinatorView {
    coordinator.on_check_requested().next.on_query_answered(None).next
}

/// The coordinator after `count` whole checks in a row, each answered with
/// "nothing newer".
pub open spec fn checks_finding_nothing(coordinator: CoordinatorView, count: nat) -> CoordinatorView
    decreases count,
{
    if count == 0 {
        coordinator
    } else {
        check_finding_nothing(checks_finding_nothing(coordinator, (count - 1) as nat))
    }
}

/// A coordinator is busy exactly when its state is `Checking` or
/// `Downloading`.
pub proof fn law_busy_is_in_flight(coordinator: CoordinatorView)
    requires
        coordinator.wf(),
    ensures
        coordinator.busy() == coordinator.state.in_flight(),
{
}

/// However many checks find nothing newer, a fresh coordinator is idle again
/// after each of them, and the next such check asks the release source once,
/// hands "no update" to its caller once, and publishes nothing.
pub proof fn law_checks_finding_nothing_stay_idle(running_version: Seq<char>, count: nat)
    ensures
        ({
            let before = checks_finding_nothing(CoordinatorView::initial(running_version), count);
            let requested = before.on_check_requested();
            let answered = requested.next.on_query_answered(None);
            &&& before == CoordinatorView::initial(running_version)
            &&& before.state is Idle
            &&& requested.next.state is Checking
            &&& requested.step == (StepView {
                notifications: Seq::empty(),
                directive: DirectiveView::Query(running_version),
            })
            &&& answered.next.state is Idle
            &&& answered.step == (StepView {
                notifications: Seq::empty(),
                directive: DirectiveView::CheckFinished(Ok(CheckView::NoUpdate)),
            })
        }),
    decreases count,
{
    if count > 0 {
        law_checks_finding_nothing_stay_idle(running_version, (count - 1) as nat);
    }
}

/// A check that may start and is answered with a newer release ends in
/// `UpdateAvailable` with that release, hands its version and notes to the
/// caller, and publishes one `update-available` notification with them, and
/// that is all it publishes. The answer counts once: handed in again, it is
/// ignored.
pub proof fn law_found_release_becomes_available(
    coordinator: CoordinatorView,
    release: CandidateView,
)
    requires
        coordinator.wf(),
        !coordinator.busy(),
        !(coordinator.state is Installed),
    ensures
        ({
            let requested = coordinator.on_check_requested();
            let answered = requested.next.on_query_answered(Some(release));
            let again = answered.next.on_query_answered(Some(release));
            &&& requested.step.notifications.len() == 0
            &&& requested.step.directive == DirectiveView::Query(coordinator.running_version)
            &&& answered.next.state == StateView::UpdateAvailable(release)
            &&& !answered.next.busy()
            &&& answered.step.notifications == seq![
                NotificationView::UpdateAvailable {
                    message: release.release_notes,
                    version: release.version,
                },
            ]
            &&& answered.step.directive == DirectiveView::CheckFinished(
                Ok(
                    CheckView::UpdateAvailable {
                        version: release.version,
                        notes: release.release_notes,
                    },
                ),
            )
            &&& again.next == answered.next
            &&& again.step.notifications.len() == 0
            &&& again.step.directive is Ignored
        }),
{
}

/// An install that is requested while no candidate is known (the coordinator
/// is idle or has failed, and the caller supplies none) asks the release
/// source first. If the answer is "nothing newer", the install ends with "no
/// update" at `Idle`: it never enters `Downloading`, starts no transfer and
/// publishes nothing.
pub proof fn law_install_without_candidate_checks_first(coordinator: CoordinatorView)
    requires
        coordinator.wf(),
        coordinator.state is Idle || coordinator.state is Failed,
    ensures
        ({
            let requested = coordinator.on_install_requested(None);
            let answered = requested.next.on_query_answered(None);
            &&& requested.next.state is Checking
            &&& requested.step == (StepView {
                notifications: Seq::empty(),
                directive: DirectiveView::Query(coordinator.running_version),
            })
            &&& answered.next.state is Idle
            &&& !answered.next.busy()
            &&& answered.step == (StepView {
                notifications: Seq::empty(),
                directive: DirectiveView::InstallFinished(Ok(InstallView::NoUpdate)),
            })
        }),
{
}

/// A transfer that fails ends in `Failed` with a download error, the
/// candidate and the progress reached, publishes one `update-failed`
/// notification with the cause and hands the error to the caller. The
/// coordinator is then at rest, and the next install does not resume: it
/// starts the supplied candidate at zero progress, or asks the release source
/// and starts what it answers at zero progress.
pub proof fn law_failed_download_starts_over(
    coordinator: CoordinatorView,
    cause: Seq<char>,
    next_release: CandidateView,
)
    requires
        coordinator.wf(),
        coordinator.activity == Activity::Transfer,
    ensures
        ({
            let failed = coordinator.on_operation_failed(cause);
            let supplied = failed.next.on_install_requested(Some(next_release));
            let requested = failed.next.on_install_requested(None);
            let answered = requested.next.on_query_answered(Some(next_release));
            let restart = StateView::Downloading(next_release, ProgressSample::spec_zero());
            &&& coordinator.state matches StateView::Downloading(candidate, progress)
            &&& failed.next.state == StateView::Failed(
                ErrorView::Download(cause),
                ContextView::Downloading(candidate, progress),
            )
            &&& !failed.next.busy()
            &&& failed.step.notifications == seq![NotificationView::Failed { reason: cause }]
            &&& failed.step.directive == DirectiveView::InstallFinished(
                Err(ErrorView::Download(cause)),
            )
            &&& supplied.next.state == restart
            &&& supplied.step.directive == DirectiveView::Fetch(next_release.artifact_locator)
            &&& requested.step.directive == DirectiveView::Query(coordinator.running_version)
            &&& answered.next.state == restart
            &&& answered.step.directive == DirectiveView::Fetch(next_release.artifact_locator)
        }),
{
}

/// Whenever an event takes the coordinator into `Downloading` from another
/// state, the download stands at zero bytes with no length announced, one
/// `update-download-started` notification is published, and the host is
/// directed to fetch the candidate's artifact.
pub proof fn law_download_begins_at_zero(coordinator: CoordinatorView, event: EventView)
    requires
        coordinator.wf(),
        !(coordinator.state is Downloading),
        coordinator.react(event).next.state is Downloading,
    ensures
        ({
            let reaction = coordinator.react(event);
            &&& reaction.next.state matches StateView::Downloading(candidate, progress)
            &&& progress == ProgressSample::spec_zero()
            &&& reaction.next.activity == Activity::Transfer
            &&& reaction.step.notifications == seq![NotificationView::DownloadStarted]
            &&& reaction.step.directive == DirectiveView::Fetch(candidate.artifact_locator)
        }),
{
}

/// While a check or an install is in flight, a request for an install is
/// turned away with the busy error, with or without a candidate: the
/// coordinator and the operation in flight stay as they are, nothing is
/// published, and no query and no transfer is started. The same holds of a
/// request for a check.
pub proof fn law_requests_in_flight_are_turned_away(
    coordinator: CoordinatorView,
    supplied: Option<CandidateView>,
)
    requires
        coordinator.wf(),
        coordinator.state.in_flight(),
    ensures
        coordinator.on_install_requested(supplied).next == coordinator,
        coordinator.on_install_requested(supplied).step == (StepView {
            notifications: Seq::empty(),
            directive: DirectiveView::InstallFinished(Err(ErrorView::Busy)),
        }),
        coordinator.on_check_requested().next == coordinator,
        coordinator.on_check_requested().step == (StepView {
            notifications: Seq::empty(),
            directive: DirectiveView::CheckFinished(Err(ErrorView::Busy)),
        }),
{
}

/// The host is directed to ask the release source or to fetch an artifact
/// only when nothing is in flight, or when the install in flight got its
/// answer from the release source. So no two queries and no two transfers
/// ever run against one coordinator at the same time.
pub proof fn law_outside_work_is_never_doubled(coordinator: CoordinatorView, event: EventView)
    requires
        coordinator.wf(),
    ensures
        coordinator.react(event).step.directive.starts_query() ==> !coordinator.busy(),
        coordinator.react(event).step.directive.starts_transfer() ==> !coordinator.busy() || (
        coordinator.activity == Activity::InstallQuery && event is QueryAnswered),
        coordinator.react(event).step.directive.starts_transfer() ==> !(coordinator.state
            is Downloading),
{
}

/// Only a whole artifact is installed: the host is directed to install only
/// as the transfer ends, and the coordinator reaches `Installed` only when
/// the host reports that installation done.
pub proof fn law_only_whole_artifacts_are_installed(coordinator: CoordinatorView, event: EventView)
    requires
        coordinator.wf(),
    ensures
        coordinator.react(event).step.directive is Apply ==> coordinator.activity
            == Activity::Transfer && event is TransferCompleted,
        coordinator.react(event).next.state is Installed && !(coordinator.state is Installed)
            ==> coordinator.activity == Activity::Apply && event is Applied,
{
}

/// Cancelling an install that still asks or transfers ends it with
/// `Cancelled`, publishes nothing, and leaves the coordinator as it was
/// before any install: idle, at rest, and reacting to every event as a fresh
/// coordinator would.
pub proof fn law_cancelled_install_leaves_no_trace(coordinator: CoordinatorView, event: EventView)
    requires
        coordinator.wf(),
        coordinator.activity == Activity::InstallQuery || coordinator.activity
            == Activity::Transfer,
    ensures
        ({
            let cancelled = coordinator.on_cancel_requested();
            let fresh = CoordinatorView::initial(coordinator.running_version);
            &&& cancelled.next == fresh
            &&& cancelled.next.state is Idle
            &&& cancelled.step == (StepView {
                notifications: Seq::empty(),
                directive: DirectiveView::InstallFinished(Err(ErrorView::Cancelled)),
            })
            &&& cancelled.next.react(event) == fresh.react(event)
            &&& cancelled.next.react(EventView::CheckRequested).step.directive
                == DirectiveView::Query(coordinator.running_version)
        }),
{
}

/// From the moment a download starts, its candidate stays: whatever event
/// arrives, a coordinator in `Downloading` that is still in `Downloading`
/// afterwards, or has reached `Installed`, holds the same candidate; and if
/// it has failed, the failure's context holds it.
pub proof fn law_candidate_stays_through_install(coordinator: CoordinatorView, event: EventView)
    requires
        coordinator.wf(),
        coordinator.state is Downloading,
    ensures
        ({
            let after = coordinator.react(event).next.state;
            &&& after is Downloading || after is Installed ==> after.candidate()
                == coordinator.state.candidate()
            &&& after matches StateView::Failed(_, context) ==> (context matches ContextView::Downloading(
                candidate,
                _,
            ) && Some(candidate) == coordinator.state.candidate())
            &&& after is Downloading || after is Installed || after is Failed || after is Idle
        }),
{
}

/// Nothing leaves `Installed`: every event leaves the coordinator as it is
/// and publishes nothing, and no query and no transfer is started.
pub proof fn law_installed_is_final(coordinator: CoordinatorView, event: EventView)
    requires
        coordinator.wf(),
        coordinator.state is Installed,
    ensures
        coordinator.react(event).next == coordinator,
        coordinator.react(event).step.notifications.len() == 0,
        !coordinator.react(event).step.directive.starts_query(),
        !coordinator.react(event).step.directive.starts_transfer(),
{
}

/// A failure is not sticky: the next check after a failure starts a query,
/// as from `Idle`.
pub proof fn law_failure_is_forgotten_by_next_check(coordinator: CoordinatorView)
    requires
        coordinator.wf(),
        coordinator.state is Failed,
    ensures
        coordinator.on_check_requested() == coordinator.settled(
            StateView::Idle,
        ).on_check_requested(),
        coordinator.on_check_requested().next.state is Checking,
{
}

/// Every event publishes at most one notification, and which one follows
/// from where the install stands: the start of a download only on entering
/// `Downloading`, progress only during the transfer, and `update-installed`
/// or `update-failed` only as the install ends. So the notifications of one
/// install come in the order start, progress, end.
pub proof fn law_notifications_follow_the_lifecycle(coordinator: CoordinatorView, event: EventView)
    requires
        coordinator.wf(),
    ensures
        ({
            let reaction = coordinator.react(event);
            let published = reaction.step.notifications;
            &&& published.len() <= 1
            &&& published.len() == 1 ==> match published[0] {
                NotificationView::UpdateAvailable { .. } => {
                    &&& coordinator.activity == Activity::CheckQuery
                    &&& reaction.next.state is UpdateAvailable
                },
                NotificationView::DownloadStarted => {
                    &&& !(coordinator.state is Downloading)
                    &&& reaction.next.state is Downloading
                },
                NotificationView::DownloadProgress(progress) => {
                    &&& coordinator.activity == Activity::Transfer
                    &&& reaction.next.activity == Activity::Transfer
                    &&& reaction.next.state matches StateView::Downloading(_, reached)
                    &&& reached == progress
                },
                NotificationView::Installed { .. } => {
                    &&& coordinator.activity == Activity::Apply
                    &&& reaction.next.state is Installed
                },
                NotificationView::Failed { .. } => {
                    &&& coordinator.state is Downloading
                    &&& reaction.next.state is Failed
                },
            }
        }),
{
}

/// The coordinator after a run of events, and all that it published on the
/// way, in the order of publication.
pub struct Trace {
    pub coordinator: CoordinatorView,
    pub published: Seq<NotificationView>,
}

/// Hands the events to the coordinator one after the other.
pub open spec fn replay(coordinator: CoordinatorView, events: Seq<EventView>) -> Trace
    decreases events.len(),
{
    if events.len() == 0 {
        Trace { coordinator, published: Seq::empty() }
    } else {
        let before = replay(coordinator, events.drop_last());
        let reaction = before.coordinator.react(events.last());
        Trace {
            coordinator: reaction.next,
            published: before.published + reaction.step.notifications,
        }
    }
}

/// Whether, to an observer who has read `published`, a download is open: one
/// has been announced and neither `update-installed` nor `update-failed` has
/// followed it. `open` says whether one was open before.
pub open spec fn download_open(open: bool, published: Seq<NotificationView>) -> bool
    decreases published.len(),
{
    if published.len() == 0 {
        open
    } else {
        match published.last() {
            NotificationView::DownloadStarted => true,
            NotificationView::Installed { .. } => false,
            NotificationView::Failed { .. } => false,
            _ => download_open(open, published.drop_last()),
        }
    }
}

/// Whether the notifications come in the order of the lifecycle: progress,
/// `update-installed` and `update-failed` are published only while a
/// download is open. As each of the two closes it, an announced download is
/// followed by any number of progress notifications and then by at most one
/// of these two.
pub open spec fn in_order(open: bool, published: Seq<NotificationView>) -> bool
    decreases published.len(),
{
    if published.len() == 0 {
        true
    } else {
        let earlier = published.drop_last();
        &&& in_order(open, earlier)
        &&& match published.last() {
            NotificationView::DownloadProgress(_) => download_open(open, earlier),
            NotificationView::Installed { .. } => download_open(open, earlier),
            NotificationView::Failed { .. } => download_open(open, earlier),
            _ => true,
        }
    }
}

/// Whatever events arrive, in whatever order, the coordinator keeps its
/// invariant and publishes in the order of the lifecycle: the start of a
/// download, then its progress, then its one end. While the coordinator is
/// in `Downloading`, the observers have been told of that download and not
/// of its end. A cancelled install ends without a notification; its end is
/// told to the caller alone.
pub proof fn law_notifications_come_in_order(coordinator: CoordinatorView, events: Seq<EventView>)
    requires
        coordinator.wf(),
    ensures
        ({
            let trace = replay(coordinator, events);
            let open = coordinator.state is Downloading;
            &&& trace.coordinator.wf()
            &&& trace.coordinator.running_version == coordinator.running_version
            &&& in_order(open, trace.published)
            &&& trace.coordinator.state is Downloading ==> download_open(open, trace.published)
        }),
    decreases events.len(),
{
    if events.len() > 0 {
        law_notifications_come_in_order(coordinator, events.drop_last());
        let before = replay(coordinator, events.drop_last());
        let reaction = before.coordinator.react(events.last());
        let all = before.published + reaction.step.notifications;
        lemma_react_preserves_wf(before.coordinator, events.last());
        law_notifications_follow_the_lifecycle(before.coordinator, events.last());
        if reaction.step.notifications.len() == 0 {
            assert(all =~= before.published);
        } else {
            assert(all.drop_last() =~= before.published);
            assert(all.last() == reaction.step.notifications[0]);
        }
    }
}

/// The startup check runs once and stays silent unless it finds a release:
/// once finished, the scheduler ignores every event and leaves the
/// coordinator alone; and at any stage it publishes nothing but the
/// announcement of a found release.
pub proof fn law_startup_check_runs_once(
    stage: SchedulerStage,
    coordinator: CoordinatorView,
    event: SchedulerEventView,
)
    requires
        coordinator.wf(),
    ensures
        ({
            let after = schedule(stage, coordinator, event);
            &&& after.coordinator.wf()
            &&& stage == SchedulerStage::Finished ==> after.stage == SchedulerStage::Finished
                && after.coordinator == coordinator && after.step.notifications.len() == 0
            &&& event is Started && stage != SchedulerStage::Pending ==> after.stage == stage
                && after.coordinator == coordinator
            &&& after.step.notifications.len() <= 1
            &&& after.step.notifications.len() == 1 ==> after.step.notifications[0]
                is UpdateAvailable
        }),
{
}

} // verus!
