//! The check that follows the start of the application.
//!
//! Once per process, a few seconds after its start, the application asks the
//! coordinator for a check without anyone having requested it. The scheduler
//! decides the steps of that check; the host sleeps, asks the release source
//! and publishes what it is told to publish.

use vstd::prelude::*;
use crate::candidate::{CandidateView, UpdateCandidate};
use crate::coordinator::UpdateCoordinator;
use crate::event::{candidate_view, Directive, DirectiveView};
use crate::model::CoordinatorView;
use crate::notification::{notification_views, Notification, NotificationView};
use crate::state::Activity;

verus! {

/// How long after the start of the process the check is held back, so that it
/// does not compete with the work of starting up.
pub const STARTUP_GRACE_SECONDS: u64 = 5;

/// How far the startup check has come.
#[derive(Clone, Copy, Debug, PartialEq, Eq)]
pub enum SchedulerStage {
    /// The process has not reported its start yet.
    Pending,
    /// The grace period is running.
    Waiting,
    /// The release source is being asked.
    Checking,
    /// The startup check is over, for the rest of the process.
    Finished,
}

/// What the host reports to the scheduler.
#[derive(Debug, PartialEq, Eq)]
pub enum SchedulerEvent {
    /// The process started.
    Started,
    /// The grace period is over.
    GraceElapsed,
    /// The release source answered: with a newer release, or with none.
    QueryAnswered(Option<UpdateCandidate>),
    /// The release source could not be asked, for the given cause.
    QueryFailed(String),
}

/// What a [`SchedulerEvent`] stands for in contracts.
pub enum SchedulerEventView {
    Started,
    GraceElapsed,
    QueryAnswered(Option<CandidateView>),
    QueryFailed(Seq<char>),
}

impl View for SchedulerEvent {
    type V = SchedulerEventView;

    open spec fn view(&self) -> SchedulerEventView {
        match self {
            SchedulerEvent::Started => SchedulerEventView::Started,
            SchedulerEvent::GraceElapsed => SchedulerEventView::GraceElapsed,
            SchedulerEvent::QueryAnswered(answer) => SchedulerEventView::QueryAnswered(
                candidate_view(*answer),
            ),
            SchedulerEvent::QueryFailed(cause) => SchedulerEventView::QueryFailed(cause@),
        }
    }
}

/// What the host has to do for the scheduler next.
#[derive(Debug, PartialEq, Eq)]
pub enum SchedulerAction {
    /// Wait that many seconds without blocking the start, then report
    /// `GraceElapsed`.
    Sleep(u64),
    /// Ask the release source for a release newer than the given running
    /// version, and report `QueryAnswered` or `QueryFailed`.
    Query(String),
    /// The startup check is over. Nothing is to be reported to anyone.
    Finish,
    /// The event did not fit the stage and changed nothing.
    Ignored,
}

/// What a [`SchedulerAction`] stands for in contracts.
pub enum SchedulerActionView {
    Sleep(u64),
    Query(Seq<char>),
    Finish,
    Ignored,
}

impl View for SchedulerAction {
    type V = SchedulerActionView;

    open spec fn view(&self) -> SchedulerActionView {
        match self {
            SchedulerAction::Sleep(seconds) => SchedulerActionView::Sleep(*seconds),
            SchedulerAction::Query(running_version) => SchedulerActionView::Query(running_version@),
            SchedulerAction::Finish => SchedulerActionView::Finish,
            SchedulerAction::Ignored => SchedulerActionView::Ignored,
        }
    }
}

/// The scheduler's answer to one event.
#[derive(Debug, PartialEq, Eq)]
pub struct SchedulerStep {
    /// The notifications to publish, in this order.
    pub notifications: Vec<Notification>,
    /// What the host has to do next.
    pub action: SchedulerAction,
}

/// What a [`SchedulerStep`] stands for in contracts.
pub struct SchedulerStepView {
    pub notifications: Seq<NotificationView>,
    pub action: SchedulerActionView,
}

impl View for SchedulerStep {
    type V = SchedulerStepView;

    open spec fn view(&self) -> SchedulerStepView {
        SchedulerStepView {
            notifications: notification_views(self.notifications@),
            action: self.action@,
        }
    }
}

/// Scheduler and coordinator after an event, and the answer to that event.
pub struct Schedule {
    pub stage: SchedulerStage,
    pub coordinator: CoordinatorView,
    pub step: SchedulerStepView,
}

/// An answer that publishes nothing.
pub open spec fn quiet(action: SchedulerActionView) -> SchedulerStepView {
    SchedulerStepView { notifications: Seq::empty(), action }
}

/// The startup check as a transition system.
///
/// The start of the process opens the grace period. At its end the
/// coordinator is asked for a check; if it starts a query the scheduler waits
/// for the answer, and if it does not (an operation is in flight, or the
/// check was answered at once) the startup check is over. The answer to the
/// query goes to the coordinator if it still waits for it on behalf of a
/// check. Only what the coordinator publishes for a found release reaches
/// the observers; results and errors are dropped. After that, and for any
/// event that does not fit the stage, nothing happens any more.
pub open spec fn schedule(
    stage: SchedulerStage,
    coordinator: CoordinatorView,
    event: SchedulerEventView,
) -> Schedule {
    match (stage, event) {
        (SchedulerStage::Pending, SchedulerEventView::Started) => Schedule {
            stage: SchedulerStage::Waiting,
            coordinator,
            step: quiet(SchedulerActionView::Sleep(STARTUP_GRACE_SECONDS)),
        },
        (SchedulerStage::Waiting, SchedulerEventView::GraceElapsed) => {
            let requested = coordinator.on_check_requested();
            match requested.step.directive {
                DirectiveView::Query(running_version) => Schedule {
                    stage: SchedulerStage::Checking,
                    coordinator: requested.next,
                    step: quiet(SchedulerActionView::Query(running_version)),
                },
                _ => Schedule {
                    stage: SchedulerStage::Finished,
                    coordinator: requested.next,
                    step: quiet(SchedulerActionView::Finish),
                },
            }
        },
        (SchedulerStage::Checking, SchedulerEventView::QueryAnswered(answer)) => {
            if coordinator.activity == Activity::CheckQuery {
                let answered = coordinator.on_query_answered(answer);
                Schedule {
                    stage: SchedulerStage::Finished,
                    coordinator: answered.next,
                    step: SchedulerStepView {
                        notifications: answered.step.notifications,
                        action: SchedulerActionView::Finish,
                    },
                }
            } else {
                Schedule {
                    stage: SchedulerStage::Finished,
                    coordinator,
                    step: quiet(SchedulerActionView::Finish),
                }
            }
        },
        (SchedulerStage::Checking, SchedulerEventView::QueryFailed(cause)) => {
            if coordinator.activity == Activity::CheckQuery {
                Schedule {
                    stage: SchedulerStage::Finished,
                    coordinator: coordinator.on_operation_failed(cause).next,
                    step: quiet(SchedulerActionView::Finish),
                }
            } else {
                Schedule {
                    stage: SchedulerStage::Finished,
                    coordinator,
                    step: quiet(SchedulerActionView::Finish),
                }
            }
        },
        _ => Schedule { stage, coordinator, step: quiet(SchedulerActionView::Ignored) },
    }
}

/// Decides the steps of the one check that follows the start of the process.
#[derive(Debug)]
pub struct BackgroundScheduler {
    stage: SchedulerStage,
}

impl View for BackgroundScheduler {
    type V = SchedulerStage;

    closed spec fn view(&self) -> SchedulerStage {
        self.stage
    }
}

impl BackgroundScheduler {
    /// The scheduler of a process that has not reported its start yet.
    pub fn new() -> (scheduler: Self)
        ensures
            scheduler@ == SchedulerStage::Pending,
    {
        BackgroundScheduler { stage: SchedulerStage::Pending }
    }

    /// How far the startup check has come.
    pub fn stage(&self) -> (stage: SchedulerStage)
        ensures
            stage == self@,
    {
        self.stage
    }
}

/// An answer that publishes nothing.
fn quietly(action: SchedulerAction) -> (step: SchedulerStep)
    ensures
        step@ == quiet(action@),
{
    let notifications: Vec<Notification> = Vec::new();
    assert(notification_views(notifications@) =~= Seq::<NotificationView>::empty());
    SchedulerStep { notifications, action }
}

/// Runs the startup check one step further: takes what the host reports,
/// moves scheduler and coordinator on, and says what is to be published and
/// what the host has to do next.
///
/// The process start is answered with the grace period to wait. When it is
/// over, the coordinator is asked for a check, as by any other caller. The
/// release source's answer is handed to the coordinator; a release it found
/// is announced, anything else ends the startup check in silence. The check
/// runs once: after it, every event is ignored.
pub fn run(
    scheduler: &mut BackgroundScheduler,
    coordinator: &mut UpdateCoordinator,
    event: SchedulerEvent,
) -> (step: SchedulerStep)
    ensures
        final(coordinator)@.wf(),
        final(scheduler)@ == schedule(old(scheduler)@, old(coordinator)@, event@).stage,
        final(coordinator)@ == schedule(old(scheduler)@, old(coordinator)@, event@).coordinator,
        step@ == schedule(old(scheduler)@, old(coordinator)@, event@).step,
{
    let awaited = coordinator.activity();
    match (scheduler.stage, event) {
        (SchedulerStage::Pending, SchedulerEvent::Started) => {
            scheduler.stage = SchedulerStage::Waiting;
            quietly(SchedulerAction::Sleep(STARTUP_GRACE_SECONDS))
        },
        (SchedulerStage::Waiting, SchedulerEvent::GraceElapsed) => {
            let requested = coordinator.request_check();
            match requested.directive {
                Directive::Query(running_version) => {
                    scheduler.stage = SchedulerStage::Checking;
                    quietly(SchedulerAction::Query(running_version))
                },
                _ => {
                    scheduler.stage = SchedulerStage::Finished;
                    quietly(SchedulerAction::Finish)
                },
            }
        },
        (SchedulerStage::Checking, SchedulerEvent::QueryAnswered(answer)) => {
            scheduler.stage = SchedulerStage::Finished;
            match awaited {
                Activity::CheckQuery => {
                    let answered = coordinator.query_answered(answer);
                    SchedulerStep {
                        notifications: answered.notifications,
                        action: SchedulerAction::Finish,
                    }
                },
                _ => quietly(SchedulerAction::Finish),
            }
        },
        (SchedulerStage::Checking, SchedulerEvent::QueryFailed(cause)) => {
            scheduler.stage = SchedulerStage::Finished;
            match awaited {
                Activity::CheckQuery => {
                    let _ = coordinator.operation_failed(cause);
                    quietly(SchedulerAction::Finish)
                },
                _ => quietly(SchedulerAction::Finish),
            }
        },
        _ => quietly(SchedulerAction::Ignored),
    }
}

} // verus!
