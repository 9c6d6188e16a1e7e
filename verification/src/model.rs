//! The coordinator as a transition system over views.
//!
//! Every operation of the coordinator is stated here as a function from the
//! coordinator before an event to the coordinator after it, together with
//! the answer handed to the host.

use vstd::prelude::*;
use crate::candidate::{CandidateView, ProgressSample};
use crate::error::ErrorView;
use crate::event::{CheckView, DirectiveView, EventView, InstallView, StepView};
use crate::notification::NotificationView;
use crate::state::{Activity, ContextView, StateView};

verus! {

/// What an update coordinator stands for in contracts.
pub struct CoordinatorView {
    /// The version of the running application, fixed at construction.
    pub running_version: Seq<char>,
    /// The state of the update lifecycle.
    pub state: StateView,
    /// What the operation in flight, if any, is waiting for.
    pub activity: Activity,
}

/// A coordinator after an event, and its answer to that event.
pub struct Reaction {
    pub next: CoordinatorView,
    pub step: StepView,
}

impl CoordinatorView {
    /// The coordinator of a freshly started application.
    pub open spec fn initial(running_version: Seq<char>) -> CoordinatorView {
        CoordinatorView { running_version, state: StateView::Idle, activity: Activity::Quiescent }
    }

    /// The invariant of every coordinator: the activity belongs to the state,
    /// and a failed state names a fault together with its context.
    pub open spec fn wf(self) -> bool {
        &&& self.activity.fits(self.state)
        &&& self.state.failure_is_consistent()
    }

    /// Whether a check or an install is in flight.
    pub open spec fn busy(self) -> bool {
        self.activity != Activity::Quiescent
    }

    /// The coordinator at rest in `state`.
    pub open spec fn settled(self, state: StateView) -> CoordinatorView {
        CoordinatorView { state, activity: Activity::Quiescent, ..self }
    }

    /// The coordinator in `state`, waiting for what `activity` names.
    pub open spec fn engaged(self, state: StateView, activity: Activity) -> CoordinatorView {
        CoordinatorView { state, activity, ..self }
    }

    /// An answer that changes nothing and publishes nothing.
    pub open spec fn unchanged(self, directive: DirectiveView) -> Reaction {
        Reaction { next: self, step: StepView { notifications: Seq::empty(), directive } }
    }

    /// Comes to rest in `state` without publishing anything.
    pub open spec fn settle_quietly(self, state: StateView, directive: DirectiveView) -> Reaction {
        Reaction {
            next: self.settled(state),
            step: StepView { notifications: Seq::empty(), directive },
        }
    }

    /// Starts asking the release source on behalf of `activity`.
    pub open spec fn start_query(self, activity: Activity) -> Reaction {
        Reaction {
            next: self.engaged(StateView::Checking, activity),
            step: StepView {
                notifications: Seq::empty(),
                directive: DirectiveView::Query(self.running_version),
            },
        }
    }

    /// Starts downloading `candidate` from its first byte.
    pub open spec fn start_download(self, candidate: CandidateView) -> Reaction {
        Reaction {
            next: self.engaged(
                StateView::Downloading(candidate, ProgressSample::spec_zero()),
                Activity::Transfer,
            ),
            step: StepView {
                notifications: seq![NotificationView::DownloadStarted],
                directive: DirectiveView::Fetch(candidate.artifact_locator),
            },
        }
    }

    /// A caller asks for a check. It is turned away while an operation is in
    /// flight, answered at once after an installation, and otherwise starts a
    /// query, from whatever resting state.
    pub open spec fn on_check_requested(self) -> Reaction {
        if self.busy() {
            self.unchanged(DirectiveView::CheckFinished(Err(ErrorView::Busy)))
        } else if self.state is Installed {
            self.unchanged(DirectiveView::CheckFinished(Ok(CheckView::NoUpdate)))
        } else {
            self.start_query(Activity::CheckQuery)
        }
    }

    /// A caller asks for an install. It is turned away while an operation is
    /// in flight and answered at once after an installation. Otherwise the
    /// download starts with the supplied candidate, or else with the one that
    /// the state holds; where neither is known, the release source is asked
    /// first.
    pub open spec fn on_install_requested(self, supplied: Option<CandidateView>) -> Reaction {
        if self.busy() {
            self.unchanged(DirectiveView::InstallFinished(Err(ErrorView::Busy)))
        } else if self.state is Installed {
            self.unchanged(DirectiveView::InstallFinished(Ok(InstallView::NoUpdate)))
        } else {
            match (supplied, self.state) {
                (Some(candidate), _) => self.start_download(candidate),
                (None, StateView::UpdateAvailable(candidate)) => self.start_download(candidate),
                (None, _) => self.start_query(Activity::InstallQuery),
            }
        }
    }

    /// The release source answered. A check keeps a newer release as its
    /// candidate and announces it; an install goes on to download it. With no
    /// newer release either operation ends at `Idle`.
    pub open spec fn on_query_answered(self, answer: Option<CandidateView>) -> Reaction {
        match (self.activity, answer) {
            (Activity::CheckQuery, Some(candidate)) => Reaction {
                next: self.settled(StateView::UpdateAvailable(candidate)),
                step: StepView {
                    notifications: seq![
                        NotificationView::UpdateAvailable {
                            message: candidate.release_notes,
                            version: candidate.version,
                        },
                    ],
                    directive: DirectiveView::CheckFinished(
                        Ok(
                            CheckView::UpdateAvailable {
                                version: candidate.version,
                                notes: candidate.release_notes,
                            },
                        ),
                    ),
                },
            },
            (Activity::CheckQuery, None) => self.settle_quietly(
                StateView::Idle,
                DirectiveView::CheckFinished(Ok(CheckView::NoUpdate)),
            ),
            (Activity::InstallQuery, Some(candidate)) => self.start_download(candidate),
            (Activity::InstallQuery, None) => self.settle_quietly(
                StateView::Idle,
                DirectiveView::InstallFinished(Ok(InstallView::NoUpdate)),
            ),
            _ => self.unchanged(DirectiveView::Ignored),
        }
    }

    /// A download or an installation failed with `error`: the coordinator
    /// keeps the candidate and the progress as the failure's context, tells
    /// the observers, and ends the install with the error.
    pub open spec fn fail_install(self, error: ErrorView) -> Reaction {
        match self.state {
            StateView::Downloading(candidate, progress) => Reaction {
                next: self.settled(
                    StateView::Failed(error, ContextView::Downloading(candidate, progress)),
                ),
                step: StepView {
                    notifications: seq![NotificationView::Failed { reason: error.message() }],
                    directive: DirectiveView::InstallFinished(Err(error)),
                },
            },
            _ => self.unchanged(DirectiveView::Ignored),
        }
    }

    /// The outside work in flight failed. The activity tells what kind of
    /// fault that is. A failed query is reported to the caller alone; a
    /// failed download or installation is published as well.
    pub open spec fn on_operation_failed(self, cause: Seq<char>) -> Reaction {
        match self.activity {
            Activity::CheckQuery => self.settle_quietly(
                StateView::Failed(ErrorView::Query(cause), ContextView::Checking),
                DirectiveView::CheckFinished(Err(ErrorView::Query(cause))),
            ),
            Activity::InstallQuery => self.settle_quietly(
                StateView::Failed(ErrorView::Query(cause), ContextView::Checking),
                DirectiveView::InstallFinished(Err(ErrorView::Query(cause))),
            ),
            Activity::Transfer => self.fail_install(ErrorView::Download(cause)),
            Activity::Apply => self.fail_install(ErrorView::Apply(cause)),
            Activity::Quiescent => self.unchanged(DirectiveView::Ignored),
        }
    }

    /// A chunk arrived during the transfer: the progress moves on and is
    /// published. The candidate stays.
    pub open spec fn on_chunk_received(self, length: u64, total: Option<u64>) -> Reaction {
        match (self.activity, self.state) {
            (Activity::Transfer, StateView::Downloading(candidate, progress)) => {
                let advanced = progress.spec_advance(length, total);
                Reaction {
                    next: self.engaged(
                        StateView::Downloading(candidate, advanced),
                        Activity::Transfer,
                    ),
                    step: StepView {
                        notifications: seq![NotificationView::DownloadProgress(advanced)],
                        directive: DirectiveView::Continue,
                    },
                }
            },
            _ => self.unchanged(DirectiveView::Ignored),
        }
    }

    /// The transfer ended: the host is to install the artifact. The state
    /// stays `Downloading` until that is done.
    pub open spec fn on_transfer_completed(self) -> Reaction {
        match (self.activity, self.state) {
            (Activity::Transfer, StateView::Downloading(_, _)) => Reaction {
                next: self.engaged(self.state, Activity::Apply),
                step: StepView { notifications: Seq::empty(), directive: DirectiveView::Apply },
            },
            _ => self.unchanged(DirectiveView::Ignored),
        }
    }

    /// The host installed the artifact: the install ends in `Installed`, with
    /// the candidate that the download began with.
    pub open spec fn on_applied(self) -> Reaction {
        match (self.activity, self.state) {
            (Activity::Apply, StateView::Downloading(candidate, _)) => Reaction {
                next: self.settled(StateView::Installed(candidate)),
                step: StepView {
                    notifications: seq![NotificationView::Installed { version: candidate.version }],
                    directive: DirectiveView::InstallFinished(
                        Ok(InstallView::Installed { version: candidate.version }),
                    ),
                },
            },
            _ => self.unchanged(DirectiveView::Ignored),
        }
    }

    /// The user abandons the install. While it still asks or transfers, the
    /// install ends at `Idle` with nothing published. An installation that
    /// the host has begun cannot be taken back, and a check is not
    /// cancellable: there the request changes nothing.
    pub open spec fn on_cancel_requested(self) -> Reaction {
        match self.activity {
            Activity::InstallQuery => self.settle_quietly(
                StateView::Idle,
                DirectiveView::InstallFinished(Err(ErrorView::Cancelled)),
            ),
            Activity::Transfer => self.settle_quietly(
                StateView::Idle,
                DirectiveView::InstallFinished(Err(ErrorView::Cancelled)),
            ),
            _ => self.unchanged(DirectiveView::Ignored),
        }
    }

    /// The coordinator's reaction to any event.
    pub open spec fn react(self, event: EventView) -> Reaction {
        match event {
            EventView::CheckRequested => self.on_check_requested(),
            EventView::InstallRequested(supplied) => self.on_install_requested(supplied),
            EventView::QueryAnswered(answer) => self.on_query_answered(answer),
            EventView::ChunkReceived { length, total } => self.on_chunk_received(length, total),
            EventView::TransferCompleted => self.on_transfer_completed(),
            EventView::Applied => self.on_applied(),
            EventView::OperationFailed(cause) => self.on_operation_failed(cause),
            EventView::CancelRequested => self.on_cancel_requested(),
        }
    }
}

/// Every reaction keeps the coordinator's invariant and its running version.
pub proof fn lemma_react_preserves_wf(coordinator: CoordinatorView, event: EventView)
    requires
        coordinator.wf(),
    ensures
        coordinator.react(event).next.wf(),
        coordinator.react(event).next.running_version == coordinator.running_version,
{
}

} // verus!
