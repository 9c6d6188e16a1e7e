//! The states of the update coordinator.

use vstd::prelude::*;
use crate::candidate::{CandidateView, ProgressSample, UpdateCandidate};
use crate::error::{ErrorView, UpdateError};

verus! {

/// Where the coordinator stood when an operation failed.
#[derive(Debug, PartialEq, Eq)]
pub enum FailureContext {
    /// The release source was being asked.
    Checking,
    /// The candidate was being downloaded or installed; the progress is the
    /// last one counted.
    Downloading(UpdateCandidate, ProgressSample),
}

/// What a [`FailureContext`] stands for in contracts.
pub enum ContextView {
    Checking,
    Downloading(CandidateView, ProgressSample),
}

impl View for FailureContext {
    type V = ContextView;

    open spec fn view(&self) -> ContextView {
        match self {
            FailureContext::Checking => ContextView::Checking,
            FailureContext::Downloading(candidate, progress) => ContextView::Downloading(
                candidate@,
                *progress,
            ),
        }
    }
}

/// The state of the update lifecycle. There is one per coordinator, and only
/// the coordinator's own operations change it.
#[derive(Debug, PartialEq, Eq)]
pub enum CoordinatorState {
    /// Nothing is known and nothing is going on.
    Idle,
    /// The release source is being asked.
    Checking,
    /// A newer release is known and waits to be installed.
    UpdateAvailable(UpdateCandidate),
    /// The candidate is being downloaded, then installed.
    Downloading(UpdateCandidate, ProgressSample),
    /// The candidate was installed. Nothing leaves this state.
    Installed(UpdateCandidate),
    /// The last operation failed for the given reason in the given context.
    /// The next request starts over as from `Idle`.
    Failed(UpdateError, FailureContext),
}

/// What a [`CoordinatorState`] stands for in contracts.
pub enum StateView {
    Idle,
    Checking,
    UpdateAvailable(CandidateView),
    Downloading(CandidateView, ProgressSample),
    Installed(CandidateView),
    Failed(ErrorView, ContextView),
}

impl StateView {
    /// The candidate that the state carries, if it carries one.
    pub open spec fn candidate(self) -> Option<CandidateView> {
        match self {
            StateView::UpdateAvailable(candidate) => Some(candidate),
            StateView::Downloading(candidate, _) => Some(candidate),
            StateView::Installed(candidate) => Some(candidate),
            _ => None,
        }
    }

    /// Whether an operation is in flight in this state.
    pub open spec fn in_flight(self) -> bool {
        self is Checking || self is Downloading
    }

    /// A failed state names a fault, and the context in which that kind of
    /// fault arises: a query fails while checking, a download or an
    /// installation while downloading.
    pub open spec fn failure_is_consistent(self) -> bool {
        match self {
            StateView::Failed(ErrorView::Query(_), context) => context is Checking,
            StateView::Failed(ErrorView::Download(_), context) => context is Downloading,
            StateView::Failed(ErrorView::Apply(_), context) => context is Downloading,
            StateView::Failed(_, _) => false,
            _ => true,
        }
    }
}

impl View for CoordinatorState {
    type V = StateView;

    open spec fn view(&self) -> StateView {
        match self {
            CoordinatorState::Idle => StateView::Idle,
            CoordinatorState::Checking => StateView::Checking,
            CoordinatorState::UpdateAvailable(candidate) => StateView::UpdateAvailable(candidate@),
            CoordinatorState::Downloading(candidate, progress) => StateView::Downloading(
                candidate@,
                *progress,
            ),
            CoordinatorState::Installed(candidate) => StateView::Installed(candidate@),
            CoordinatorState::Failed(reason, context) => StateView::Failed(reason@, context@),
        }
    }
}

/// What the operation in flight is waiting for. The state alone does not
/// tell a check from the query that opens an install, nor a transfer from
/// the installation that follows it.
#[derive(Clone, Copy, Debug, PartialEq, Eq)]
pub enum Activity {
    /// No operation is in flight.
    Quiescent,
    /// A check waits for the release source's answer.
    CheckQuery,
    /// An install that knew no candidate waits for the release source's answer.
    InstallQuery,
    /// An install receives the artifact.
    Transfer,
    /// An install has the whole artifact and waits for the host to apply it.
    Apply,
}

impl Activity {
    /// Whether this activity belongs to the given state.
    pub open spec fn fits(self, state: StateView) -> bool {
        match self {
            Activity::Quiescent => !state.in_flight(),
            Activity::CheckQuery => state is Checking,
            Activity::InstallQuery => state is Checking,
            Activity::Transfer => state is Downloading,
            Activity::Apply => state is Downloading,
        }
    }
}

} // verus!
