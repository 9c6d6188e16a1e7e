//! Events that reach the coordinator, and what it answers.

use vstd::prelude::*;
use crate::candidate::{CandidateView, UpdateCandidate};
use crate::error::{ErrorView, UpdateError};
use crate::notification::{notification_views, Notification, NotificationView};

verus! {

/// Something that happened outside and that the coordinator has to decide on:
/// a request of a caller, or the end of outside work that it had asked for.
#[derive(Debug, PartialEq, Eq)]
pub enum Event {
    /// A caller asks whether a newer release exists.
    CheckRequested,
    /// A caller asks for the update to be installed, and may supply the
    /// candidate to install.
    InstallRequested(Option<UpdateCandidate>),
    /// The release source answered: with a newer release, or with none.
    QueryAnswered(Option<UpdateCandidate>),
    /// A chunk of `length` bytes arrived; `total` is the artifact's length
    /// where the stream announces it.
    ChunkReceived { length: u64, total: Option<u64> },
    /// The stream ended: the whole artifact is here.
    TransferCompleted,
    /// The host installed the artifact.
    Applied,
    /// The outside work in flight failed, for the given cause.
    OperationFailed(String),
    /// The user abandons the install in flight.
    CancelRequested,
}

/// What an [`Event`] stands for in contracts.
pub enum EventView {
    CheckRequested,
    InstallRequested(Option<CandidateView>),
    QueryAnswered(Option<CandidateView>),
    ChunkReceived { length: u64, total: Option<u64> },
    TransferCompleted,
    Applied,
    OperationFailed(Seq<char>),
    CancelRequested,
}

/// The view of a candidate that may be absent.
pub open spec fn candidate_view(candidate: Option<UpdateCandidate>) -> Option<CandidateView> {
    match candidate {
        Some(candidate) => Some(candidate@),
        None => None,
    }
}

impl View for Event {
    type V = EventView;

    open spec fn view(&self) -> EventView {
        match self {
            Event::CheckRequested => EventView::CheckRequested,
            Event::InstallRequested(supplied) => EventView::InstallRequested(candidate_view(*supplied)),
            Event::QueryAnswered(answer) => EventView::QueryAnswered(candidate_view(*answer)),
            Event::ChunkReceived { length, total } => EventView::ChunkReceived {
                length: *length,
                total: *total,
            },
            Event::TransferCompleted => EventView::TransferCompleted,
            Event::Applied => EventView::Applied,
            Event::OperationFailed(cause) => EventView::OperationFailed(cause@),
            Event::CancelRequested => EventView::CancelRequested,
        }
    }
}

/// What a check found.
#[derive(Debug, PartialEq, Eq)]
pub enum CheckResult {
    /// A newer release, with its version and notes.
    UpdateAvailable { version: String, notes: String },
    /// No newer release.
    NoUpdate,
}

/// What a [`CheckResult`] stands for in contracts.
pub enum CheckView {
    UpdateAvailable { version: Seq<char>, notes: Seq<char> },
    NoUpdate,
}

impl View for CheckResult {
    type V = CheckView;

    open spec fn view(&self) -> CheckView {
        match self {
            CheckResult::UpdateAvailable { version, notes } => CheckView::UpdateAvailable {
                version: version@,
                notes: notes@,
            },
            CheckResult::NoUpdate => CheckView::NoUpdate,
        }
    }
}

/// What an install achieved.
#[derive(Debug, PartialEq, Eq)]
pub enum InstallResult {
    /// The release of that version was downloaded and installed.
    Installed { version: String },
    /// There was nothing to install.
    NoUpdate,
}

/// What an [`InstallResult`] stands for in contracts.
pub enum InstallView {
    Installed { version: Seq<char> },
    NoUpdate,
}

impl View for InstallResult {
    type V = InstallView;

    open spec fn view(&self) -> InstallView {
        match self {
            InstallResult::Installed { version } => InstallView::Installed { version: version@ },
            InstallResult::NoUpdate => InstallView::NoUpdate,
        }
    }
}

/// The view of how a check ended.
pub open spec fn check_outcome_view(outcome: Result<CheckResult, UpdateError>) -> Result<
    CheckView,
    ErrorView,
> {
    match outcome {
        Ok(found) => Ok(found@),
        Err(error) => Err(error@),
    }
}

/// The view of how an install ended.
pub open spec fn install_outcome_view(outcome: Result<InstallResult, UpdateError>) -> Result<
    InstallView,
    ErrorView,
> {
    match outcome {
        Ok(done) => Ok(done@),
        Err(error) => Err(error@),
    }
}

/// What the host has to do after an event was handled.
#[derive(Debug, PartialEq, Eq)]
pub enum Directive {
    /// Ask the release source for a release newer than the given running
    /// version, and report the answer with `QueryAnswered` or
    /// `OperationFailed`.
    Query(String),
    /// Stream the artifact behind the given locator from its first byte, and
    /// report each chunk with `ChunkReceived`, the end with
    /// `TransferCompleted`, a failure with `OperationFailed`.
    Fetch(String),
    /// Keep streaming.
    Continue,
    /// Install the downloaded artifact, and report `Applied` or
    /// `OperationFailed`.
    Apply,
    /// The check ended; hand its result to the caller that asked for it.
    CheckFinished(Result<CheckResult, UpdateError>),
    /// The install ended; hand its result to the caller that asked for it.
    InstallFinished(Result<InstallResult, UpdateError>),
    /// The event did not fit the state and changed nothing.
    Ignored,
}

/// What a [`Directive`] stands for in contracts.
pub enum DirectiveView {
    Query(Seq<char>),
    Fetch(Seq<char>),
    Continue,
    Apply,
    CheckFinished(Result<CheckView, ErrorView>),
    InstallFinished(Result<InstallView, ErrorView>),
    Ignored,
}

impl DirectiveView {
    /// Whether the directive makes the host start a transfer.
    pub open spec fn starts_transfer(self) -> bool {
        self is Fetch
    }

    /// Whether the directive makes the host ask the release source.
    pub open spec fn starts_query(self) -> bool {
        self is Query
    }
}

impl View for Directive {
    type V = DirectiveView;

    open spec fn view(&self) -> DirectiveView {
        match self {
            Directive::Query(running_version) => DirectiveView::Query(running_version@),
            Directive::Fetch(locator) => DirectiveView::Fetch(locator@),
            Directive::Continue => DirectiveView::Continue,
            Directive::Apply => DirectiveView::Apply,
            Directive::CheckFinished(outcome) => DirectiveView::CheckFinished(
                check_outcome_view(*outcome),
            ),
            Directive::InstallFinished(outcome) => DirectiveView::InstallFinished(
                install_outcome_view(*outcome),
            ),
            Directive::Ignored => DirectiveView::Ignored,
        }
    }
}

/// The coordinator's answer to one event.
#[derive(Debug, PartialEq, Eq)]
pub struct Step {
    /// The notifications to publish, in this order.
    pub notifications: Vec<Notification>,
    /// What the host has to do next.
    pub directive: Directive,
}

/// What a [`Step`] stands for in contracts.
pub struct StepView {
    pub notifications: Seq<NotificationView>,
    pub directive: DirectiveView,
}

impl View for Step {
    type V = StepView;

    open spec fn view(&self) -> StepView {
        StepView {
            notifications: notification_views(self.notifications@),
            directive: self.directive@,
        }
    }
}

} // verus!
