//! The update coordinator.

use vstd::prelude::*;
use crate::candidate::{ProgressSample, UpdateCandidate};
use crate::error::UpdateError;
use crate::event::{candidate_view, CheckResult, Directive, Event, InstallResult, Step};
use crate::model::CoordinatorView;
use crate::notification::{notification_views, Notification, NotificationView};
use crate::state::{Activity, CoordinatorState, FailureContext, StateView};

verus! {

/// Owns the state of the update lifecycle and decides every transition of it.
///
/// At most one check or install is in flight at a time. A request that
/// arrives while one is in flight is turned away with
/// [`UpdateError::Busy`]; it never joins, delays or disturbs the operation in
/// flight.
#[derive(Debug)]
pub struct UpdateCoordinator {
    running_version: String,
    lifecycle: Lifecycle,
}

/// The state together with what the operation in flight is waiting for. The
/// two change together, so that they always fit each other.
#[derive(Debug)]
struct Lifecycle {
    state: CoordinatorState,
    activity: Activity,
}

impl View for UpdateCoordinator {
    type V = CoordinatorView;

    closed spec fn view(&self) -> CoordinatorView {
        CoordinatorView {
            running_version: self.running_version@,
            state: self.lifecycle.state@,
            activity: self.lifecycle.activity,
        }
    }
}

impl UpdateCoordinator {
    /// What holds of every coordinator, at every moment.
    #[verifier::type_invariant]
    closed spec fn well_formed(self) -> bool {
        self@.wf()
    }
}

/// No notifications.
fn nothing() -> (notifications: Vec<Notification>)
    ensures
        notification_views(notifications@) == Seq::<NotificationView>::empty(),
{
    let notifications: Vec<Notification> = Vec::new();
    assert(notification_views(notifications@) =~= Seq::<NotificationView>::empty());
    notifications
}

/// One notification.
fn only(notification: Notification) -> (notifications: Vec<Notification>)
    ensures
        notification_views(notifications@) == seq![notification@],
{
    let mut notifications: Vec<Notification> = Vec::new();
    notifications.push(notification);
    assert(notification_views(notifications@) =~= seq![notification@]);
    notifications
}

impl UpdateCoordinator {
    /// The coordinator of an application that runs `running_version`: idle,
    /// with nothing in flight.
    pub fn new(running_version: String) -> (coordinator: Self)
        ensures
            coordinator@ == CoordinatorView::initial(running_version@),
            coordinator@.wf(),
    {
        UpdateCoordinator {
            running_version,
            lifecycle: Lifecycle { state: CoordinatorState::Idle, activity: Activity::Quiescent },
        }
    }

    /// The version of the running application.
    pub fn running_version(&self) -> (version: &String)
        ensures
            version@ == self@.running_version,
    {
        &self.running_version
    }

    /// The current state of the update lifecycle.
    pub fn state(&self) -> (state: &CoordinatorState)
        ensures
            state@ == self@.state,
            self@.wf(),
    {
        proof {
            use_type_invariant(self);
        }
        &self.lifecycle.state
    }

    /// What the operation in flight, if any, is waiting for.
    pub fn activity(&self) -> (activity: Activity)
        ensures
            activity == self@.activity,
            self@.wf(),
    {
        proof {
            use_type_invariant(self);
        }
        self.lifecycle.activity
    }

    /// Whether a check or an install is in flight.
    pub fn is_busy(&self) -> (busy: bool)
        ensures
            busy == self@.busy(),
    {
        match self.lifecycle.activity {
            Activity::Quiescent => false,
            _ => true,
        }
    }

    /// Takes the state out of the coordinator, which is left idle and at
    /// rest until the caller enters the state that follows.
    fn take_state(&mut self) -> (state: CoordinatorState)
        ensures
            state@ == old(self)@.state,
            final(self)@ == old(self)@.settled(StateView::Idle),
    {
        let mut taken = Lifecycle { state: CoordinatorState::Idle, activity: Activity::Quiescent };
        std::mem::swap(&mut self.lifecycle, &mut taken);
        taken.state
    }

    /// Puts the coordinator into `state`, waiting for what `activity` names.
    fn enter(&mut self, state: CoordinatorState, activity: Activity)
        requires
            old(self)@.engaged(state@, activity).wf(),
        ensures
            final(self)@ == old(self)@.engaged(state@, activity),
    {
        self.lifecycle = Lifecycle { state, activity };
    }

    /// Enters `Checking` on behalf of `activity` and asks for a query.
    fn start_query(&mut self, activity: Activity) -> (step: Step)
        requires
            activity == Activity::CheckQuery || activity == Activity::InstallQuery,
        ensures
            final(self)@ == old(self)@.start_query(activity).next,
            step@ == old(self)@.start_query(activity).step,
    {
        self.enter(CoordinatorState::Checking, activity);
        Step { notifications: nothing(), directive: Directive::Query(self.running_version.clone()) }
    }

    /// Enters `Downloading` with `candidate` at zero progress and asks for
    /// its artifact.
    fn start_download(&mut self, candidate: UpdateCandidate) -> (step: Step)
        ensures
            final(self)@ == old(self)@.start_download(candidate@).next,
            step@ == old(self)@.start_download(candidate@).step,
    {
        let locator = candidate.artifact_locator().clone();
        self.enter(
            CoordinatorState::Downloading(candidate, ProgressSample::zero()),
            Activity::Transfer,
        );
        Step { notifications: only(Notification::DownloadStarted), directive: Directive::Fetch(locator) }
    }

    /// Comes to rest in `state` and hands `directive` back, publishing
    /// nothing.
    fn settle_quietly(&mut self, state: CoordinatorState, directive: Directive) -> (step: Step)
        requires
            old(self)@.settled(state@).wf(),
        ensures
            final(self)@ == old(self)@.settle_quietly(state@, directive@).next,
            step@ == old(self)@.settle_quietly(state@, directive@).step,
    {
        self.enter(state, Activity::Quiescent);
        Step { notifications: nothing(), directive }
    }

    /// Hands `directive` back and changes nothing.
    fn unchanged(&self, directive: Directive) -> (step: Step)
        ensures
            step@ == self@.unchanged(directive@).step,
    {
        Step { notifications: nothing(), directive }
    }

    /// A caller asks whether a newer release exists.
    ///
    /// While an operation is in flight the request is turned away with
    /// `Busy`. After an installation it is answered at once with "no update".
    /// Otherwise the coordinator enters `Checking` and directs the host to
    /// ask the release source; a failure of the last operation is forgotten.
    pub fn request_check(&mut self) -> (step: Step)
        ensures
            final(self)@.wf(),
            final(self)@ == old(self)@.on_check_requested().next,
            step@ == old(self)@.on_check_requested().step,
    {
        proof {
            use_type_invariant(&*self);
        }
        if self.is_busy() {
            return self.unchanged(Directive::CheckFinished(Err(UpdateError::Busy)));
        }
        if matches!(self.lifecycle.state, CoordinatorState::Installed(_)) {
            return self.unchanged(Directive::CheckFinished(Ok(CheckResult::NoUpdate)));
        }
        self.start_query(Activity::CheckQuery)
    }

    /// A caller asks for the update to be installed, and may supply the
    /// candidate.
    ///
    /// While an operation is in flight the request is turned away with
    /// `Busy`. After an installation it is answered at once with "no update".
    /// Otherwise the download starts from zero with the supplied candidate,
    /// or else with the candidate of `UpdateAvailable`; where neither is
    /// known, the coordinator asks the release source first.
    pub fn request_install(&mut self, supplied: Option<UpdateCandidate>) -> (step: Step)
        ensures
            final(self)@.wf(),
            final(self)@ == old(self)@.on_install_requested(candidate_view(supplied)).next,
            step@ == old(self)@.on_install_requested(candidate_view(supplied)).step,
    {
        proof {
            use_type_invariant(&*self);
        }
        if self.is_busy() {
            return self.unchanged(Directive::InstallFinished(Err(UpdateError::Busy)));
        }
        if matches!(self.lifecycle.state, CoordinatorState::Installed(_)) {
            return self.unchanged(Directive::InstallFinished(Ok(InstallResult::NoUpdate)));
        }
        match supplied {
            Some(candidate) => self.start_download(candidate),
            None => {
                match self.take_state() {
                    CoordinatorState::UpdateAvailable(candidate) => self.start_download(candidate),
                    _ => self.start_query(Activity::InstallQuery),
                }
            },
        }
    }

    /// The release source answered the query in flight: with a newer release,
    /// or with none.
    ///
    /// A check keeps the release as its candidate, announces it with one
    /// `update-available` notification and ends with its version and notes.
    /// An install starts downloading it. With no newer release either
    /// operation ends at `Idle` with "no update" and nothing published.
    /// Without a query in flight the answer is ignored.
    pub fn query_answered(&mut self, answer: Option<UpdateCandidate>) -> (step: Step)
        ensures
            final(self)@.wf(),
            final(self)@ == old(self)@.on_query_answered(candidate_view(answer)).next,
            step@ == old(self)@.on_query_answered(candidate_view(answer)).step,
    {
        proof {
            use_type_invariant(&*self);
        }
        match (self.lifecycle.activity, answer) {
            (Activity::CheckQuery, Some(candidate)) => {
                let announcement = Notification::UpdateAvailable {
                    message: candidate.release_notes().clone(),
                    version: candidate.version().clone(),
                };
                let found = CheckResult::UpdateAvailable {
                    version: candidate.version().clone(),
                    notes: candidate.release_notes().clone(),
                };
                self.enter(CoordinatorState::UpdateAvailable(candidate), Activity::Quiescent);
                Step {
                    notifications: only(announcement),
                    directive: Directive::CheckFinished(Ok(found)),
                }
            },
            (Activity::CheckQuery, None) => self.settle_quietly(
                CoordinatorState::Idle,
                Directive::CheckFinished(Ok(CheckResult::NoUpdate)),
            ),
            (Activity::InstallQuery, Some(candidate)) => self.start_download(candidate),
            (Activity::InstallQuery, None) => self.settle_quietly(
                CoordinatorState::Idle,
                Directive::InstallFinished(Ok(InstallResult::NoUpdate)),
            ),
            _ => self.unchanged(Directive::Ignored),
        }
    }

    /// Ends the install in flight with `error`, keeping candidate and
    /// progress as the failure's context.
    fn fail_install(&mut self, error: UpdateError) -> (step: Step)
        requires
            error@ is Download || error@ is Apply,
        ensures
            final(self)@ == old(self)@.fail_install(error@).next,
            step@ == old(self)@.fail_install(error@).step,
    {
        proof {
            use_type_invariant(&*self);
        }
        let activity = self.lifecycle.activity;
        match self.take_state() {
            CoordinatorState::Downloading(candidate, progress) => {
                let reason = error.message();
                let reported = error.clone();
                self.enter(
                    CoordinatorState::Failed(
                        error,
                        FailureContext::Downloading(candidate, progress),
                    ),
                    Activity::Quiescent,
                );
                Step {
                    notifications: only(Notification::Failed { reason }),
                    directive: Directive::InstallFinished(Err(reported)),
                }
            },
            other => {
                self.enter(other, activity);
                self.unchanged(Directive::Ignored)
            },
        }
    }

    /// The outside work in flight failed, for the given cause.
    ///
    /// A failed query ends the check or the install with a query error and
    /// is not published. A failure during the transfer is a download error,
    /// one after it an installation error; both are published with one
    /// `update-failed` notification. In each case the coordinator comes to
    /// rest in `Failed`. Nothing is retried, and no part of the artifact is
    /// kept. With nothing in flight the event is ignored.
    pub fn operation_failed(&mut self, cause: String) -> (step: Step)
        ensures
            final(self)@.wf(),
            final(self)@ == old(self)@.on_operation_failed(cause@).next,
            step@ == old(self)@.on_operation_failed(cause@).step,
    {
        proof {
            use_type_invariant(&*self);
        }
        match self.lifecycle.activity {
            Activity::CheckQuery => {
                let reported = UpdateError::Query(cause.clone());
                self.settle_quietly(
                    CoordinatorState::Failed(UpdateError::Query(cause), FailureContext::Checking),
                    Directive::CheckFinished(Err(reported)),
                )
            },
            Activity::InstallQuery => {
                let reported = UpdateError::Query(cause.clone());
                self.settle_quietly(
                    CoordinatorState::Failed(UpdateError::Query(cause), FailureContext::Checking),
                    Directive::InstallFinished(Err(reported)),
                )
            },
            Activity::Transfer => self.fail_install(UpdateError::Download(cause)),
            Activity::Apply => self.fail_install(UpdateError::Apply(cause)),
            Activity::Quiescent => self.unchanged(Directive::Ignored),
        }
    }

    /// A chunk of `length` bytes arrived; `total` is the artifact's length
    /// where the stream announces it.
    ///
    /// During the transfer the progress moves on by `length` and is published
    /// with one `update-download-progress` notification. The candidate stays
    /// the same. At any other time the event is ignored.
    pub fn chunk_received(&mut self, length: u64, total: Option<u64>) -> (step: Step)
        ensures
            final(self)@.wf(),
            final(self)@ == old(self)@.on_chunk_received(length, total).next,
            step@ == old(self)@.on_chunk_received(length, total).step,
    {
        proof {
            use_type_invariant(&*self);
        }
        match self.lifecycle.activity {
            Activity::Transfer => {
                match self.take_state() {
                    CoordinatorState::Downloading(candidate, progress) => {
                        let advanced = progress.advance(length, total);
                        self.enter(
                            CoordinatorState::Downloading(candidate, advanced),
                            Activity::Transfer,
                        );
                        Step {
                            notifications: only(Notification::DownloadProgress(advanced)),
                            directive: Directive::Continue,
                        }
                    },
                    other => {
                        self.enter(other, Activity::Transfer);
                        self.unchanged(Directive::Ignored)
                    },
                }
            },
            _ => self.unchanged(Directive::Ignored),
        }
    }

    /// The stream ended: the whole artifact is here.
    ///
    /// During the transfer the coordinator directs the host to install the
    /// artifact and stays in `Downloading` until that is done. At any other
    /// time the event is ignored.
    pub fn transfer_completed(&mut self) -> (step: Step)
        ensures
            final(self)@.wf(),
            final(self)@ == old(self)@.on_transfer_completed().next,
            step@ == old(self)@.on_transfer_completed().step,
    {
        proof {
            use_type_invariant(&*self);
        }
        match self.lifecycle.activity {
            Activity::Transfer => {
                let state = self.take_state();
                self.enter(state, Activity::Apply);
                Step { notifications: nothing(), directive: Directive::Apply }
            },
            _ => self.unchanged(Directive::Ignored),
        }
    }

    /// The host installed the artifact.
    ///
    /// The install ends in `Installed` with the candidate that the download
    /// began with, and one `update-installed` notification is published.
    /// Unless an installation is awaited the event is ignored.
    pub fn applied(&mut self) -> (step: Step)
        ensures
            final(self)@.wf(),
            final(self)@ == old(self)@.on_applied().next,
            step@ == old(self)@.on_applied().step,
    {
        proof {
            use_type_invariant(&*self);
        }
        match self.lifecycle.activity {
            Activity::Apply => {
                match self.take_state() {
                    CoordinatorState::Downloading(candidate, _) => {
                        let announcement = Notification::Installed {
                            version: candidate.version().clone(),
                        };
                        let done = InstallResult::Installed { version: candidate.version().clone() };
                        self.enter(CoordinatorState::Installed(candidate), Activity::Quiescent);
                        Step {
                            notifications: only(announcement),
                            directive: Directive::InstallFinished(Ok(done)),
                        }
                    },
                    other => {
                        self.enter(other, Activity::Apply);
                        self.unchanged(Directive::Ignored)
                    },
                }
            },
            _ => self.unchanged(Directive::Ignored),
        }
    }

    /// The user abandons the install in flight.
    ///
    /// While the install still asks the release source or receives the
    /// artifact, it ends with `Cancelled`, the coordinator goes to `Idle`,
    /// and nothing is published: cancelling is no failure. Once the host
    /// installs the artifact the request comes too late and is ignored, as
    /// it is during a check and with nothing in flight.
    pub fn cancel(&mut self) -> (step: Step)
        ensures
            final(self)@.wf(),
            final(self)@ == old(self)@.on_cancel_requested().next,
            step@ == old(self)@.on_cancel_requested().step,
    {
        proof {
            use_type_invariant(&*self);
        }
        match self.lifecycle.activity {
            Activity::InstallQuery => self.settle_quietly(
                CoordinatorState::Idle,
                Directive::InstallFinished(Err(UpdateError::Cancelled)),
            ),
            Activity::Transfer => self.settle_quietly(
                CoordinatorState::Idle,
                Directive::InstallFinished(Err(UpdateError::Cancelled)),
            ),
            _ => self.unchanged(Directive::Ignored),
        }
    }

    /// Decides on any event: moves the coordinator to its next state and
    /// says what is to be published and what the host has to do next.
    pub fn handle(&mut self, event: Event) -> (step: Step)
        ensures
            final(self)@.wf(),
            final(self)@ == old(self)@.react(event@).next,
            step@ == old(self)@.react(event@).step,
    {
        match event {
            Event::CheckRequested => self.request_check(),
            Event::InstallRequested(supplied) => self.request_install(supplied),
            Event::QueryAnswered(answer) => self.query_answered(answer),
            Event::ChunkReceived { length, total } => self.chunk_received(length, total),
            Event::TransferCompleted => self.transfer_completed(),
            Event::Applied => self.applied(),
            Event::OperationFailed(cause) => self.operation_failed(cause),
            Event::CancelRequested => self.cancel(),
        }
    }
}

} // verus!
