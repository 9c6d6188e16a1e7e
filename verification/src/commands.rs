//! The two commands that the embedding application offers to a simple
//! caller: one that checks for an update and one that installs it. Each
//! answers with a sentence for the user, or with the text of an error.

use vstd::prelude::*;
use vstd::string::*;
use crate::coordinator::UpdateCoordinator;
use crate::error::{ErrorView, UpdateError};
use crate::event::{
    check_outcome_view, install_outcome_view, CheckResult, CheckView, Directive, DirectiveView,
    Event, InstallResult, InstallView, Step,
};
use crate::notification::{notification_views, Notification, NotificationView};

verus! {

/// A command's answer to its caller, as text on either side.
pub open spec fn reply_view(reply: Result<String, String>) -> Result<Seq<char>, Seq<char>> {
    match reply {
        Ok(status) => Ok(status@),
        Err(error) => Err(error@),
    }
}

/// The sentence for the outcome of a check.
pub open spec fn check_reply(outcome: Result<CheckView, ErrorView>) -> Result<Seq<char>, Seq<char>> {
    match outcome {
        Ok(CheckView::UpdateAvailable { version, notes }) => Ok("Update available: "@ + version),
        Ok(CheckView::NoUpdate) => Ok("No updates available"@),
        Err(error) => Err(error.message()),
    }
}

/// The sentence for the outcome of an install.
pub open spec fn install_reply(outcome: Result<InstallView, ErrorView>) -> Result<
    Seq<char>,
    Seq<char>,
> {
    match outcome {
        Ok(InstallView::Installed { version }) => Ok(
            "Update downloaded and installed successfully"@,
        ),
        Ok(InstallView::NoUpdate) => Ok("No updates available"@),
        Err(error) => Err(error.message()),
    }
}

/// How far a command has come after one step.
#[derive(Debug, PartialEq, Eq)]
pub enum CommandProgress {
    /// The command goes on: the host does what the directive says and hands
    /// the event that ends it to [`resume`].
    Pending(Directive),
    /// The command is over, with this answer for its caller.
    Reply(Result<String, String>),
}

/// What a [`CommandProgress`] stands for in contracts.
pub enum ProgressView {
    Pending(DirectiveView),
    Reply(Result<Seq<char>, Seq<char>>),
}

impl View for CommandProgress {
    type V = ProgressView;

    open spec fn view(&self) -> ProgressView {
        match self {
            CommandProgress::Pending(directive) => ProgressView::Pending(directive@),
            CommandProgress::Reply(reply) => ProgressView::Reply(reply_view(*reply)),
        }
    }
}

/// Where a directive leaves the command: a finished check or install is
/// put into words for the caller, anything else is left to the host.
pub open spec fn progress_of(directive: DirectiveView) -> ProgressView {
    match directive {
        DirectiveView::CheckFinished(outcome) => ProgressView::Reply(check_reply(outcome)),
        DirectiveView::InstallFinished(outcome) => ProgressView::Reply(install_reply(outcome)),
        pending => ProgressView::Pending(pending),
    }
}

/// A command's answer to one step.
#[derive(Debug, PartialEq, Eq)]
pub struct CommandStep {
    /// The notifications to publish, in this order.
    pub notifications: Vec<Notification>,
    /// Whether the command goes on, and how, or what it answers.
    pub progress: CommandProgress,
}

/// What a [`CommandStep`] stands for in contracts.
pub struct CommandStepView {
    pub notifications: Seq<NotificationView>,
    pub progress: ProgressView,
}

impl View for CommandStep {
    type V = CommandStepView;

    open spec fn view(&self) -> CommandStepView {
        CommandStepView {
            notifications: notification_views(self.notifications@),
            progress: self.progress@,
        }
    }
}

/// The command's view of a step of the coordinator.
pub open spec fn command_step(notifications: Seq<NotificationView>, directive: DirectiveView) -> CommandStepView {
    CommandStepView { notifications, progress: progress_of(directive) }
}

/// Puts the outcome of a check into words.
pub fn phrase_check(outcome: &Result<CheckResult, UpdateError>) -> (reply: Result<String, String>)
    ensures
        reply_view(reply) == check_reply(check_outcome_view(*outcome)),
{
    match outcome {
        Ok(CheckResult::UpdateAvailable { version, notes: _ }) => Ok(
            String::from_str("Update available: ").concat(version.as_str()),
        ),
        Ok(CheckResult::NoUpdate) => Ok(String::from_str("No updates available")),
        Err(error) => Err(error.message()),
    }
}

/// Puts the outcome of an install into words.
pub fn phrase_install(outcome: &Result<InstallResult, UpdateError>) -> (reply: Result<String, String>)
    ensures
        reply_view(reply) == install_reply(install_outcome_view(*outcome)),
{
    match outcome {
        Ok(InstallResult::Installed { version: _ }) => Ok(
            String::from_str("Update downloaded and installed successfully"),
        ),
        Ok(InstallResult::NoUpdate) => Ok(String::from_str("No updates available")),
        Err(error) => Err(error.message()),
    }
}

/// Turns a step of the coordinator into a step of the command.
fn present(step: Step) -> (presented: CommandStep)
    ensures
        presented@ == command_step(step@.notifications, step@.directive),
{
    let Step { notifications, directive } = step;
    let progress = match directive {
        Directive::CheckFinished(outcome) => CommandProgress::Reply(phrase_check(&outcome)),
        Directive::InstallFinished(outcome) => CommandProgress::Reply(phrase_install(&outcome)),
        pending => CommandProgress::Pending(pending),
    };
    CommandStep { notifications, progress }
}

/// Begins a check on behalf of a caller who wants a sentence back.
///
/// The answer is `Pending` with the query to make, or at once the reply: the
/// text of the busy error while an operation is in flight, "No updates
/// available" after an installation.
pub fn check_for_updates(coordinator: &mut UpdateCoordinator) -> (step: CommandStep)
    ensures
        final(coordinator)@.wf(),
        final(coordinator)@ == old(coordinator)@.on_check_requested().next,
        step@ == command_step(
            old(coordinator)@.on_check_requested().step.notifications,
            old(coordinator)@.on_check_requested().step.directive,
        ),
{
    present(coordinator.request_check())
}

/// Begins an install on behalf of a caller who wants a sentence back.
///
/// The answer is `Pending` with the query or the transfer to make, or at
/// once the reply: the text of the busy error while an operation is in
/// flight, "No updates available" after an installation.
pub fn download_and_install_update(coordinator: &mut UpdateCoordinator) -> (step: CommandStep)
    ensures
        final(coordinator)@.wf(),
        final(coordinator)@ == old(coordinator)@.on_install_requested(None).next,
        step@ == command_step(
            old(coordinator)@.on_install_requested(None).step.notifications,
            old(coordinator)@.on_install_requested(None).step.directive,
        ),
{
    present(coordinator.request_install(None))
}

/// Carries a command on with the event that ended the host's last piece of
/// work.
///
/// When the event ends the check, the reply is "Update available: " followed
/// by the version, or "No updates available"; when it ends the install,
/// "Update downloaded and installed successfully" or "No updates available".
/// An error is answered with its text. Otherwise the command stays pending
/// with the next directive.
pub fn resume(coordinator: &mut UpdateCoordinator, event: Event) -> (step: CommandStep)
    ensures
        final(coordinator)@.wf(),
        final(coordinator)@ == old(coordinator)@.react(event@).next,
        step@ == command_step(
            old(coordinator)@.react(event@).step.notifications,
            old(coordinator)@.react(event@).step.directive,
        ),
{
    present(coordinator.handle(event))
}

} // verus!
