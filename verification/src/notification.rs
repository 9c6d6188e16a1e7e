//! What the coordinator tells its observers.

use vstd::prelude::*;
use crate::candidate::ProgressSample;

verus! {

/// A named event for the notification sink, with its payload.
#[derive(Debug, PartialEq, Eq)]
pub enum Notification {
    /// A check found a newer release. `message` holds the release notes.
    UpdateAvailable { message: String, version: String },
    /// A download began.
    DownloadStarted,
    /// A chunk of the artifact arrived.
    DownloadProgress(ProgressSample),
    /// The release of that version was installed.
    Installed { version: String },
    /// A download or an installation failed.
    Failed { reason: String },
}

/// What a [`Notification`] stands for in contracts.
pub enum NotificationView {
    UpdateAvailable { message: Seq<char>, version: Seq<char> },
    DownloadStarted,
    DownloadProgress(ProgressSample),
    Installed { version: Seq<char> },
    Failed { reason: Seq<char> },
}

impl NotificationView {
    /// The name under which the notification is published.
    pub open spec fn name(self) -> Seq<char> {
        match self {
            NotificationView::UpdateAvailable { .. } => "update-available"@,
            NotificationView::DownloadStarted => "update-download-started"@,
            NotificationView::DownloadProgress(_) => "update-download-progress"@,
            NotificationView::Installed { .. } => "update-installed"@,
            NotificationView::Failed { .. } => "update-failed"@,
        }
    }
}

impl View for Notification {
    type V = NotificationView;

    open spec fn view(&self) -> NotificationView {
        match self {
            Notification::UpdateAvailable { message, version } => NotificationView::UpdateAvailable {
                message: message@,
                version: version@,
            },
            Notification::DownloadStarted => NotificationView::DownloadStarted,
            Notification::DownloadProgress(sample) => NotificationView::DownloadProgress(*sample),
            Notification::Installed { version } => NotificationView::Installed { version: version@ },
            Notification::Failed { reason } => NotificationView::Failed { reason: reason@ },
        }
    }
}

impl Notification {
    /// The name under which the notification is published.
    pub fn name(&self) -> (name: &'static str)
        ensures
            name@ == self@.name(),
    {
        match self {
            Notification::UpdateAvailable { .. } => "update-available",
            Notification::DownloadStarted => "update-download-started",
            Notification::DownloadProgress(_) => "update-download-progress",
            Notification::Installed { .. } => "update-installed",
            Notification::Failed { .. } => "update-failed",
        }
    }
}

/// The views of a run of notifications, in the same order.
pub open spec fn notification_views(notifications: Seq<Notification>) -> Seq<NotificationView> {
    notifications.map_values(|notification: Notification| notification@)
}

} // verus!
