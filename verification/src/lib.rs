//! Coordination of application self-updates.
//!
//! The crate holds the decisions of an update coordinator: when a release
//! source is asked for a newer version, what is kept of its answer, when a
//! download starts, how its progress is counted, and what observers are told.
//! The coordinator never performs outside work itself. Each of its operations
//! takes an [`Event`](event::Event), moves the coordinator to its next state
//! and hands back a [`Step`](event::Step): the notifications to publish, in
//! order, and a directive that names the outside work the host has to do next.
//! The host performs that work and reports how it ended with the next event.

pub mod candidate;
pub mod commands;
pub mod coordinator;
pub mod error;
pub mod event;
pub mod laws;
pub mod model;
pub mod notification;
pub mod scheduler;
pub mod state;

pub use candidate::{ProgressSample, UpdateCandidate};
pub use commands::{
    check_for_updates, download_and_install_update, phrase_check, phrase_install, resume,
    CommandProgress, CommandStep,
};
pub use coordinator::UpdateCoordinator;
pub use error::UpdateError;
pub use event::{CheckResult, Directive, Event, InstallResult, Step};
pub use notification::Notification;
pub use scheduler::{
    run, BackgroundScheduler, SchedulerAction, SchedulerEvent, SchedulerStage, SchedulerStep,
    STARTUP_GRACE_SECONDS,
};
pub use state::{Activity, CoordinatorState, FailureContext};
