//! The ways in which an update operation ends without its result.

use vstd::prelude::*;
use vstd::string::*;

verus! {

/// Why an operation of the coordinator did not deliver its result.
#[derive(Debug, PartialEq, Eq)]
pub enum UpdateError {
    /// The release source could not be asked, or its answer could not be
    /// read. Carries the underlying cause.
    Query(String),
    /// The transfer of the artifact broke off or delivered damaged data.
    Download(String),
    /// The host failed to install the downloaded artifact.
    Apply(String),
    /// Another check or install was in flight; the request was turned away
    /// and the operation in flight is untouched.
    Busy,
    /// The user abandoned the install. This is a regular way out, not a fault.
    Cancelled,
}

/// What an [`UpdateError`] stands for in contracts.
pub enum ErrorView {
    Query(Seq<char>),
    Download(Seq<char>),
    Apply(Seq<char>),
    Busy,
    Cancelled,
}

impl ErrorView {
    /// The text shown for the error: the underlying cause where there is one,
    /// a fixed sentence otherwise.
    pub open spec fn message(self) -> Seq<char> {
        match self {
            ErrorView::Query(cause) => cause,
            ErrorView::Download(cause) => cause,
            ErrorView::Apply(cause) => cause,
            ErrorView::Busy => "An update operation is already in progress"@,
            ErrorView::Cancelled => "The update was cancelled"@,
        }
    }

    /// Whether the error leaves the coordinator in its failed state. Being
    /// turned away or cancelled does not.
    pub open spec fn is_fault(self) -> bool {
        self is Query || self is Download || self is Apply
    }
}

impl View for UpdateError {
    type V = ErrorView;

    open spec fn view(&self) -> ErrorView {
        match self {
            UpdateError::Query(cause) => ErrorView::Query(cause@),
            UpdateError::Download(cause) => ErrorView::Download(cause@),
            UpdateError::Apply(cause) => ErrorView::Apply(cause@),
            UpdateError::Busy => ErrorView::Busy,
            UpdateError::Cancelled => ErrorView::Cancelled,
        }
    }
}

impl UpdateError {
    /// The text shown for the error.
    pub fn message(&self) -> (text: String)
        ensures
            text@ == self@.message(),
    {
        match self {
            UpdateError::Query(cause) => cause.clone(),
            UpdateError::Download(cause) => cause.clone(),
            UpdateError::Apply(cause) => cause.clone(),
            UpdateError::Busy => String::from_str("An update operation is already in progress"),
            UpdateError::Cancelled => String::from_str("The update was cancelled"),
        }
    }
}

impl Clone for UpdateError {
    fn clone(&self) -> (copy: Self)
        ensures
            copy@ == self@,
    {
        match self {
            UpdateError::Query(cause) => UpdateError::Query(cause.clone()),
            UpdateError::Download(cause) => UpdateError::Download(cause.clone()),
            UpdateError::Apply(cause) => UpdateError::Apply(cause.clone()),
            UpdateError::Busy => UpdateError::Busy,
            UpdateError::Cancelled => UpdateError::Cancelled,
        }
    }
}

} // verus!
