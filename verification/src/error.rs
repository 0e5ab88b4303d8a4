//! What can go wrong when the supervisor calls out to the system.

use vstd::prelude::*;

verus! {

/// Failure of a supervisor operation. Each variant carries the reason that
/// the system gave.
#[derive(Debug, PartialEq, Eq)]
pub enum ServiceError {
    /// The service process could not be launched.
    SpawnFailed(String),
    /// The held service process could not be terminated.
    TerminateFailed(String),
}

/// Mathematical model of a [`ServiceError`].
pub ghost enum ErrorView {
    SpawnFailed(Seq<char>),
    TerminateFailed(Seq<char>),
}

impl ErrorView {
    /// The reason carried, whatever the variant.
    pub open spec fn reason(self) -> Seq<char> {
        match self {
            ErrorView::SpawnFailed(reason) => reason,
            ErrorView::TerminateFailed(reason) => reason,
        }
    }
}

impl View for ServiceError {
    type V = ErrorView;

    open spec fn view(&self) -> ErrorView {
        match self {
            ServiceError::SpawnFailed(reason) => ErrorView::SpawnFailed(reason@),
            ServiceError::TerminateFailed(reason) => ErrorView::TerminateFailed(reason@),
        }
    }
}

impl Clone for ServiceError {
    fn clone(&self) -> (copy: Self)
        ensures
            copy@ == self@,
    {
        match self {
            ServiceError::SpawnFailed(reason) => ServiceError::SpawnFailed(reason.clone()),
            ServiceError::TerminateFailed(reason) => ServiceError::TerminateFailed(reason.clone()),
        }
    }
}

impl ServiceError {
    /// The reason carried, whatever the variant.
    pub fn reason(&self) -> (reason: &String)
        ensures
            reason@ == self@.reason(),
    {
        match self {
            ServiceError::SpawnFailed(reason) => reason,
            ServiceError::TerminateFailed(reason) => reason,
        }
    }

    /// Gives up the error for the reason it carries.
    pub fn into_reason(self) -> (reason: String)
        ensures
            reason@ == self@.reason(),
    {
        match self {
            ServiceError::SpawnFailed(reason) => reason,
            ServiceError::TerminateFailed(reason) => reason,
        }
    }
}

} // verus!
