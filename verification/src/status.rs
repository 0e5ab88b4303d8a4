//! The lifecycle status of the supervised service.

use vstd::prelude::*;

verus! {

/// Where the supervised service stands in its lifecycle.
///
/// Exactly one variant holds at a time. `Error` carries the reason of the
/// launch that failed last.
#[derive(Debug, PartialEq, Eq)]
pub enum ServiceStatus {
    Stopped,
    Starting,
    Running,
    Stopping,
    Error(String),
}

/// Mathematical model of a [`ServiceStatus`]: the same variants, with the
/// reason of a failure as a sequence of characters.
pub ghost enum StatusView {
    Stopped,
    Starting,
    Running,
    Stopping,
    Error(Seq<char>),
}

impl View for ServiceStatus {
    type V = StatusView;

    open spec fn view(&self) -> StatusView {
        match self {
            ServiceStatus::Stopped => StatusView::Stopped,
            ServiceStatus::Starting => StatusView::Starting,
            ServiceStatus::Running => StatusView::Running,
            ServiceStatus::Stopping => StatusView::Stopping,
            ServiceStatus::Error(reason) => StatusView::Error(reason@),
        }
    }
}

impl Clone for ServiceStatus {
    fn clone(&self) -> (copy: Self)
        ensures
            copy@ == self@,
    {
        match self {
            ServiceStatus::Stopped => ServiceStatus::Stopped,
            ServiceStatus::Starting => ServiceStatus::Starting,
            ServiceStatus::Running => ServiceStatus::Running,
            ServiceStatus::Stopping => ServiceStatus::Stopping,
            ServiceStatus::Error(reason) => ServiceStatus::Error(reason.clone()),
        }
    }
}

impl ServiceStatus {
    /// Whether the service is up.
    pub fn is_running(&self) -> (running: bool)
        ensures
            running == (self@ is Running),
    {
        match self {
            ServiceStatus::Running => true,
            _ => false,
        }
    }
}

} // verus!
