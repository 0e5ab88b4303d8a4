//! The supervisor as a state machine over mathematical values.
//!
//! A state is a status paired with the process handle held, if any. The
//! transitions take the answer of the system (did the launch succeed, did
//! the termination succeed) as an argument, so each is a function.

use vstd::prelude::*;
use crate::error::ErrorView;
use crate::error::ServiceError;
use crate::status::StatusView;
use crate::text::ALREADY_RUNNING;
use crate::text::NOT_RUNNING;
use crate::text::SERVICE_STARTED;
use crate::text::SERVICE_STOPPED;

verus! {

/// State of a supervisor whose process handles are of type `H`.
pub ghost struct SupervisorView<H> {
    pub status: StatusView,
    pub process: Option<H>,
}

/// How a launch ended, as the supervisor is told: the handle of the new
/// process, or the reason of the failure.
pub open spec fn launch_view<H>(outcome: Result<H, String>) -> Result<H, Seq<char>> {
    match outcome {
        Ok(handle) => Ok(handle),
        Err(reason) => Err(reason@),
    }
}

/// How a termination ended, as the supervisor is told: nothing on success,
/// else the handle of the process that lives on and the reason.
pub open spec fn terminate_view<H>(outcome: Result<(), (H, String)>) -> Result<
    (),
    (H, Seq<char>),
> {
    match outcome {
        Ok(_) => Ok(()),
        Err(failure) => Err((failure.0, failure.1@)),
    }
}

/// What an operation answers, as mathematical values.
pub open spec fn reply_view(reply: Result<String, ServiceError>) -> Result<Seq<char>, ErrorView> {
    match reply {
        Ok(message) => Ok(message@),
        Err(error) => Err(error@),
    }
}

impl<H> SupervisorView<H> {
    /// The state in which every supervisor begins: stopped, with no process.
    pub open spec fn initial() -> Self {
        SupervisorView { status: StatusView::Stopped, process: None }
    }

    /// A process is held exactly while the status is `Running`.
    pub open spec fn wf(self) -> bool {
        self.process is Some <==> self.status is Running
    }

    /// Whether a start request launches a process in this state.
    pub open spec fn launches(self) -> bool {
        !(self.status is Running)
    }

    /// The state in which the launch is awaited. A running supervisor is
    /// left as it is.
    pub open spec fn begin_start(self) -> Self {
        if self.launches() {
            SupervisorView { status: StatusView::Starting, process: self.process }
        } else {
            self
        }
    }

    /// The state after a launch that ended with `outcome`.
    pub open spec fn finish_start(self, outcome: Result<H, Seq<char>>) -> Self {
        match outcome {
            Ok(handle) => SupervisorView { status: StatusView::Running, process: Some(handle) },
            Err(reason) => SupervisorView { status: StatusView::Error(reason), process: None },
        }
    }

    /// What a start request answers once its launch has ended with `outcome`.
    pub open spec fn launch_reply(outcome: Result<H, Seq<char>>) -> Result<Seq<char>, ErrorView> {
        match outcome {
            Ok(_) => Ok(SERVICE_STARTED@),
            Err(reason) => Err(ErrorView::SpawnFailed(reason)),
        }
    }

    /// The state after a whole start request. `outcome` is how the launch
    /// ends, should the request make one.
    pub open spec fn start(self, outcome: Result<H, Seq<char>>) -> Self {
        if self.launches() {
            self.begin_start().finish_start(outcome)
        } else {
            self
        }
    }

    /// Whether a start request that launches with `launch` can lead from
    /// this state to `post` and answer `reply`: `launch` is called only
    /// where a process is to be launched, and what it returned decides.
    pub open spec fn start_yields<L: FnOnce() -> Result<H, String>>(
        self,
        launch: L,
        post: Self,
        reply: Result<Seq<char>, ErrorView>,
    ) -> bool {
        if self.launches() {
            exists|outcome: Result<H, String>|
                #![trigger call_ensures(launch, (), outcome)]
                call_ensures(launch, (), outcome) && post == self.start(launch_view(outcome))
                    && reply == self.start_reply(launch_view(outcome))
        } else {
            post == self && reply == Ok::<Seq<char>, ErrorView>(ALREADY_RUNNING@)
        }
    }

    /// What a whole start request answers.
    pub open spec fn start_reply(self, outcome: Result<H, Seq<char>>) -> Result<
        Seq<char>,
        ErrorView,
    > {
        if self.launches() {
            Self::launch_reply(outcome)
        } else {
            Ok(ALREADY_RUNNING@)
        }
    }

    /// Whether a stop request terminates a process in this state.
    pub open spec fn terminates(self) -> bool {
        self.process is Some
    }

    /// The state in which the termination is awaited: the handle has left
    /// the supervisor. Without a process the state is left as it is.
    pub open spec fn begin_stop(self) -> Self {
        if self.terminates() {
            SupervisorView { status: StatusView::Stopping, process: None }
        } else {
            self
        }
    }

    /// The state after a termination that ended with `outcome`. A process
    /// that could not be terminated is held again, and counts as running.
    pub open spec fn finish_stop(self, outcome: Result<(), (H, Seq<char>)>) -> Self {
        match outcome {
            Ok(_) => SupervisorView { status: StatusView::Stopped, process: None },
            Err(failure) => SupervisorView {
                status: StatusView::Running,
                process: Some(failure.0),
            },
        }
    }

    /// What a stop request answers once its termination has ended with
    /// `outcome`.
    pub open spec fn terminate_reply(outcome: Result<(), (H, Seq<char>)>) -> Result<
        Seq<char>,
        ErrorView,
    > {
        match outcome {
            Ok(_) => Ok(SERVICE_STOPPED@),
            Err(failure) => Err(ErrorView::TerminateFailed(failure.1)),
        }
    }

    /// The state after a whole stop request. `outcome` is how the
    /// termination ends, should the request make one.
    pub open spec fn stop(self, outcome: Result<(), (H, Seq<char>)>) -> Self {
        if self.terminates() {
            self.begin_stop().finish_stop(outcome)
        } else {
            self
        }
    }

    /// Whether a stop request that terminates with `terminate` can lead
    /// from this state to `post` and answer `reply`: `terminate` is called
    /// only on a process that is held, and what it returned decides.
    pub open spec fn stop_yields<T: FnOnce(H) -> Result<(), (H, String)>>(
        self,
        terminate: T,
        post: Self,
        reply: Result<Seq<char>, ErrorView>,
    ) -> bool {
        match self.process {
            Some(handle) => exists|outcome: Result<(), (H, String)>|
                #![trigger call_ensures(terminate, (handle,), outcome)]
                call_ensures(terminate, (handle,), outcome) && post == self.stop(
                    terminate_view(outcome),
                ) && reply == self.stop_reply(terminate_view(outcome)),
            None => post == self && reply == Ok::<Seq<char>, ErrorView>(NOT_RUNNING@),
        }
    }

    /// What a whole stop request answers.
    pub open spec fn stop_reply(self, outcome: Result<(), (H, Seq<char>)>) -> Result<
        Seq<char>,
        ErrorView,
    > {
        if self.terminates() {
            Self::terminate_reply(outcome)
        } else {
            Ok(NOT_RUNNING@)
        }
    }
}

} // verus!
