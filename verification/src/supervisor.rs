//! The supervisor of the service process.
//!
//! A [`ServiceSupervisor`] owns the status of the service and the handle of
//! its process as one value. Every operation takes it by `&mut`, so a check
//! and the act that follows it are never parted, and a caller that shares
//! the supervisor among threads keeps it behind one lock.
//!
//! The supervisor does not launch or terminate a process itself. A whole
//! request ([`ServiceSupervisor::start`], [`ServiceSupervisor::stop`]) is
//! handed the primitive to call; a caller that cannot hand one over drives
//! the two halves of a request itself.

use vstd::prelude::*;
use crate::error::ServiceError;
use crate::model::launch_view;
use crate::model::reply_view;
use crate::model::terminate_view;
use crate::model::SupervisorView;
use crate::status::ServiceStatus;
use crate::text::ALREADY_RUNNING;
use crate::text::NOT_RUNNING;
use crate::text::SERVICE_STARTED;
use crate::text::SERVICE_STOPPED;

verus! {

/// Owner of the service's status and of the handle of its process.
///
/// `H` is the handle of a live process. The supervisor never copies it: a
/// handle enters with a launch that succeeded and leaves with a
/// termination.
pub struct ServiceSupervisor<H> {
    status: ServiceStatus,
    process: Option<H>,
}

impl<H> View for ServiceSupervisor<H> {
    type V = SupervisorView<H>;

    closed spec fn view(&self) -> SupervisorView<H> {
        SupervisorView { status: self.status@, process: self.process }
    }
}

impl<H> ServiceSupervisor<H> {
    #[verifier::type_invariant]
    spec fn holds_process_iff_running(self) -> bool {
        self@.wf()
    }

    /// A supervisor of a service that has not been started.
    pub fn new() -> (fresh: Self)
        ensures
            fresh@ == SupervisorView::<H>::initial(),
    {
        ServiceSupervisor { status: ServiceStatus::Stopped, process: None }
    }

    /// A copy of the current status. The handle stays inside.
    pub fn status(&self) -> (current: ServiceStatus)
        ensures
            current@ == self@.status,
            self@.wf(),
    {
        proof {
            use_type_invariant(self);
        }
        self.status.clone()
    }

    /// Whether the service is up.
    pub fn is_running(&self) -> (running: bool)
        ensures
            running == (self@.status is Running),
            self@.wf(),
    {
        proof {
            use_type_invariant(self);
        }
        self.status.is_running()
    }

    /// Whether a process is held.
    pub fn holds_process(&self) -> (held: bool)
        ensures
            held == (self@.process is Some),
            self@.wf(),
    {
        proof {
            use_type_invariant(self);
        }
        self.process.is_some()
    }

    /// First half of a start request: says whether a process is to be
    /// launched, and if so moves to `Starting`. The caller launches it and
    /// reports with [`Self::finish_start`].
    pub fn begin_start(&mut self) -> (launch: bool)
        ensures
            launch == old(self)@.launches(),
            final(self)@ == old(self)@.begin_start(),
            final(self)@.wf(),
    {
        proof {
            use_type_invariant(&*self);
        }
        if self.status.is_running() {
            false
        } else {
            self.status = ServiceStatus::Starting;
            true
        }
    }

    /// Second half of a start request: takes in how the launch ended. A
    /// handle is kept and the service counts as running; a failure is
    /// recorded in the status and returned, and no handle is kept.
    pub fn finish_start(&mut self, outcome: Result<H, String>) -> (reply: Result<
        String,
        ServiceError,
    >)
        requires
            old(self)@.status is Starting,
        ensures
            final(self)@ == old(self)@.finish_start(launch_view(outcome)),
            reply_view(reply) == SupervisorView::<H>::launch_reply(launch_view(outcome)),
            final(self)@.wf(),
    {
        match outcome {
            Ok(handle) => {
                *self = ServiceSupervisor { status: ServiceStatus::Running, process: Some(handle) };
                Ok(SERVICE_STARTED.to_owned())
            },
            Err(reason) => {
                *self = ServiceSupervisor {
                    status: ServiceStatus::Error(reason.clone()),
                    process: None,
                };
                Err(ServiceError::SpawnFailed(reason))
            },
        }
    }

    /// Starts the service, launching its process with `launch`.
    ///
    /// A running service is left alone and `launch` is not called. Else the
    /// status is `Starting` while `launch` runs, and what `launch` returns
    /// decides the rest as in [`Self::finish_start`].
    pub fn start<L: FnOnce() -> Result<H, String>>(&mut self, launch: L) -> (reply: Result<
        String,
        ServiceError,
    >)
        requires
            old(self)@.launches() ==> call_requires(launch, ()),
        ensures
            old(self)@.start_yields(launch, final(self)@, reply_view(reply)),
            final(self)@.wf(),
    {
        if self.begin_start() {
            let outcome = launch();
            self.finish_start(outcome)
        } else {
            Ok(ALREADY_RUNNING.to_owned())
        }
    }

    /// First half of a stop request: hands out the process to terminate, if
    /// one is held, and moves to `Stopping`. The caller terminates it and
    /// reports with [`Self::finish_stop`].
    pub fn begin_stop(&mut self) -> (handle: Option<H>)
        ensures
            handle == old(self)@.process,
            final(self)@ == old(self)@.begin_stop(),
            final(self)@.wf(),
    {
        proof {
            use_type_invariant(&*self);
        }
        if self.process.is_none() {
            return None;
        }
        let mut held = ServiceSupervisor { status: ServiceStatus::Stopping, process: None };
        core::mem::swap(self, &mut held);
        held.process
    }

    /// Second half of a stop request: takes in how the termination ended.
    /// After a success the service is stopped. After a failure the process
    /// was not seen to end: its handle is held again, the service counts as
    /// running, and the failure is returned.
    pub fn finish_stop(&mut self, outcome: Result<(), (H, String)>) -> (reply: Result<
        String,
        ServiceError,
    >)
        requires
            old(self)@.status is Stopping,
        ensures
            final(self)@ == old(self)@.finish_stop(terminate_view(outcome)),
            reply_view(reply) == SupervisorView::<H>::terminate_reply(terminate_view(outcome)),
            final(self)@.wf(),
    {
        match outcome {
            Ok(_) => {
                *self = ServiceSupervisor { status: ServiceStatus::Stopped, process: None };
                Ok(SERVICE_STOPPED.to_owned())
            },
            Err(failure) => {
                *self = ServiceSupervisor {
                    status: ServiceStatus::Running,
                    process: Some(failure.0),
                };
                Err(ServiceError::TerminateFailed(failure.1))
            },
        }
    }

    /// Stops the service, terminating its process with `terminate`.
    ///
    /// Without a process nothing changes and `terminate` is not called.
    /// Else the process is handed to `terminate` while the status is
    /// `Stopping`, and what `terminate` returns decides the rest as in
    /// [`Self::finish_stop`].
    pub fn stop<T: FnOnce(H) -> Result<(), (H, String)>>(&mut self, terminate: T) -> (reply:
        Result<String, ServiceError>)
        requires
            old(self)@.process matches Some(handle) ==> call_requires(terminate, (handle,)),
        ensures
            old(self)@.stop_yields(terminate, final(self)@, reply_view(reply)),
            final(self)@.wf(),
    {
        match self.begin_stop() {
            Some(handle) => {
                let outcome = terminate(handle);
                self.finish_stop(outcome)
            },
            None => Ok(NOT_RUNNING.to_owned()),
        }
    }
}

} // verus!
