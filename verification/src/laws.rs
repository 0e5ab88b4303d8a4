//! What holds of the supervisor's state machine and of the presenter,
//! proved over their models.
//!
//! The supervisor is reached through `&mut` only, so requests never
//! overlap: whatever the callers and their threads, the requests take
//! effect one after another. A run of requests is therefore modelled as a
//! sequence.

use vstd::prelude::*;
use crate::error::ErrorView;
use crate::model::terminate_view;
use crate::model::SupervisorView;
use crate::presenter::handled;
use crate::presenter::Request;
use crate::presenter::TrayDisplayView;
use crate::presenter::TrayEvent;
use crate::status::StatusView;
use crate::text::ALREADY_RUNNING;
use crate::text::NOT_RUNNING;
use crate::text::SERVICE_STARTED;
use crate::text::SERVICE_STOPPED;

verus! {

impl<H> SupervisorView<H> {
    /// The state after a run of start requests. The request at position `i`
    /// finds `outcomes[i]` if it launches a process.
    pub open spec fn start_all(self, outcomes: Seq<Result<H, Seq<char>>>) -> Self
        decreases outcomes.len(),
    {
        if outcomes.len() == 0 {
            self
        } else {
            self.start(outcomes.first()).start_all(outcomes.drop_first())
        }
    }

    /// How many requests of a run of start requests try to launch a process.
    pub open spec fn launch_attempts(self, outcomes: Seq<Result<H, Seq<char>>>) -> nat
        decreases outcomes.len(),
    {
        if outcomes.len() == 0 {
            0
        } else {
            let here: nat = if self.launches() {
                1
            } else {
                0
            };
            here + self.start(outcomes.first()).launch_attempts(outcomes.drop_first())
        }
    }

    /// How many processes a run of start requests brings to life.
    pub open spec fn processes_launched(self, outcomes: Seq<Result<H, Seq<char>>>) -> nat
        decreases outcomes.len(),
    {
        if outcomes.len() == 0 {
            0
        } else {
            let here: nat = if self.launches() && outcomes.first() is Ok {
                1
            } else {
                0
            };
            here + self.start(outcomes.first()).processes_launched(outcomes.drop_first())
        }
    }
}

/// Every transition keeps the invariant: a process is held exactly while
/// the status is `Running`. The halves of a request keep it too, so it
/// holds while a launch or a termination is awaited.
pub proof fn law_transitions_keep_invariant<H>(
    state: SupervisorView<H>,
    launched: Result<H, Seq<char>>,
    terminated: Result<(), (H, Seq<char>)>,
)
    requires
        state.wf(),
    ensures
        SupervisorView::<H>::initial().wf(),
        state.begin_start().wf(),
        state.finish_start(launched).wf(),
        state.start(launched).wf(),
        state.begin_stop().wf(),
        state.finish_stop(terminated).wf(),
        state.stop(terminated).wf(),
{
}

/// A second start request, with no stop request between, changes nothing:
/// where the first left the service running, the second launches no
/// process, leaves the state with its one held process as it is, and
/// answers with the message of a running service.
pub proof fn law_start_is_idempotent<H>(
    state: SupervisorView<H>,
    first: Result<H, Seq<char>>,
    second: Result<H, Seq<char>>,
)
    requires
        state.wf(),
        state.start(first).status is Running,
    ensures
        state.start(first).process is Some,
        !state.start(first).launches(),
        state.start(first).start(second) == state.start(first),
        state.start(first).start_reply(second) == Ok::<Seq<char>, ErrorView>(ALREADY_RUNNING@),
{
}

/// A stop request that finds no process held terminates nothing, leaves the
/// state as it is, and answers with the message of a service that is not
/// running. From the initial state the status stays `Stopped`.
pub proof fn law_stop_without_process_changes_nothing<H>(
    state: SupervisorView<H>,
    outcome: Result<(), (H, Seq<char>)>,
)
    requires
        state.process is None,
    ensures
        !state.terminates(),
        state.stop(outcome) == state,
        state.stop_reply(outcome) == Ok::<Seq<char>, ErrorView>(NOT_RUNNING@),
        SupervisorView::<H>::initial().stop(outcome).status is Stopped,
{
}

/// A start request whose launch fails keeps no handle: the status records
/// the reason, the failure is returned, and the next start request
/// launches again and, if that launch succeeds, holds its process.
pub proof fn law_failed_start_keeps_no_handle<H>(
    state: SupervisorView<H>,
    reason: Seq<char>,
    handle: H,
)
    requires
        state.wf(),
        state.launches(),
    ensures
        state.start(Err(reason)).process is None,
        state.start(Err(reason)).status == StatusView::Error(reason),
        state.start_reply(Err(reason)) == Err::<Seq<char>, ErrorView>(
            ErrorView::SpawnFailed(reason),
        ),
        state.start(Err(reason)).launches(),
        state.start(Err(reason)).start(Ok(handle)) == (SupervisorView {
            status: StatusView::Running,
            process: Some(handle),
        }),
        state.start(Err(reason)).start_reply(Ok(handle)) == Ok::<Seq<char>, ErrorView>(
            SERVICE_STARTED@,
        ),
{
}

/// A stop request whose termination fails loses nothing: the process that
/// was handed out is held again, the service counts as running, and the
/// failure is returned.
pub proof fn law_failed_stop_keeps_process<H>(
    state: SupervisorView<H>,
    survivor: H,
    reason: Seq<char>,
)
    requires
        state.wf(),
        state.terminates(),
    ensures
        state.stop(Err((survivor, reason))) == (SupervisorView {
            status: StatusView::Running,
            process: Some(survivor),
        }),
        state.stop_reply(Err((survivor, reason))) == Err::<Seq<char>, ErrorView>(
            ErrorView::TerminateFailed(reason),
        ),
{
}

/// The full round trip: a start request whose launch succeeds leaves the
/// service running with the new process held, and a stop request whose
/// termination succeeds then leaves it stopped with no process held.
pub proof fn law_round_trip<H>(state: SupervisorView<H>, handle: H)
    requires
        state.wf(),
        state.launches(),
    ensures
        state.start(Ok(handle)) == (SupervisorView {
            status: StatusView::Running,
            process: Some(handle),
        }),
        state.start_reply(Ok(handle)) == Ok::<Seq<char>, ErrorView>(SERVICE_STARTED@),
        state.start(Ok(handle)).stop(Ok(())) == (SupervisorView::<H> {
            status: StatusView::Stopped,
            process: None,
        }),
        state.start(Ok(handle)).stop_reply(Ok(())) == Ok::<Seq<char>, ErrorView>(
            SERVICE_STOPPED@,
        ),
{
}

/// A run of start requests on a running service launches nothing and
/// leaves the state as it is.
pub proof fn law_running_service_ignores_starts<H>(
    state: SupervisorView<H>,
    outcomes: Seq<Result<H, Seq<char>>>,
)
    requires
        !state.launches(),
    ensures
        state.start_all(outcomes) == state,
        state.launch_attempts(outcomes) == 0,
        state.processes_launched(outcomes) == 0,
    decreases outcomes.len(),
{
    if outcomes.len() > 0 {
        law_running_service_ignores_starts(state, outcomes.drop_first());
    }
}

/// However many start requests are made, and however their launches end,
/// at most one process is brought to life. From a service that is not
/// running, one is brought to life exactly if the run ends with the
/// service running.
pub proof fn law_starts_launch_at_most_one_process<H>(
    state: SupervisorView<H>,
    outcomes: Seq<Result<H, Seq<char>>>,
)
    requires
        state.wf(),
    ensures
        state.start_all(outcomes).wf(),
        state.processes_launched(outcomes) <= 1,
        state.launches() ==> (state.processes_launched(outcomes) == 1 <==> state.start_all(
            outcomes,
        ).status is Running),
    decreases outcomes.len(),
{
    if outcomes.len() > 0 {
        let next = state.start(outcomes.first());
        if next.launches() {
            law_starts_launch_at_most_one_process(next, outcomes.drop_first());
        } else {
            law_running_service_ignores_starts(next, outcomes.drop_first());
        }
    }
}

/// Mutual exclusion of start requests: of one or more start requests on a
/// service that is not running, each with a launch that would succeed,
/// exactly one launches a process, the first. That process is the one
/// held at the end, and the service is running.
pub proof fn law_many_starts_spawn_once<H>(
    state: SupervisorView<H>,
    outcomes: Seq<Result<H, Seq<char>>>,
)
    requires
        state.wf(),
        state.launches(),
        outcomes.len() >= 1,
        forall|i: int| 0 <= i < outcomes.len() ==> outcomes[i] is Ok,
    ensures
        state.launch_attempts(outcomes) == 1,
        state.processes_launched(outcomes) == 1,
        state.start_all(outcomes) == (SupervisorView {
            status: StatusView::Running,
            process: Some(outcomes[0]->Ok_0),
        }),
{
    law_running_service_ignores_starts(state.start(outcomes.first()), outcomes.drop_first());
}

/// Whatever the status, the tray enables exactly one of its two controls:
/// stop while the service is running, start otherwise.
pub proof fn law_display_enables_one_control(status: StatusView)
    ensures
        TrayDisplayView::of(status).start_enabled != TrayDisplayView::of(status).stop_enabled,
        TrayDisplayView::of(status).stop_enabled == (status is Running),
{
}

/// A click on the tray icon is no request of its own: it asks what a click
/// on stop asks while the service is running, and what a click on start
/// asks otherwise. Neither asks for what the state already is.
pub proof fn law_icon_click_stands_for_start_or_stop(running: bool)
    ensures
        running ==> TrayEvent::Toggle.request_for(running) == TrayEvent::Stop.request_for(running),
        !running ==> TrayEvent::Toggle.request_for(running) == TrayEvent::Start.request_for(
            running,
        ),
        TrayEvent::Start.request_for(true) == Request::Nothing,
        TrayEvent::Stop.request_for(false) == Request::Nothing,
{
}

/// Copying the address, showing the about text and a click that means
/// nothing leave the supervisor as it is.
pub proof fn law_passive_events_leave_the_state<H, L, T>(
    pre: SupervisorView<H>,
    event: TrayEvent,
    launch: L,
    terminate: T,
    post: SupervisorView<H>,
) where L: FnOnce() -> Result<H, String>, T: FnOnce(H) -> Result<(), (H, String)>
    requires
        event == TrayEvent::Copy || event == TrayEvent::About || event == TrayEvent::Other,
        handled(pre, event, launch, terminate, post),
    ensures
        post == pre,
{
}

/// Quit stops the service before the application is told to exit: a
/// process that is held is handed to the terminating primitive, and what
/// that returned decides the state. Where the primitive cannot fail, no
/// process is held afterwards.
pub proof fn law_quit_terminates_the_held_process<H, L, T>(
    pre: SupervisorView<H>,
    held: H,
    launch: L,
    terminate: T,
    post: SupervisorView<H>,
) where L: FnOnce() -> Result<H, String>, T: FnOnce(H) -> Result<(), (H, String)>
    requires
        pre.process == Some(held),
        handled(pre, TrayEvent::Quit, launch, terminate, post),
    ensures
        exists|outcome: Result<(), (H, String)>|
            #![trigger call_ensures(terminate, (held,), outcome)]
            call_ensures(terminate, (held,), outcome) && post == pre.stop(terminate_view(outcome)),
        (forall|outcome: Result<(), (H, String)>|
            call_ensures(terminate, (held,), outcome) ==> outcome is Ok) ==> post == (
        SupervisorView::<H> { status: StatusView::Stopped, process: None }),
{
}

} // verus!
