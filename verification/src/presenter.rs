//! The tray presenter: what the tray shows for a status, and what a click
//! asks of the supervisor.
//!
//! The presenter owns no lifecycle of its own. What it shows is a function
//! of the supervisor's status, taken anew after every event, so the tray
//! never shows a state that the supervisor did not reach.

use vstd::prelude::*;
use crate::model::SupervisorView;
use crate::status::ServiceStatus;
use crate::status::StatusView;
use crate::supervisor::ServiceSupervisor;
use crate::text::ABOUT_TEXT;
use crate::text::MENU_ABOUT;
use crate::text::MENU_COPY;
use crate::text::MENU_QUIT;
use crate::text::MENU_START;
use crate::text::MENU_STOP;
use crate::text::SERVICE_ADDRESS;
use crate::text::STATUS_LINE_RUNNING;
use crate::text::STATUS_LINE_STOPPED;
use crate::text::TOOLTIP_RUNNING;
use crate::text::TOOLTIP_STOPPED;

verus! {

/// What the tray shows: which of the two controls can be clicked, the
/// status line of the menu, and the tooltip of the icon.
#[derive(Debug, PartialEq, Eq)]
pub struct TrayDisplay {
    pub start_enabled: bool,
    pub stop_enabled: bool,
    pub status_line: String,
    pub tooltip: String,
}

/// Mathematical model of a [`TrayDisplay`].
pub ghost struct TrayDisplayView {
    pub start_enabled: bool,
    pub stop_enabled: bool,
    pub status_line: Seq<char>,
    pub tooltip: Seq<char>,
}

impl TrayDisplayView {
    /// What the tray shows of a service that is up, or is not.
    pub open spec fn for_running(running: bool) -> Self {
        TrayDisplayView {
            start_enabled: !running,
            stop_enabled: running,
            status_line: if running {
                STATUS_LINE_RUNNING@
            } else {
                STATUS_LINE_STOPPED@
            },
            tooltip: if running {
                TOOLTIP_RUNNING@
            } else {
                TOOLTIP_STOPPED@
            },
        }
    }

    /// What the tray shows for a status. Only `Running` shows as up.
    pub open spec fn of(status: StatusView) -> Self {
        Self::for_running(status is Running)
    }
}

impl View for TrayDisplay {
    type V = TrayDisplayView;

    open spec fn view(&self) -> TrayDisplayView {
        TrayDisplayView {
            start_enabled: self.start_enabled,
            stop_enabled: self.stop_enabled,
            status_line: self.status_line@,
            tooltip: self.tooltip@,
        }
    }
}

impl TrayDisplay {
    /// What the tray shows of a service that is up, or is not. Exactly one
    /// of the two controls is enabled.
    pub fn for_running(running: bool) -> (display: Self)
        ensures
            display@ == TrayDisplayView::for_running(running),
            display.start_enabled != display.stop_enabled,
    {
        if running {
            TrayDisplay {
                start_enabled: false,
                stop_enabled: true,
                status_line: STATUS_LINE_RUNNING.to_owned(),
                tooltip: TOOLTIP_RUNNING.to_owned(),
            }
        } else {
            TrayDisplay {
                start_enabled: true,
                stop_enabled: false,
                status_line: STATUS_LINE_STOPPED.to_owned(),
                tooltip: TOOLTIP_STOPPED.to_owned(),
            }
        }
    }

    /// What the tray shows for a status.
    pub fn for_status(status: &ServiceStatus) -> (display: Self)
        ensures
            display@ == TrayDisplayView::of(status@),
            display.start_enabled != display.stop_enabled,
    {
        Self::for_running(status.is_running())
    }
}

/// What the user did to the tray.
#[derive(Clone, Copy, Debug, PartialEq, Eq, Structural)]
pub enum TrayEvent {
    /// The start entry of the menu was clicked.
    Start,
    /// The stop entry of the menu was clicked.
    Stop,
    /// The tray icon was clicked: it stands for whichever of start and stop
    /// applies.
    Toggle,
    /// The entry that copies the service address was clicked.
    Copy,
    /// The about entry was clicked.
    About,
    /// The quit entry was clicked.
    Quit,
    /// Anything else, such as a click on the status line.
    Other,
}

/// What an event asks of the supervisor.
#[derive(Clone, Copy, Debug, PartialEq, Eq, Structural)]
pub enum Request {
    Start,
    Stop,
    Nothing,
}

/// What is left for the application to do once an event has been handled.
#[derive(Debug, PartialEq, Eq)]
pub enum Effect {
    /// Nothing.
    Nothing,
    /// Put this text on the clipboard.
    CopyToClipboard(String),
    /// Show this text about the application.
    ShowAbout(String),
    /// End the application.
    Exit,
}

/// Mathematical model of an [`Effect`].
pub ghost enum EffectView {
    Nothing,
    CopyToClipboard(Seq<char>),
    ShowAbout(Seq<char>),
    Exit,
}

impl View for Effect {
    type V = EffectView;

    open spec fn view(&self) -> EffectView {
        match self {
            Effect::Nothing => EffectView::Nothing,
            Effect::CopyToClipboard(text) => EffectView::CopyToClipboard(text@),
            Effect::ShowAbout(text) => EffectView::ShowAbout(text@),
            Effect::Exit => EffectView::Exit,
        }
    }
}

/// Whether two texts are the same.
fn same_text(left: &str, right: &str) -> (same: bool)
    ensures
        same == (left@ == right@),
{
    left.to_owned() == right.to_owned()
}

impl TrayEvent {
    /// The event that a click on the menu entry of this identity stands
    /// for. An identity that is none of the five is `Other`.
    pub open spec fn of_menu_id(id: Seq<char>) -> TrayEvent {
        if id == MENU_START@ {
            TrayEvent::Start
        } else if id == MENU_STOP@ {
            TrayEvent::Stop
        } else if id == MENU_COPY@ {
            TrayEvent::Copy
        } else if id == MENU_ABOUT@ {
            TrayEvent::About
        } else if id == MENU_QUIT@ {
            TrayEvent::Quit
        } else {
            TrayEvent::Other
        }
    }

    /// What this event asks of a supervisor whose service is up, or is not.
    ///
    /// Start asks only where the service is not up, and stop only where it
    /// is. A click on the icon asks for the one that applies. Quit asks for
    /// a stop whatever the status.
    pub open spec fn request_for(self, running: bool) -> Request {
        match self {
            TrayEvent::Start => if running {
                Request::Nothing
            } else {
                Request::Start
            },
            TrayEvent::Stop => if running {
                Request::Stop
            } else {
                Request::Nothing
            },
            TrayEvent::Toggle => if running {
                Request::Stop
            } else {
                Request::Start
            },
            TrayEvent::Quit => Request::Stop,
            TrayEvent::Copy => Request::Nothing,
            TrayEvent::About => Request::Nothing,
            TrayEvent::Other => Request::Nothing,
        }
    }

    /// What this event leaves for the application to do.
    pub open spec fn effect_of(self) -> EffectView {
        match self {
            TrayEvent::Copy => EffectView::CopyToClipboard(SERVICE_ADDRESS@),
            TrayEvent::About => EffectView::ShowAbout(ABOUT_TEXT@),
            TrayEvent::Quit => EffectView::Exit,
            TrayEvent::Start => EffectView::Nothing,
            TrayEvent::Stop => EffectView::Nothing,
            TrayEvent::Toggle => EffectView::Nothing,
            TrayEvent::Other => EffectView::Nothing,
        }
    }

    /// The event that a click on the menu entry of this identity stands for.
    pub fn from_menu_id(id: &str) -> (event: TrayEvent)
        ensures
            event == TrayEvent::of_menu_id(id@),
    {
        if same_text(id, MENU_START) {
            TrayEvent::Start
        } else if same_text(id, MENU_STOP) {
            TrayEvent::Stop
        } else if same_text(id, MENU_COPY) {
            TrayEvent::Copy
        } else if same_text(id, MENU_ABOUT) {
            TrayEvent::About
        } else if same_text(id, MENU_QUIT) {
            TrayEvent::Quit
        } else {
            TrayEvent::Other
        }
    }

    /// What this event asks of a supervisor whose service is up, or is not.
    pub fn request(self, running: bool) -> (request: Request)
        ensures
            request == self.request_for(running),
    {
        match self {
            TrayEvent::Start => if running {
                Request::Nothing
            } else {
                Request::Start
            },
            TrayEvent::Stop => if running {
                Request::Stop
            } else {
                Request::Nothing
            },
            TrayEvent::Toggle => if running {
                Request::Stop
            } else {
                Request::Start
            },
            TrayEvent::Quit => Request::Stop,
            _ => Request::Nothing,
        }
    }

    /// What this event leaves for the application to do.
    pub fn effect(self) -> (effect: Effect)
        ensures
            effect@ == self.effect_of(),
    {
        match self {
            TrayEvent::Copy => Effect::CopyToClipboard(SERVICE_ADDRESS.to_owned()),
            TrayEvent::About => Effect::ShowAbout(ABOUT_TEXT.to_owned()),
            TrayEvent::Quit => Effect::Exit,
            _ => Effect::Nothing,
        }
    }
}

/// The presenter of the tray. It holds what the tray currently shows.
pub struct TrayPresenter {
    shown: TrayDisplay,
}

impl View for TrayPresenter {
    type V = TrayDisplayView;

    closed spec fn view(&self) -> TrayDisplayView {
        self.shown@
    }
}

impl TrayPresenter {
    /// The presenter of a tray whose service has not been started.
    pub fn new() -> (fresh: Self)
        ensures
            fresh@ == TrayDisplayView::of(StatusView::Stopped),
    {
        TrayPresenter { shown: TrayDisplay::for_running(false) }
    }

    /// What the tray currently shows.
    pub fn display(&self) -> (shown: &TrayDisplay)
        ensures
            shown@ == self@,
    {
        &self.shown
    }

    /// Shows the given status.
    pub fn refresh(&mut self, status: &ServiceStatus)
        ensures
            final(self)@ == TrayDisplayView::of(status@),
    {
        self.shown = TrayDisplay::for_status(status);
    }

    /// Handles one event: asks of the supervisor what the event stands for,
    /// then shows the status that the supervisor has reached, whatever the
    /// request came to, and returns what is left to do.
    ///
    /// The check of the status and the request that follows from it are
    /// made on the one `supervisor` borrowed, with nothing between them.
    /// The answer of the supervisor is dropped: the tray tells by the status
    /// alone.
    pub fn handle<H, L, T>(
        &mut self,
        supervisor: &mut ServiceSupervisor<H>,
        event: TrayEvent,
        launch: L,
        terminate: T,
    ) -> (effect: Effect) where
        L: FnOnce() -> Result<H, String>,
        T: FnOnce(H) -> Result<(), (H, String)>,

        requires
            event.request_for(old(supervisor)@.status is Running) is Start ==> call_requires(
                launch,
                (),
            ),
            event.request_for(old(supervisor)@.status is Running) is Stop ==> (old(
                supervisor,
            )@.process matches Some(handle) ==> call_requires(terminate, (handle,))),
        ensures
            handled(old(supervisor)@, event, launch, terminate, final(supervisor)@),
            final(supervisor)@.wf(),
            final(self)@ == TrayDisplayView::of(final(supervisor)@.status),
            effect@ == event.effect_of(),
    {
        match event.request(supervisor.is_running()) {
            Request::Start => {
                let _ = supervisor.start(launch);
            },
            Request::Stop => {
                let _ = supervisor.stop(terminate);
            },
            Request::Nothing => {},
        }
        self.refresh(&supervisor.status());
        event.effect()
    }
}

/// Whether handling `event` with the given primitives can lead a
/// supervisor from `pre` to `post`: the request that the event stands for in
/// `pre` is made, once, and nothing else touches the supervisor.
pub open spec fn handled<H, L, T>(
    pre: SupervisorView<H>,
    event: TrayEvent,
    launch: L,
    terminate: T,
    post: SupervisorView<H>,
) -> bool where L: FnOnce() -> Result<H, String>, T: FnOnce(H) -> Result<(), (H, String)> {
    match event.request_for(pre.status is Running) {
        Request::Start => exists|reply| #[trigger] pre.start_yields(launch, post, reply),
        Request::Stop => exists|reply| #[trigger] pre.stop_yields(terminate, post, reply),
        Request::Nothing => post == pre,
    }
}

} // verus!
