use std::cell::Cell;

use easycue::presenter::Effect;
use easycue::presenter::Request;
use easycue::presenter::TrayDisplay;
use easycue::presenter::TrayEvent;
use easycue::presenter::TrayPresenter;
use easycue::status::ServiceStatus;
use easycue::supervisor::ServiceSupervisor;
use easycue::text;

fn shown_running() -> TrayDisplay {
    TrayDisplay {
        start_enabled: false,
        stop_enabled: true,
        status_line: "● 服务运行中".to_string(),
        tooltip: "EasyCue - 运行中".to_string(),
    }
}

fn shown_stopped() -> TrayDisplay {
    TrayDisplay {
        start_enabled: true,
        stop_enabled: false,
        status_line: "○ 服务已停止".to_string(),
        tooltip: "EasyCue - 已停止".to_string(),
    }
}

fn never_launch() -> Result<u32, String> {
    panic!("no process is to be launched here")
}

fn never_terminate(_handle: u32) -> Result<(), (u32, String)> {
    panic!("no process is to be terminated here")
}

#[test]
fn fixed_texts() {
    assert_eq!(text::ALREADY_RUNNING, "Already running");
    assert_eq!(text::SERVICE_STARTED, "Service started");
    assert_eq!(text::SERVICE_STOPPED, "Service stopped");
    assert_eq!(text::NOT_RUNNING, "Service not running");
    assert_eq!(text::SERVICE_ADDRESS, "http://localhost:8080");
    assert_eq!(text::ABOUT_TEXT, "EasyCue v0.1.0 - PromptX Desktop Client");
    assert_eq!(text::MENU_STATUS, "status");
}

#[test]
fn display_of_a_running_service() {
    assert_eq!(TrayDisplay::for_running(true), shown_running());
    assert_eq!(TrayDisplay::for_status(&ServiceStatus::Running), shown_running());
}

#[test]
fn display_of_a_service_that_is_not_running() {
    assert_eq!(TrayDisplay::for_running(false), shown_stopped());
    assert_eq!(TrayDisplay::for_status(&ServiceStatus::Stopped), shown_stopped());
    assert_eq!(TrayDisplay::for_status(&ServiceStatus::Starting), shown_stopped());
    assert_eq!(TrayDisplay::for_status(&ServiceStatus::Stopping), shown_stopped());
    assert_eq!(
        TrayDisplay::for_status(&ServiceStatus::Error("no such file".to_string())),
        shown_stopped()
    );
}

#[test]
fn exactly_one_control_is_enabled() {
    let statuses = vec![
        ServiceStatus::Stopped,
        ServiceStatus::Starting,
        ServiceStatus::Running,
        ServiceStatus::Stopping,
        ServiceStatus::Error("x".to_string()),
    ];
    for status in statuses {
        let display = TrayDisplay::for_status(&status);
        assert_ne!(display.start_enabled, display.stop_enabled);
        assert_eq!(display.stop_enabled, status.is_running());
    }
}

#[test]
fn menu_identities() {
    assert_eq!(TrayEvent::from_menu_id("start"), TrayEvent::Start);
    assert_eq!(TrayEvent::from_menu_id("stop"), TrayEvent::Stop);
    assert_eq!(TrayEvent::from_menu_id("copy"), TrayEvent::Copy);
    assert_eq!(TrayEvent::from_menu_id("about"), TrayEvent::About);
    assert_eq!(TrayEvent::from_menu_id("quit"), TrayEvent::Quit);
    assert_eq!(TrayEvent::from_menu_id("status"), TrayEvent::Other);
    assert_eq!(TrayEvent::from_menu_id(""), TrayEvent::Other);
    assert_eq!(TrayEvent::from_menu_id("Start"), TrayEvent::Other);
    assert_eq!(TrayEvent::from_menu_id("start "), TrayEvent::Other);
    assert_eq!(TrayEvent::from_menu_id(text::MENU_START), TrayEvent::Start);
    assert_eq!(TrayEvent::from_menu_id(text::MENU_STOP), TrayEvent::Stop);
    assert_eq!(TrayEvent::from_menu_id(text::MENU_COPY), TrayEvent::Copy);
    assert_eq!(TrayEvent::from_menu_id(text::MENU_ABOUT), TrayEvent::About);
    assert_eq!(TrayEvent::from_menu_id(text::MENU_QUIT), TrayEvent::Quit);
}

#[test]
fn what_each_event_asks() {
    assert_eq!(TrayEvent::Start.request(false), Request::Start);
    assert_eq!(TrayEvent::Start.request(true), Request::Nothing);
    assert_eq!(TrayEvent::Stop.request(false), Request::Nothing);
    assert_eq!(TrayEvent::Stop.request(true), Request::Stop);
    assert_eq!(TrayEvent::Toggle.request(false), Request::Start);
    assert_eq!(TrayEvent::Toggle.request(true), Request::Stop);
    assert_eq!(TrayEvent::Quit.request(false), Request::Stop);
    assert_eq!(TrayEvent::Quit.request(true), Request::Stop);
    for running in [false, true] {
        assert_eq!(TrayEvent::Copy.request(running), Request::Nothing);
        assert_eq!(TrayEvent::About.request(running), Request::Nothing);
        assert_eq!(TrayEvent::Other.request(running), Request::Nothing);
    }
}

#[test]
fn what_each_event_leaves_to_do() {
    assert_eq!(TrayEvent::Start.effect(), Effect::Nothing);
    assert_eq!(TrayEvent::Stop.effect(), Effect::Nothing);
    assert_eq!(TrayEvent::Toggle.effect(), Effect::Nothing);
    assert_eq!(TrayEvent::Other.effect(), Effect::Nothing);
    assert_eq!(
        TrayEvent::Copy.effect(),
        Effect::CopyToClipboard("http://localhost:8080".to_string())
    );
    assert_eq!(
        TrayEvent::About.effect(),
        Effect::ShowAbout("EasyCue v0.1.0 - PromptX Desktop Client".to_string())
    );
    assert_eq!(TrayEvent::Quit.effect(), Effect::Exit);
}

#[test]
fn new_presenter_shows_a_stopped_service() {
    let presenter = TrayPresenter::new();
    assert_eq!(*presenter.display(), shown_stopped());
}

#[test]
fn refresh_shows_the_status_given() {
    let mut presenter = TrayPresenter::new();
    presenter.refresh(&ServiceStatus::Running);
    assert_eq!(*presenter.display(), shown_running());
    presenter.refresh(&ServiceStatus::Error("no such file".to_string()));
    assert_eq!(*presenter.display(), shown_stopped());
}

#[test]
fn start_click_starts_and_shows_running() {
    let mut supervisor: ServiceSupervisor<u32> = ServiceSupervisor::new();
    let mut presenter = TrayPresenter::new();

    let effect = presenter.handle(&mut supervisor, TrayEvent::Start, || Ok(1), never_terminate);
    assert_eq!(effect, Effect::Nothing);
    assert_eq!(supervisor.status(), ServiceStatus::Running);
    assert_eq!(*presenter.display(), shown_running());
}

#[test]
fn start_click_on_a_running_service_asks_nothing() {
    let mut supervisor: ServiceSupervisor<u32> = ServiceSupervisor::new();
    let mut presenter = TrayPresenter::new();
    let _ = supervisor.start(|| Ok(1));

    let effect = presenter.handle(&mut supervisor, TrayEvent::Start, never_launch, never_terminate);
    assert_eq!(effect, Effect::Nothing);
    assert_eq!(supervisor.status(), ServiceStatus::Running);
    assert_eq!(*presenter.display(), shown_running());
}

#[test]
fn failed_start_click_shows_what_was_reached() {
    let mut supervisor: ServiceSupervisor<u32> = ServiceSupervisor::new();
    let mut presenter = TrayPresenter::new();

    let effect = presenter.handle(
        &mut supervisor,
        TrayEvent::Start,
        || Err("no such file".to_string()),
        never_terminate,
    );
    assert_eq!(effect, Effect::Nothing);
    assert_eq!(
        supervisor.status(),
        ServiceStatus::Error("no such file".to_string())
    );
    assert_eq!(*presenter.display(), shown_stopped());
}

#[test]
fn stop_click_stops_and_shows_stopped() {
    let terminated = Cell::new(None);
    let mut supervisor: ServiceSupervisor<u32> = ServiceSupervisor::new();
    let mut presenter = TrayPresenter::new();
    let _ = presenter.handle(&mut supervisor, TrayEvent::Start, || Ok(4), never_terminate);

    let effect = presenter.handle(&mut supervisor, TrayEvent::Stop, never_launch, |handle| {
        terminated.set(Some(handle));
        Ok(())
    });
    assert_eq!(effect, Effect::Nothing);
    assert_eq!(terminated.get(), Some(4));
    assert_eq!(supervisor.status(), ServiceStatus::Stopped);
    assert_eq!(*presenter.display(), shown_stopped());
}

#[test]
fn stop_click_on_a_stopped_service_asks_nothing() {
    let mut supervisor: ServiceSupervisor<u32> = ServiceSupervisor::new();
    let mut presenter = TrayPresenter::new();

    let effect = presenter.handle(&mut supervisor, TrayEvent::Stop, never_launch, never_terminate);
    assert_eq!(effect, Effect::Nothing);
    assert_eq!(supervisor.status(), ServiceStatus::Stopped);
    assert_eq!(*presenter.display(), shown_stopped());
}

#[test]
fn failed_stop_click_still_shows_running() {
    let mut supervisor: ServiceSupervisor<u32> = ServiceSupervisor::new();
    let mut presenter = TrayPresenter::new();
    let _ = presenter.handle(&mut supervisor, TrayEvent::Start, || Ok(4), never_terminate);

    let effect = presenter.handle(&mut supervisor, TrayEvent::Stop, never_launch, |handle| {
        Err((handle, "busy".to_string()))
    });
    assert_eq!(effect, Effect::Nothing);
    assert_eq!(supervisor.status(), ServiceStatus::Running);
    assert!(supervisor.holds_process());
    assert_eq!(*presenter.display(), shown_running());
}

#[test]
fn icon_click_toggles() {
    let mut supervisor: ServiceSupervisor<u32> = ServiceSupervisor::new();
    let mut presenter = TrayPresenter::new();

    let _ = presenter.handle(&mut supervisor, TrayEvent::Toggle, || Ok(2), never_terminate);
    assert_eq!(supervisor.status(), ServiceStatus::Running);
    assert_eq!(*presenter.display(), shown_running());

    let _ = presenter.handle(&mut supervisor, TrayEvent::Toggle, never_launch, |_| Ok(()));
    assert_eq!(supervisor.status(), ServiceStatus::Stopped);
    assert_eq!(*presenter.display(), shown_stopped());

    let _ = presenter.handle(&mut supervisor, TrayEvent::Toggle, || Ok(3), never_terminate);
    assert_eq!(supervisor.status(), ServiceStatus::Running);
}

#[test]
fn copy_click_leaves_the_address_and_the_status() {
    let mut supervisor: ServiceSupervisor<u32> = ServiceSupervisor::new();
    let mut presenter = TrayPresenter::new();

    let effect = presenter.handle(&mut supervisor, TrayEvent::Copy, never_launch, never_terminate);
    assert_eq!(
        effect,
        Effect::CopyToClipboard("http://localhost:8080".to_string())
    );
    assert_eq!(supervisor.status(), ServiceStatus::Stopped);

    let _ = supervisor.start(|| Ok(1));
    let effect = presenter.handle(&mut supervisor, TrayEvent::Copy, never_launch, never_terminate);
    assert_eq!(
        effect,
        Effect::CopyToClipboard("http://localhost:8080".to_string())
    );
    assert_eq!(supervisor.status(), ServiceStatus::Running);
    assert_eq!(*presenter.display(), shown_running());
}

#[test]
fn about_click_leaves_the_about_text() {
    let mut supervisor: ServiceSupervisor<u32> = ServiceSupervisor::new();
    let mut presenter = TrayPresenter::new();
    let effect = presenter.handle(&mut supervisor, TrayEvent::About, never_launch, never_terminate);
    assert_eq!(
        effect,
        Effect::ShowAbout("EasyCue v0.1.0 - PromptX Desktop Client".to_string())
    );
    assert_eq!(supervisor.status(), ServiceStatus::Stopped);
}

#[test]
fn other_click_does_nothing() {
    let mut supervisor: ServiceSupervisor<u32> = ServiceSupervisor::new();
    let mut presenter = TrayPresenter::new();
    let _ = supervisor.start(|| Ok(1));
    let event = TrayEvent::from_menu_id("status");
    let effect = presenter.handle(&mut supervisor, event, never_launch, never_terminate);
    assert_eq!(effect, Effect::Nothing);
    assert_eq!(supervisor.status(), ServiceStatus::Running);
    assert_eq!(*presenter.display(), shown_running());
}

#[test]
fn quit_after_start_terminates_the_process_before_exit() {
    let terminated = Cell::new(None);
    let mut supervisor: ServiceSupervisor<u32> = ServiceSupervisor::new();
    let mut presenter = TrayPresenter::new();
    let _ = presenter.handle(&mut supervisor, TrayEvent::Start, || Ok(77), never_terminate);

    let effect = presenter.handle(&mut supervisor, TrayEvent::Quit, never_launch, |handle| {
        terminated.set(Some(handle));
        Ok(())
    });
    // By the time the caller is told to exit, the process has been terminated.
    assert_eq!(effect, Effect::Exit);
    assert_eq!(terminated.get(), Some(77));
    assert_eq!(supervisor.status(), ServiceStatus::Stopped);
    assert!(!supervisor.holds_process());
}

#[test]
fn quit_without_process_exits() {
    let mut supervisor: ServiceSupervisor<u32> = ServiceSupervisor::new();
    let mut presenter = TrayPresenter::new();
    let effect = presenter.handle(&mut supervisor, TrayEvent::Quit, never_launch, never_terminate);
    assert_eq!(effect, Effect::Exit);
    assert_eq!(supervisor.status(), ServiceStatus::Stopped);
}

#[test]
fn quit_exits_even_if_the_stop_fails() {
    let mut supervisor: ServiceSupervisor<u32> = ServiceSupervisor::new();
    let mut presenter = TrayPresenter::new();
    let _ = supervisor.start(|| Ok(1));
    let effect = presenter.handle(&mut supervisor, TrayEvent::Quit, never_launch, |handle| {
        Err((handle, "busy".to_string()))
    });
    assert_eq!(effect, Effect::Exit);
    assert_eq!(supervisor.status(), ServiceStatus::Running);
}
