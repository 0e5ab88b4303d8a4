//! The fixed texts of the application: replies, address, and what the tray
//! shows.

use vstd::prelude::*;

verus! {

/// Reply of a start request that found the service up.
pub const ALREADY_RUNNING: &'static str = "Already running";

/// Reply of a start request that launched the service.
pub const SERVICE_STARTED: &'static str = "Service started";

/// Reply of a stop request that terminated the service.
pub const SERVICE_STOPPED: &'static str = "Service stopped";

/// Reply of a stop request that found no process to terminate.
pub const NOT_RUNNING: &'static str = "Service not running";

/// Address under which the service is reached. It is a fixed text, not
/// read from any live connection.
pub const SERVICE_ADDRESS: &'static str = "http://localhost:8080";

/// What the about entry shows.
pub const ABOUT_TEXT: &'static str = "EasyCue v0.1.0 - PromptX Desktop Client";

/// Status line of the menu while the service is up.
pub const STATUS_LINE_RUNNING: &'static str = "● 服务运行中";

/// Status line of the menu while the service is not up.
pub const STATUS_LINE_STOPPED: &'static str = "○ 服务已停止";

/// Tooltip of the tray icon while the service is up.
pub const TOOLTIP_RUNNING: &'static str = "EasyCue - 运行中";

/// Tooltip of the tray icon while the service is not up.
pub const TOOLTIP_STOPPED: &'static str = "EasyCue - 已停止";

/// Identity of the menu entry that starts the service.
pub const MENU_START: &'static str = "start";

/// Identity of the menu entry that stops the service.
pub const MENU_STOP: &'static str = "stop";

/// Identity of the menu entry that copies the service address.
pub const MENU_COPY: &'static str = "copy";

/// Identity of the menu entry that shows the about text.
pub const MENU_ABOUT: &'static str = "about";

/// Identity of the menu entry that quits the application.
pub const MENU_QUIT: &'static str = "quit";

/// Identity of the menu entry that shows the status line.
pub const MENU_STATUS: &'static str = "status";

} // verus!
