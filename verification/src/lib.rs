//! Lifecycle core of a tray application that supervises one background
//! service process.
//!
//! The crate holds the decisions and leaves the effects to its caller.
//!
//! - [`status`] and [`error`]: the status of the service and the failures of
//!   an operation.
//! - [`model`]: the supervisor as a state machine over mathematical values.
//! - [`supervisor`]: the [`supervisor::ServiceSupervisor`], which owns the
//!   status and the process handle, and is handed the launching and the
//!   terminating primitive by whoever drives it.
//! - [`presenter`]: what the tray shows for a status, and what an event of
//!   the tray asks of the supervisor.
//! - [`commands`]: the operations as a user interface invokes them.
//! - [`laws`]: what holds of all of this, proved.
//! - [`text`]: the fixed texts.

pub mod commands;
pub mod error;
pub mod laws;
pub mod model;
pub mod presenter;
pub mod status;
pub mod supervisor;
pub mod text;
