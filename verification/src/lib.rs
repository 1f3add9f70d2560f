//! Session management and command protocol for the Z407 Bluetooth LE speaker dock.
//!
//! The crate holds the decisions of a dock session and proves what holds of
//! them. Radio, timers and threads are left to the caller, who performs the
//! [`supervisor::Action`] values the supervisor emits and reports back
//! [`supervisor::Event`] values.
//!
//! - [`command`]: the two byte command frames and the command table.
//! - [`response`]: how notification payloads are read.
//! - [`profile`]: the GATT profile and how its endpoints are found.
//! - [`discovery`]: which advertisement is accepted, and until when.
//! - [`handshake`]: the initialization sequence.
//! - [`state`]: the state published to the user interface.
//! - [`supervisor`]: the state machine that runs a session.
//! - [`history`] and [`guarantees`]: what holds of every run of the machine.
//! - [`error`]: the ways a session can fail.

pub mod command;
pub mod discovery;
pub mod error;
pub mod guarantees;
pub mod handshake;
pub mod history;
pub mod profile;
pub mod response;
pub mod state;
pub mod supervisor;
