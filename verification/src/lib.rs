//! A cross-platform process launcher: it builds an isolated invocation of a
//! user-supplied command, selecting a platform-specific isolation strategy,
//! and drives the spawned child through a small lifecycle state machine.

pub mod base;
pub mod command;
pub mod engine;
pub mod errors;
pub mod host;
pub mod laws;
pub mod linux;
pub mod macos;
pub mod probe;
pub mod reroute;
pub mod text;
pub mod windows;
