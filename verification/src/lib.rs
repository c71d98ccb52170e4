//! Session controller for a dual-channel motor controller on a serial line.

pub mod arbiter;
pub mod display;
pub mod error;
pub mod intent;
pub mod laws;
pub mod panel;
pub mod poller;
pub mod status;
pub mod telemetry;
pub mod text;
