//! Verified launch orchestration for games run through a chain of wrapper
//! tools (performance governor, overlay, nested compositor, frame limiter,
//! GPU driver shim).
//!
//! The crate assembles the launch command from a resolved configuration,
//! scans the compositor's error stream for the nested display it announces,
//! and drives the launch as a state machine whose teardown and environment
//! restoration obligations are proved.

pub mod cli;
pub mod config;
pub mod game_launcher;
pub mod process_output_log;
pub mod text;
