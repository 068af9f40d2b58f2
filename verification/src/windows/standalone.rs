//! Standalone Windows sandbox boundary for private embedding applications.
//!
//! Helpers are never discovered through `PATH`, and a target never starts unless the
//! explicitly supplied setup state is current.

pub mod client;
pub mod command;
pub mod compatibility;
pub mod helper;
pub mod helper_process;
pub mod outcome;
pub mod process_security;
pub mod setup;
pub mod setup_flow;
pub mod target;
pub mod window_access;
pub mod wire;
