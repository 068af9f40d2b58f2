//! Persistent network filters of the Windows Filtering Platform.

pub mod filter_specs;
pub mod install;
pub mod verify;
