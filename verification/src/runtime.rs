//! Selecting a native backend and admitting launches to it.

pub mod command;
pub mod launch;
pub mod linux;
pub mod spawn;
