//! Preparing a sandbox policy for a native backend.

pub mod access;
pub mod backend;
pub mod glob;
pub mod host;
pub mod internal;
pub mod laws;
pub mod linux;
pub mod prepare;
