//! Decisions of a cross-platform process sandbox: policies, launch admission,
//! process supervision, and the Windows companion protocol.

pub mod error;
pub mod lifetime;
pub mod model;
pub mod native;
pub mod order;
pub mod policy;
pub mod process;
pub mod process_group;
pub mod runtime;
pub mod seatbelt;
pub mod text;
pub mod types;
pub mod utf16;
pub mod windows;
