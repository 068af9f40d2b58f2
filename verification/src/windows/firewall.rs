//! The per-user firewall rules of the offline account.

pub mod blocked_ports;
pub mod configure;
pub mod coverage;
pub mod policy_state;
pub mod rules;
pub mod verify;
