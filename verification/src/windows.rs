//! The Windows sandbox: identities, machine policy, and the standalone companion protocol.

pub mod deny_write_state;
pub mod embedding;
pub mod failure;
pub mod firewall;
pub mod leases;
pub mod namespace;
pub mod product;
pub mod setup_containment;
pub mod setup_failure;
pub mod standalone;
pub mod wfp;
