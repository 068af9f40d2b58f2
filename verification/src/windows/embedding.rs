//! Restricted-token processes that an embedding application launches directly.

pub mod ace;
pub mod acl;
pub mod env_block;
pub mod launch;
pub mod process;
pub mod session;
