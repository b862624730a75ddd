//! Bootstrap and coordination core of a small multi-hart kernel.
//!
//! The crate models the two pieces of the kernel that must reason about
//! concurrency before any higher-level primitive exists: the multi-hart
//! boot synchronization protocol and the panic-safe, lock-disciplined
//! console output subsystem it depends on.

pub mod boot;
pub mod decimal;
pub mod printf;
pub mod printsim;
