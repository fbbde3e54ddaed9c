//! Synchronisation primitives.

pub mod atomic;
pub mod rcu;
