//! Kernel synchronisation primitives, field descriptions and kernel-thread bookkeeping.

pub mod error;
pub mod field;
pub mod macros;
pub mod sync;
pub mod task;

