//! Tasks.

pub mod thread;
