//! The decisions that the crate's derive macros make.

pub mod field;
