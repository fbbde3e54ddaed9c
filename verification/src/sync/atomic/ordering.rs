//! Memory orderings of atomic operations.
//!
//! Each ordering is a zero-sized type, so the ordering of an operation is chosen when the
//! program is compiled. The traits [`Any`], [`AcquireOrRelaxed`] and [`ReleaseOrRelaxed`] say
//! which orderings an operation accepts.

use vstd::prelude::*;

verus! {

/// The ordering that an ordering type stands for.
#[derive(Clone, Copy, Debug, PartialEq, Eq, Structural)]
pub enum OrderingType {
    /// A fully-ordered operation.
    Full,
    /// An acquire operation.
    Acquire,
    /// A release operation.
    Release,
    /// A relaxed operation.
    Relaxed,
}

/// The annotation type for a relaxed atomic operation.
#[derive(Clone, Copy, Debug)]
pub struct Relaxed;

/// The annotation type for an acquire atomic operation.
#[derive(Clone, Copy, Debug)]
pub struct Acquire;

/// The annotation type for a release atomic operation.
#[derive(Clone, Copy, Debug)]
pub struct Release;

/// The annotation type for a fully-ordered atomic operation.
#[derive(Clone, Copy, Debug)]
pub struct Full;

/// The trait bound for operations that accept any ordering.
pub trait Any: Copy {
    /// The ordering that this type stands for.
    spec fn spec_type() -> OrderingType;

    /// Returns the ordering that this type stands for.
    fn ordering_type() -> (t: OrderingType)
        ensures
            t == Self::spec_type(),
    ;
}

/// The trait bound for operations that accept only acquire or relaxed orderings.
pub trait AcquireOrRelaxed: Any {
    /// An acquire-or-relaxed ordering stands for `Acquire` or `Relaxed`.
    proof fn lemma_acquire_or_relaxed()
        ensures
            Self::spec_type() == OrderingType::Acquire || Self::spec_type() == OrderingType::Relaxed,
    ;
}

/// The trait bound for operations that accept only release or relaxed orderings.
pub trait ReleaseOrRelaxed: Any {
    /// A release-or-relaxed ordering stands for `Release` or `Relaxed`.
    proof fn lemma_release_or_relaxed()
        ensures
            Self::spec_type() == OrderingType::Release || Self::spec_type() == OrderingType::Relaxed,
    ;
}

impl Any for Relaxed {
    open spec fn spec_type() -> OrderingType {
        OrderingType::Relaxed
    }

    fn ordering_type() -> (t: OrderingType) {
        OrderingType::Relaxed
    }
}

impl Any for Acquire {
    open spec fn spec_type() -> OrderingType {
        OrderingType::Acquire
    }

    fn ordering_type() -> (t: OrderingType) {
        OrderingType::Acquire
    }
}

impl Any for Release {
    open spec fn spec_type() -> OrderingType {
        OrderingType::Release
    }

    fn ordering_type() -> (t: OrderingType) {
        OrderingType::Release
    }
}

impl Any for Full {
    open spec fn spec_type() -> OrderingType {
        OrderingType::Full
    }

    fn ordering_type() -> (t: OrderingType) {
        OrderingType::Full
    }
}

impl AcquireOrRelaxed for Relaxed {
    proof fn lemma_acquire_or_relaxed() {
    }
}

impl AcquireOrRelaxed for Acquire {
    proof fn lemma_acquire_or_relaxed() {
    }
}

impl ReleaseOrRelaxed for Relaxed {
    proof fn lemma_release_or_relaxed() {
    }
}

impl ReleaseOrRelaxed for Release {
    proof fn lemma_release_or_relaxed() {
    }
}

} // verus!
