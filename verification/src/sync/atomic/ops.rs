//! Atomic implementations.
//!
//! Provides a one-to-one mapping from the integer types that back atomic variables to the
//! hardware atomic operations on them:
//!
//! - `i32` is backed by a 32-bit atomic cell.
//! - `i64` is backed by a 64-bit atomic cell.
//! - `isize` is backed by a pointer-sized atomic cell.
//!
//! The value held by a cell can be changed by any execution context that shares it, so the
//! value that a read returns is not determined by the operations of one context alone. The
//! contracts below therefore state what holds of every outcome.

mod private;

use vstd::prelude::*;

verus! {

/// A marker trait for types that implement atomic operations with hardware primitives.
///
/// This trait is sealed, and only the types that map directly to a hardware atomic cell
/// implement it:
///
/// - `i32` maps to a 32-bit atomic.
/// - `i64` maps to a 64-bit atomic.
/// - `isize` maps to a pointer-sized atomic.
pub trait AtomicImpl: Sized + Copy + private::Sealed {
    /// The type of the delta in arithmetic operations.
    type Delta;

    /// The shared memory cell that holds a value of this type.
    type Cell;

    /// The value that a cell was created with.
    spec fn spec_created_value(cell: Self::Cell) -> Self;

    /// Creates a cell that holds `v`.
    fn new_cell(v: Self) -> (r: Self::Cell)
        ensures
            Self::spec_created_value(r) == v,
    ;
}

/// Basic atomic operations.
pub trait AtomicHasBasicOps: AtomicImpl {
    /// Atomic read (load), relaxed.
    fn atomic_read(cell: &Self::Cell) -> Self;

    /// Atomic read (load), acquire.
    fn atomic_read_acquire(cell: &Self::Cell) -> Self;

    /// Atomic set (store), relaxed.
    fn atomic_set(cell: &Self::Cell, v: Self);

    /// Atomic set (store), release.
    fn atomic_set_release(cell: &Self::Cell, v: Self);
}

/// Exchange and compare-and-exchange atomic operations.
pub trait AtomicHasXchgOps: AtomicImpl {
    /// Atomic exchange, fully ordered: updates the cell to `v` and returns the old value.
    fn atomic_xchg(cell: &Self::Cell, v: Self) -> Self;

    /// Atomic exchange, acquire.
    fn atomic_xchg_acquire(cell: &Self::Cell, v: Self) -> Self;

    /// Atomic exchange, release.
    fn atomic_xchg_release(cell: &Self::Cell, v: Self) -> Self;

    /// Atomic exchange, relaxed.
    fn atomic_xchg_relaxed(cell: &Self::Cell, v: Self) -> Self;

    /// Atomic compare and exchange, fully ordered.
    ///
    /// If the cell holds `*expected`, updates it to `new` and returns `true`. Otherwise the cell
    /// is not modified, `*expected` is updated to the value the cell holds, and `false` is
    /// returned. What the cell holds is up to every context that shares it; the contract states
    /// that success leaves `*expected` alone and that failure gives it a different value (the
    /// value found, as [`cmpxchg_outcome`] states).
    fn atomic_try_cmpxchg(cell: &Self::Cell, expected: &mut Self, new: Self) -> (r: bool)
        ensures
            r ==> *final(expected) == *old(expected),
            !r ==> *final(expected) != *old(expected),
    ;

    /// Atomic compare and exchange, acquire.
    fn atomic_try_cmpxchg_acquire(cell: &Self::Cell, expected: &mut Self, new: Self) -> (r: bool)
        ensures
            r ==> *final(expected) == *old(expected),
            !r ==> *final(expected) != *old(expected),
    ;

    /// Atomic compare and exchange, release.
    fn atomic_try_cmpxchg_release(cell: &Self::Cell, expected: &mut Self, new: Self) -> (r: bool)
        ensures
            r ==> *final(expected) == *old(expected),
            !r ==> *final(expected) != *old(expected),
    ;

    /// Atomic compare and exchange, relaxed.
    fn atomic_try_cmpxchg_relaxed(cell: &Self::Cell, expected: &mut Self, new: Self) -> (r: bool)
        ensures
            r ==> *final(expected) == *old(expected),
            !r ==> *final(expected) != *old(expected),
    ;
}

/// Atomic arithmetic operations.
pub trait AtomicHasArithmeticOps: AtomicImpl {
    /// The value plus the delta, wrapping around at the bounds of the type.
    spec fn spec_wrapping_add_delta(v: Self, d: Self::Delta) -> Self;

    /// Atomic add (wrapping), relaxed: updates the cell to its value plus `v`, wrapping.
    fn atomic_add(cell: &Self::Cell, v: Self::Delta);

    /// Atomic fetch and add (wrapping), fully ordered: updates the cell to its value plus
    /// `v`, wrapping, and returns the value before the update.
    fn atomic_fetch_add(cell: &Self::Cell, v: Self::Delta) -> Self;

    /// Atomic fetch and add (wrapping), acquire.
    fn atomic_fetch_add_acquire(cell: &Self::Cell, v: Self::Delta) -> Self;

    /// Atomic fetch and add (wrapping), release.
    fn atomic_fetch_add_release(cell: &Self::Cell, v: Self::Delta) -> Self;

    /// Atomic fetch and add (wrapping), relaxed.
    fn atomic_fetch_add_relaxed(cell: &Self::Cell, v: Self::Delta) -> Self;
}

/// Processes what a compare and exchange on a cell found: `Ok` when the cell held `*expected`
/// and was updated, `Err` with the value the cell held otherwise.
///
/// Returns whether the exchange succeeded. On success `*expected` is left as it is; on failure
/// it is set to the value the cell held.
pub fn cmpxchg_outcome<R>(found: Result<R, R>, expected: &mut R) -> (r: bool)
    ensures
        found is Ok ==> r && *final(expected) == *old(expected),
        found matches Err(v) ==> !r && *final(expected) == v,
{
    match found {
        Ok(_) => true,
        Err(v) => {
            *expected = v;
            false
        },
    }
}

impl AtomicImpl for i32 {
    type Delta = i32;

    type Cell = core::sync::atomic::AtomicI32;

    open spec fn spec_created_value(cell: core::sync::atomic::AtomicI32) -> i32 {
        i32_cell_created_value(cell)
    }

    fn new_cell(v: i32) -> (r: core::sync::atomic::AtomicI32) {
        new_i32_cell(v)
    }
}

/// The value that a 32-bit atomic cell was created with.
///
/// Other contexts may write to a cell once it is shared, so this is the value the cell holds
/// only until the first write.
pub uninterp spec fn i32_cell_created_value(cell: core::sync::atomic::AtomicI32) -> i32;

/// Calls `core::sync::atomic::AtomicI32::new`, which the standard library documents as creating
/// a cell that holds `v`.
#[verifier::external_body]
fn new_i32_cell(v: i32) -> (r: core::sync::atomic::AtomicI32)
    ensures
        i32_cell_created_value(r) == v,
{
    core::sync::atomic::AtomicI32::new(v)
}

/// Calls `core::sync::atomic::AtomicI32::compare_exchange`, with the failure ordering `failure`.
///
/// The standard library documents that the result is `Ok` exactly when the cell held
/// `current` (and was then set to `new`), and that it carries the value the cell held. So
/// an `Ok` value equals `current` and an `Err` value differs from it. What the cell held is
/// up to the other contexts that share it and is not stated. The standard library panics on
/// a release or acquire-release failure ordering, so those are excluded.
#[verifier::external_body]
fn compare_exchange_i32(
    cell: &core::sync::atomic::AtomicI32,
    current: i32,
    new: i32,
    success: core::sync::atomic::Ordering,
    failure: core::sync::atomic::Ordering,
) -> (r: Result<i32, i32>)
    requires
        !(failure matches core::sync::atomic::Ordering::Release),
        !(failure matches core::sync::atomic::Ordering::AcqRel),
    ensures
        r matches Ok(v) ==> v == current,
        r matches Err(v) ==> v != current,
{
    cell.compare_exchange(current, new, success, failure)
}

impl AtomicHasBasicOps for i32 {
    fn atomic_read(cell: &core::sync::atomic::AtomicI32) -> i32 {
        cell.load(core::sync::atomic::Ordering::Relaxed)
    }

    fn atomic_read_acquire(cell: &core::sync::atomic::AtomicI32) -> i32 {
        cell.load(core::sync::atomic::Ordering::Acquire)
    }

    fn atomic_set(cell: &core::sync::atomic::AtomicI32, v: i32) {
        cell.store(v, core::sync::atomic::Ordering::Relaxed)
    }

    fn atomic_set_release(cell: &core::sync::atomic::AtomicI32, v: i32) {
        cell.store(v, core::sync::atomic::Ordering::Release)
    }
}

impl AtomicHasXchgOps for i32 {
    fn atomic_xchg(cell: &core::sync::atomic::AtomicI32, v: i32) -> i32 {
        cell.swap(v, core::sync::atomic::Ordering::SeqCst)
    }

    fn atomic_xchg_acquire(cell: &core::sync::atomic::AtomicI32, v: i32) -> i32 {
        cell.swap(v, core::sync::atomic::Ordering::Acquire)
    }

    fn atomic_xchg_release(cell: &core::sync::atomic::AtomicI32, v: i32) -> i32 {
        cell.swap(v, core::sync::atomic::Ordering::Release)
    }

    fn atomic_xchg_relaxed(cell: &core::sync::atomic::AtomicI32, v: i32) -> i32 {
        cell.swap(v, core::sync::atomic::Ordering::Relaxed)
    }

    fn atomic_try_cmpxchg(cell: &core::sync::atomic::AtomicI32, expected: &mut i32, new: i32) -> (r: bool) {
        cmpxchg_outcome(compare_exchange_i32(cell, *expected, new, core::sync::atomic::Ordering::SeqCst, core::sync::atomic::Ordering::Relaxed), expected)
    }

    fn atomic_try_cmpxchg_acquire(cell: &core::sync::atomic::AtomicI32, expected: &mut i32, new: i32) -> (r: bool) {
        cmpxchg_outcome(compare_exchange_i32(cell, *expected, new, core::sync::atomic::Ordering::Acquire, core::sync::atomic::Ordering::Relaxed), expected)
    }

    fn atomic_try_cmpxchg_release(cell: &core::sync::atomic::AtomicI32, expected: &mut i32, new: i32) -> (r: bool) {
        cmpxchg_outcome(compare_exchange_i32(cell, *expected, new, core::sync::atomic::Ordering::Release, core::sync::atomic::Ordering::Relaxed), expected)
    }

    fn atomic_try_cmpxchg_relaxed(cell: &core::sync::atomic::AtomicI32, expected: &mut i32, new: i32) -> (r: bool) {
        cmpxchg_outcome(compare_exchange_i32(cell, *expected, new, core::sync::atomic::Ordering::Relaxed, core::sync::atomic::Ordering::Relaxed), expected)
    }
}

impl AtomicHasArithmeticOps for i32 {
    open spec fn spec_wrapping_add_delta(v: i32, d: i32) -> i32 {
        (v + d) as i32
    }

    fn atomic_add(cell: &core::sync::atomic::AtomicI32, v: i32) {
        cell.fetch_add(v, core::sync::atomic::Ordering::Relaxed);
    }

    fn atomic_fetch_add(cell: &core::sync::atomic::AtomicI32, v: i32) -> i32 {
        cell.fetch_add(v, core::sync::atomic::Ordering::SeqCst)
    }

    fn atomic_fetch_add_acquire(cell: &core::sync::atomic::AtomicI32, v: i32) -> i32 {
        cell.fetch_add(v, core::sync::atomic::Ordering::Acquire)
    }

    fn atomic_fetch_add_release(cell: &core::sync::atomic::AtomicI32, v: i32) -> i32 {
        cell.fetch_add(v, core::sync::atomic::Ordering::Release)
    }

    fn atomic_fetch_add_relaxed(cell: &core::sync::atomic::AtomicI32, v: i32) -> i32 {
        cell.fetch_add(v, core::sync::atomic::Ordering::Relaxed)
    }
}

impl AtomicImpl for i64 {
    type Delta = i64;

    type Cell = core::sync::atomic::AtomicI64;

    open spec fn spec_created_value(cell: core::sync::atomic::AtomicI64) -> i64 {
        i64_cell_created_value(cell)
    }

    fn new_cell(v: i64) -> (r: core::sync::atomic::AtomicI64) {
        new_i64_cell(v)
    }
}

/// The value that a 64-bit atomic cell was created with.
///
/// Other contexts may write to a cell once it is shared, so this is the value the cell holds
/// only until the first write.
pub uninterp spec fn i64_cell_created_value(cell: core::sync::atomic::AtomicI64) -> i64;

/// Calls `core::sync::atomic::AtomicI64::new`, which the standard library documents as creating
/// a cell that holds `v`.
#[verifier::external_body]
fn new_i64_cell(v: i64) -> (r: core::sync::atomic::AtomicI64)
    ensures
        i64_cell_created_value(r) == v,
{
    core::sync::atomic::AtomicI64::new(v)
}

/// Calls `core::sync::atomic::AtomicI64::compare_exchange`, with the failure ordering `failure`.
///
/// The standard library documents that the result is `Ok` exactly when the cell held
/// `current` (and was then set to `new`), and that it carries the value the cell held. So
/// an `Ok` value equals `current` and an `Err` value differs from it. What the cell held is
/// up to the other contexts that share it and is not stated. The standard library panics on
/// a release or acquire-release failure ordering, so those are excluded.
#[verifier::external_body]
fn compare_exchange_i64(
    cell: &core::sync::atomic::AtomicI64,
    current: i64,
    new: i64,
    success: core::sync::atomic::Ordering,
    failure: core::sync::atomic::Ordering,
) -> (r: Result<i64, i64>)
    requires
        !(failure matches core::sync::atomic::Ordering::Release),
        !(failure matches core::sync::atomic::Ordering::AcqRel),
    ensures
        r matches Ok(v) ==> v == current,
        r matches Err(v) ==> v != current,
{
    cell.compare_exchange(current, new, success, failure)
}

impl AtomicHasBasicOps for i64 {
    fn atomic_read(cell: &core::sync::atomic::AtomicI64) -> i64 {
        cell.load(core::sync::atomic::Ordering::Relaxed)
    }

    fn atomic_read_acquire(cell: &core::sync::atomic::AtomicI64) -> i64 {
        cell.load(core::sync::atomic::Ordering::Acquire)
    }

    fn atomic_set(cell: &core::sync::atomic::AtomicI64, v: i64) {
        cell.store(v, core::sync::atomic::Ordering::Relaxed)
    }

    fn atomic_set_release(cell: &core::sync::atomic::AtomicI64, v: i64) {
        cell.store(v, core::sync::atomic::Ordering::Release)
    }
}

impl AtomicHasXchgOps for i64 {
    fn atomic_xchg(cell: &core::sync::atomic::AtomicI64, v: i64) -> i64 {
        cell.swap(v, core::sync::atomic::Ordering::SeqCst)
    }

    fn atomic_xchg_acquire(cell: &core::sync::atomic::AtomicI64, v: i64) -> i64 {
        cell.swap(v, core::sync::atomic::Ordering::Acquire)
    }

    fn atomic_xchg_release(cell: &core::sync::atomic::AtomicI64, v: i64) -> i64 {
        cell.swap(v, core::sync::atomic::Ordering::Release)
    }

    fn atomic_xchg_relaxed(cell: &core::sync::atomic::AtomicI64, v: i64) -> i64 {
        cell.swap(v, core::sync::atomic::Ordering::Relaxed)
    }

    fn atomic_try_cmpxchg(cell: &core::sync::atomic::AtomicI64, expected: &mut i64, new: i64) -> (r: bool) {
        cmpxchg_outcome(compare_exchange_i64(cell, *expected, new, core::sync::atomic::Ordering::SeqCst, core::sync::atomic::Ordering::Relaxed), expected)
    }

    fn atomic_try_cmpxchg_acquire(cell: &core::sync::atomic::AtomicI64, expected: &mut i64, new: i64) -> (r: bool) {
        cmpxchg_outcome(compare_exchange_i64(cell, *expected, new, core::sync::atomic::Ordering::Acquire, core::sync::atomic::Ordering::Relaxed), expected)
    }

    fn atomic_try_cmpxchg_release(cell: &core::sync::atomic::AtomicI64, expected: &mut i64, new: i64) -> (r: bool) {
        cmpxchg_outcome(compare_exchange_i64(cell, *expected, new, core::sync::atomic::Ordering::Release, core::sync::atomic::Ordering::Relaxed), expected)
    }

    fn atomic_try_cmpxchg_relaxed(cell: &core::sync::atomic::AtomicI64, expected: &mut i64, new: i64) -> (r: bool) {
        cmpxchg_outcome(compare_exchange_i64(cell, *expected, new, core::sync::atomic::Ordering::Relaxed, core::sync::atomic::Ordering::Relaxed), expected)
    }
}

impl AtomicHasArithmeticOps for i64 {
    open spec fn spec_wrapping_add_delta(v: i64, d: i64) -> i64 {
        (v + d) as i64
    }

    fn atomic_add(cell: &core::sync::atomic::AtomicI64, v: i64) {
        cell.fetch_add(v, core::sync::atomic::Ordering::Relaxed);
    }

    fn atomic_fetch_add(cell: &core::sync::atomic::AtomicI64, v: i64) -> i64 {
        cell.fetch_add(v, core::sync::atomic::Ordering::SeqCst)
    }

    fn atomic_fetch_add_acquire(cell: &core::sync::atomic::AtomicI64, v: i64) -> i64 {
        cell.fetch_add(v, core::sync::atomic::Ordering::Acquire)
    }

    fn atomic_fetch_add_release(cell: &core::sync::atomic::AtomicI64, v: i64) -> i64 {
        cell.fetch_add(v, core::sync::atomic::Ordering::Release)
    }

    fn atomic_fetch_add_relaxed(cell: &core::sync::atomic::AtomicI64, v: i64) -> i64 {
        cell.fetch_add(v, core::sync::atomic::Ordering::Relaxed)
    }
}

impl AtomicImpl for isize {
    type Delta = isize;

    type Cell = core::sync::atomic::AtomicIsize;

    open spec fn spec_created_value(cell: core::sync::atomic::AtomicIsize) -> isize {
        isize_cell_created_value(cell)
    }

    fn new_cell(v: isize) -> (r: core::sync::atomic::AtomicIsize) {
        new_isize_cell(v)
    }
}

/// The value that a pointer-sized atomic cell was created with.
///
/// Other contexts may write to a cell once it is shared, so this is the value the cell holds
/// only until the first write.
pub uninterp spec fn isize_cell_created_value(cell: core::sync::atomic::AtomicIsize) -> isize;

/// Calls `core::sync::atomic::AtomicIsize::new`, which the standard library documents as creating
/// a cell that holds `v`.
#[verifier::external_body]
fn new_isize_cell(v: isize) -> (r: core::sync::atomic::AtomicIsize)
    ensures
        isize_cell_created_value(r) == v,
{
    core::sync::atomic::AtomicIsize::new(v)
}

/// Calls `core::sync::atomic::AtomicIsize::compare_exchange`, with the failure ordering `failure`.
///
/// The standard library documents that the result is `Ok` exactly when the cell held
/// `current` (and was then set to `new`), and that it carries the value the cell held. So
/// an `Ok` value equals `current` and an `Err` value differs from it. What the cell held is
/// up to the other contexts that share it and is not stated. The standard library panics on
/// a release or acquire-release failure ordering, so those are excluded.
#[verifier::external_body]
fn compare_exchange_isize(
    cell: &core::sync::atomic::AtomicIsize,
    current: isize,
    new: isize,
    success: core::sync::atomic::Ordering,
    failure: core::sync::atomic::Ordering,
) -> (r: Result<isize, isize>)
    requires
        !(failure matches core::sync::atomic::Ordering::Release),
        !(failure matches core::sync::atomic::Ordering::AcqRel),
    ensures
        r matches Ok(v) ==> v == current,
        r matches Err(v) ==> v != current,
{
    cell.compare_exchange(current, new, success, failure)
}

impl AtomicHasBasicOps for isize {
    fn atomic_read(cell: &core::sync::atomic::AtomicIsize) -> isize {
        cell.load(core::sync::atomic::Ordering::Relaxed)
    }

    fn atomic_read_acquire(cell: &core::sync::atomic::AtomicIsize) -> isize {
        cell.load(core::sync::atomic::Ordering::Acquire)
    }

    fn atomic_set(cell: &core::sync::atomic::AtomicIsize, v: isize) {
        cell.store(v, core::sync::atomic::Ordering::Relaxed)
    }

    fn atomic_set_release(cell: &core::sync::atomic::AtomicIsize, v: isize) {
        cell.store(v, core::sync::atomic::Ordering::Release)
    }
}

impl AtomicHasXchgOps for isize {
    fn atomic_xchg(cell: &core::sync::atomic::AtomicIsize, v: isize) -> isize {
        cell.swap(v, core::sync::atomic::Ordering::SeqCst)
    }

    fn atomic_xchg_acquire(cell: &core::sync::atomic::AtomicIsize, v: isize) -> isize {
        cell.swap(v, core::sync::atomic::Ordering::Acquire)
    }

    fn atomic_xchg_release(cell: &core::sync::atomic::AtomicIsize, v: isize) -> isize {
        cell.swap(v, core::sync::atomic::Ordering::Release)
    }

    fn atomic_xchg_relaxed(cell: &core::sync::atomic::AtomicIsize, v: isize) -> isize {
        cell.swap(v, core::sync::atomic::Ordering::Relaxed)
    }

    fn atomic_try_cmpxchg(cell: &core::sync::atomic::AtomicIsize, expected: &mut isize, new: isize) -> (r: bool) {
        cmpxchg_outcome(compare_exchange_isize(cell, *expected, new, core::sync::atomic::Ordering::SeqCst, core::sync::atomic::Ordering::Relaxed), expected)
    }

    fn atomic_try_cmpxchg_acquire(cell: &core::sync::atomic::AtomicIsize, expected: &mut isize, new: isize) -> (r: bool) {
        cmpxchg_outcome(compare_exchange_isize(cell, *expected, new, core::sync::atomic::Ordering::Acquire, core::sync::atomic::Ordering::Relaxed), expected)
    }

    fn atomic_try_cmpxchg_release(cell: &core::sync::atomic::AtomicIsize, expected: &mut isize, new: isize) -> (r: bool) {
        cmpxchg_outcome(compare_exchange_isize(cell, *expected, new, core::sync::atomic::Ordering::Release, core::sync::atomic::Ordering::Relaxed), expected)
    }

    fn atomic_try_cmpxchg_relaxed(cell: &core::sync::atomic::AtomicIsize, expected: &mut isize, new: isize) -> (r: bool) {
        cmpxchg_outcome(compare_exchange_isize(cell, *expected, new, core::sync::atomic::Ordering::Relaxed, core::sync::atomic::Ordering::Relaxed), expected)
    }
}

impl AtomicHasArithmeticOps for isize {
    open spec fn spec_wrapping_add_delta(v: isize, d: isize) -> isize {
        (v + d) as isize
    }

    fn atomic_add(cell: &core::sync::atomic::AtomicIsize, v: isize) {
        cell.fetch_add(v, core::sync::atomic::Ordering::Relaxed);
    }

    fn atomic_fetch_add(cell: &core::sync::atomic::AtomicIsize, v: isize) -> isize {
        cell.fetch_add(v, core::sync::atomic::Ordering::SeqCst)
    }

    fn atomic_fetch_add_acquire(cell: &core::sync::atomic::AtomicIsize, v: isize) -> isize {
        cell.fetch_add(v, core::sync::atomic::Ordering::Acquire)
    }

    fn atomic_fetch_add_release(cell: &core::sync::atomic::AtomicIsize, v: isize) -> isize {
        cell.fetch_add(v, core::sync::atomic::Ordering::Release)
    }

    fn atomic_fetch_add_relaxed(cell: &core::sync::atomic::AtomicIsize, v: isize) -> isize {
        cell.fetch_add(v, core::sync::atomic::Ordering::Relaxed)
    }
}

} // verus!
