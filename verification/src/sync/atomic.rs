//! Atomic primitives.
//!
//! The integer types `i32`, `i64`, `u32`, `u64`, `isize` and `usize` can be held in an
//! [`Atomic`]. Signed and unsigned 32-bit values are held in 32-bit atomic cells, signed and
//! unsigned 64-bit values in 64-bit atomic cells, and signed and unsigned pointer-sized
//! values in pointer-sized atomic cells.

pub mod generic;
pub mod ops;
pub mod ordering;

pub use generic::Atomic;
pub use ordering::{Acquire, Full, Relaxed, Release};

use generic::{reprs_distinct, AllowAtomic, AllowAtomicAdd};
use vstd::prelude::*;

verus! {

impl AllowAtomic for i32 {
    type Repr = i32;

    open spec fn spec_into_repr(self) -> i32 {
        self
    }

    open spec fn spec_from_repr(r: i32) -> i32 {
        r
    }

    fn into_repr(self) -> (r: i32) {
        self
    }

    fn from_repr(r: i32) -> (v: i32) {
        r
    }

    proof fn lemma_round_trip(v: i32) {
    }
}

impl AllowAtomicAdd<i32> for i32 {
    open spec fn spec_rhs_into_delta(rhs: i32) -> i32 {
        rhs
    }

    open spec fn spec_wrapping_add(v: i32, rhs: i32) -> i32 {
        (v + rhs) as i32
    }

    fn rhs_into_delta(rhs: i32) -> (d: i32) {
        rhs
    }

    proof fn lemma_add_through_repr(v: i32, rhs: i32) {
    }
}

impl AllowAtomic for i64 {
    type Repr = i64;

    open spec fn spec_into_repr(self) -> i64 {
        self
    }

    open spec fn spec_from_repr(r: i64) -> i64 {
        r
    }

    fn into_repr(self) -> (r: i64) {
        self
    }

    fn from_repr(r: i64) -> (v: i64) {
        r
    }

    proof fn lemma_round_trip(v: i64) {
    }
}

impl AllowAtomicAdd<i64> for i64 {
    open spec fn spec_rhs_into_delta(rhs: i64) -> i64 {
        rhs
    }

    open spec fn spec_wrapping_add(v: i64, rhs: i64) -> i64 {
        (v + rhs) as i64
    }

    fn rhs_into_delta(rhs: i64) -> (d: i64) {
        rhs
    }

    proof fn lemma_add_through_repr(v: i64, rhs: i64) {
    }
}

impl AllowAtomic for u32 {
    type Repr = i32;

    open spec fn spec_into_repr(self) -> i32 {
        self as i32
    }

    open spec fn spec_from_repr(r: i32) -> u32 {
        r as u32
    }

    fn into_repr(self) -> (r: i32) {
        self as i32
    }

    fn from_repr(r: i32) -> (v: u32) {
        r as u32
    }

    proof fn lemma_round_trip(v: u32) {
        assert((v as i32) as u32 == v) by (bit_vector);
    }
}

impl AllowAtomicAdd<u32> for u32 {
    open spec fn spec_rhs_into_delta(rhs: u32) -> i32 {
        rhs as i32
    }

    open spec fn spec_wrapping_add(v: u32, rhs: u32) -> u32 {
        (v + rhs) as u32
    }

    fn rhs_into_delta(rhs: u32) -> (d: i32) {
        rhs as i32
    }

    proof fn lemma_add_through_repr(v: u32, rhs: u32) {
        assert((((v as i32) + (rhs as i32)) as i32) as u32 == (v + rhs) as u32) by (bit_vector);
    }
}

impl AllowAtomic for u64 {
    type Repr = i64;

    open spec fn spec_into_repr(self) -> i64 {
        self as i64
    }

    open spec fn spec_from_repr(r: i64) -> u64 {
        r as u64
    }

    fn into_repr(self) -> (r: i64) {
        self as i64
    }

    fn from_repr(r: i64) -> (v: u64) {
        r as u64
    }

    proof fn lemma_round_trip(v: u64) {
        assert((v as i64) as u64 == v) by (bit_vector);
    }
}

impl AllowAtomicAdd<u64> for u64 {
    open spec fn spec_rhs_into_delta(rhs: u64) -> i64 {
        rhs as i64
    }

    open spec fn spec_wrapping_add(v: u64, rhs: u64) -> u64 {
        (v + rhs) as u64
    }

    fn rhs_into_delta(rhs: u64) -> (d: i64) {
        rhs as i64
    }

    proof fn lemma_add_through_repr(v: u64, rhs: u64) {
        assert((((v as i64) + (rhs as i64)) as i64) as u64 == (v + rhs) as u64) by (bit_vector);
    }
}

impl AllowAtomic for isize {
    type Repr = isize;

    open spec fn spec_into_repr(self) -> isize {
        self
    }

    open spec fn spec_from_repr(r: isize) -> isize {
        r
    }

    fn into_repr(self) -> (r: isize) {
        self
    }

    fn from_repr(r: isize) -> (v: isize) {
        r
    }

    proof fn lemma_round_trip(v: isize) {
    }
}

impl AllowAtomicAdd<isize> for isize {
    open spec fn spec_rhs_into_delta(rhs: isize) -> isize {
        rhs
    }

    open spec fn spec_wrapping_add(v: isize, rhs: isize) -> isize {
        (v + rhs) as isize
    }

    fn rhs_into_delta(rhs: isize) -> (d: isize) {
        rhs
    }

    proof fn lemma_add_through_repr(v: isize, rhs: isize) {
    }
}

impl AllowAtomic for usize {
    type Repr = isize;

    open spec fn spec_into_repr(self) -> isize {
        self as isize
    }

    open spec fn spec_from_repr(r: isize) -> usize {
        r as usize
    }

    fn into_repr(self) -> (r: isize) {
        self as isize
    }

    fn from_repr(r: isize) -> (v: usize) {
        r as usize
    }

    proof fn lemma_round_trip(v: usize) {
        assert((v as isize) as usize == v) by (bit_vector);
    }
}

impl AllowAtomicAdd<usize> for usize {
    open spec fn spec_rhs_into_delta(rhs: usize) -> isize {
        rhs as isize
    }

    open spec fn spec_wrapping_add(v: usize, rhs: usize) -> usize {
        (v + rhs) as usize
    }

    fn rhs_into_delta(rhs: usize) -> (d: isize) {
        rhs as isize
    }

    proof fn lemma_add_through_repr(v: usize, rhs: usize) {
        assert((((v as isize) + (rhs as isize)) as isize) as usize == (v + rhs) as usize) by (bit_vector);
    }
}

/// Each integer type that an atomic can hold has exactly one representation per value.
pub proof fn lemma_integer_reprs_distinct()
    ensures
        reprs_distinct::<i32>(),
        reprs_distinct::<i64>(),
        reprs_distinct::<u32>(),
        reprs_distinct::<u64>(),
        reprs_distinct::<isize>(),
        reprs_distinct::<usize>(),
{
    assert forall|a: i32, b: i32|
        #[trigger] <u32 as AllowAtomic>::spec_from_repr(a) == #[trigger] <u32 as AllowAtomic>::spec_from_repr(
            b,
        ) implies a == b by {
        assert((a as u32) == (b as u32) ==> a == b) by (bit_vector);
    }
    assert forall|a: i64, b: i64|
        #[trigger] <u64 as AllowAtomic>::spec_from_repr(a) == #[trigger] <u64 as AllowAtomic>::spec_from_repr(
            b,
        ) implies a == b by {
        assert((a as u64) == (b as u64) ==> a == b) by (bit_vector);
    }
    assert forall|a: isize, b: isize|
        #[trigger] <usize as AllowAtomic>::spec_from_repr(a) == #[trigger] <usize as AllowAtomic>::spec_from_repr(
            b,
        ) implies a == b by {
        assert((a as usize) == (b as usize) ==> a == b) by (bit_vector);
    }
}

} // verus!
