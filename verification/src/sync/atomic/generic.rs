//! Generic atomic primitives.

use super::ops::{AtomicHasArithmeticOps, AtomicHasBasicOps, AtomicHasXchgOps, AtomicImpl};
use super::ordering::{AcquireOrRelaxed, Any, OrderingType, Relaxed, ReleaseOrRelaxed};
use vstd::prelude::*;

verus! {

/// A memory location which can be safely modified from multiple execution contexts.
///
/// The location holds the representation ([`AllowAtomic::Repr`]) of a `T` in a hardware
/// atomic cell. Every operation goes through that cell, so the value that an operation
/// reads may have been written by any context that shares the location.
pub struct Atomic<T: AllowAtomic>(<T::Repr as AtomicImpl>::Cell);

/// Types that support basic atomic operations.
///
/// # Round-trip transmutability
///
/// A type is round-trip transmutable to its representation if converting a value to the
/// representation and back yields the original value. Every implementation proves this in
/// [`AllowAtomic::lemma_round_trip`]. The converse is not required: a representation may
/// hold bit patterns that are no value of the type (as for unit-only enums).
pub trait AllowAtomic: Sized + Send + Copy {
    /// The backing atomic implementation type.
    type Repr: AtomicImpl;

    /// The representation of a value.
    spec fn spec_into_repr(self) -> Self::Repr;

    /// The value that a representation stands for.
    spec fn spec_from_repr(r: Self::Repr) -> Self;

    /// Converts a value to its representation.
    fn into_repr(self) -> (r: Self::Repr)
        ensures
            r == self.spec_into_repr(),
    ;

    /// Converts a representation back to a value.
    fn from_repr(r: Self::Repr) -> (v: Self)
        ensures
            v == Self::spec_from_repr(r),
    ;

    /// Converting a value to its representation and back yields the value.
    proof fn lemma_round_trip(v: Self)
        ensures
            Self::spec_from_repr(v.spec_into_repr()) == v,
    ;
}

/// Types that support atomic add operations with a right-hand side of type `Rhs`.
///
/// # Wrapping add
///
/// Adding the delta of a right-hand side to the representation of a value, with wrapping,
/// yields the representation of the wrapping sum of the value and the right-hand side. Every
/// implementation proves this in [`AllowAtomicAdd::lemma_add_through_repr`].
pub trait AllowAtomicAdd<Rhs>: AllowAtomic where Self::Repr: AtomicHasArithmeticOps {
    /// The delta that a right-hand side stands for.
    spec fn spec_rhs_into_delta(rhs: Rhs) -> <Self::Repr as AtomicImpl>::Delta;

    /// The wrapping sum of a value and a right-hand side.
    spec fn spec_wrapping_add(v: Self, rhs: Rhs) -> Self;

    /// Converts a right-hand side to the delta of the backing implementation.
    fn rhs_into_delta(rhs: Rhs) -> (d: <Self::Repr as AtomicImpl>::Delta)
        ensures
            d == Self::spec_rhs_into_delta(rhs),
    ;

    /// Adding through the representation is the wrapping sum of the value and `rhs`.
    proof fn lemma_add_through_repr(v: Self, rhs: Rhs)
        ensures
            Self::spec_from_repr(
                <Self::Repr as AtomicHasArithmeticOps>::spec_wrapping_add_delta(
                    v.spec_into_repr(),
                    Self::spec_rhs_into_delta(rhs),
                ),
            ) == Self::spec_wrapping_add(v, rhs),
    ;
}

/// The value that a compare and exchange leaves in `*old` on failure: the value of some
/// representation that differs from that of the expected value.
pub open spec fn cmpxchg_failure_value<T: AllowAtomic>(expected: T, found: T) -> bool {
    exists|r: T::Repr| r != expected.spec_into_repr() && found == T::spec_from_repr(r)
}

/// `v` is the value that some representation stands for.
///
/// This holds of every value of `T`: by [`AllowAtomic::lemma_round_trip`], `v` is what its own
/// representation stands for. As a clause of a read it therefore says only that the value read
/// was obtained by converting a representation back, and nothing about which value it is.
pub open spec fn is_decoded<T: AllowAtomic>(v: T) -> bool {
    exists|r: T::Repr| v == #[trigger] T::spec_from_repr(r)
}

/// No two representations stand for the same value of `T`.
pub open spec fn reprs_distinct<T: AllowAtomic>() -> bool {
    forall|a: T::Repr, b: T::Repr|
        #[trigger] T::spec_from_repr(a) == #[trigger] T::spec_from_repr(b) ==> a == b
}

/// When no two representations stand for the same value, the value that a failed compare and
/// exchange reports is not the expected one.
pub proof fn lemma_cmpxchg_failure_differs<T: AllowAtomic>(expected: T, found: T)
    requires
        reprs_distinct::<T>(),
        cmpxchg_failure_value(expected, found),
    ensures
        found != expected,
{
    let r = choose|r: T::Repr| r != expected.spec_into_repr() && found == T::spec_from_repr(r);
    T::lemma_round_trip(expected);
    if found == expected {
        assert(T::spec_from_repr(r) == T::spec_from_repr(expected.spec_into_repr()));
    }
}

impl<T: AllowAtomic> Atomic<T> {
    /// The value that the atomic was created with.
    ///
    /// Other contexts may write to the atomic once it is shared, so this is the value it holds
    /// only until the first write.
    pub closed spec fn created_value(self) -> T {
        T::spec_from_repr(T::Repr::spec_created_value(self.0))
    }

    /// Creates a new atomic `T`, holding `v`.
    pub fn new(v: T) -> (r: Self)
        ensures
            r.created_value() == v,
    {
        proof {
            T::lemma_round_trip(v);
        }
        Self(T::Repr::new_cell(v.into_repr()))
    }
}

impl<T: AllowAtomic> Atomic<T> where T::Repr: AtomicHasBasicOps {
    /// Loads the value from the atomic `T`.
    ///
    /// A relaxed ordering reads with a relaxed load, an acquire ordering with an acquire
    /// load; no other ordering is accepted. The value read is whatever the location held,
    /// which any sharing context may have written, converted back from its representation.
    pub fn load<O: AcquireOrRelaxed>(&self, _o: O) -> (r: T)
        ensures
            is_decoded(r),
    {
        let v = match O::ordering_type() {
            OrderingType::Relaxed => T::Repr::atomic_read(&self.0),
            _ => {
                proof {
                    O::lemma_acquire_or_relaxed();
                }
                assert(O::spec_type() == OrderingType::Acquire);
                T::Repr::atomic_read_acquire(&self.0)
            },
        };
        T::from_repr(v)
    }

    /// Stores a value to the atomic `T`.
    ///
    /// A relaxed ordering writes with a relaxed store, a release ordering with a release
    /// store; no other ordering is accepted.
    pub fn store<O: ReleaseOrRelaxed>(&self, v: T, _o: O) {
        let v = v.into_repr();
        match O::ordering_type() {
            OrderingType::Relaxed => T::Repr::atomic_set(&self.0, v),
            _ => {
                proof {
                    O::lemma_release_or_relaxed();
                }
                assert(O::spec_type() == OrderingType::Release);
                T::Repr::atomic_set_release(&self.0, v)
            },
        }
    }
}

impl<T: AllowAtomic> Atomic<T> where T::Repr: AtomicHasXchgOps {
    /// Atomic exchange.
    ///
    /// Atomically updates `*self` to `v` and returns the old value of `*self`.
    pub fn xchg<O: Any>(&self, v: T, _o: O) -> (r: T)
        ensures
            is_decoded(r),
    {
        let v = v.into_repr();
        let ret = match O::ordering_type() {
            OrderingType::Full => T::Repr::atomic_xchg(&self.0, v),
            OrderingType::Acquire => T::Repr::atomic_xchg_acquire(&self.0, v),
            OrderingType::Release => T::Repr::atomic_xchg_release(&self.0, v),
            OrderingType::Relaxed => T::Repr::atomic_xchg_relaxed(&self.0, v),
        };
        T::from_repr(ret)
    }

    /// Atomic compare and exchange.
    ///
    /// If `*self` == `old` (compared by representation), atomically updates `*self` to
    /// `new`. Otherwise, `*self` is not modified.
    ///
    /// Returns `Ok(value)` if the exchange succeeds, and `value` is then equal to `old`.
    /// Otherwise returns `Err(value)`, where `value` is the current value of `*self`.
    ///
    /// What the location holds is up to every context that shares it, so the contract states
    /// of a failure only that the value reported decodes a representation different from that
    /// of `old`; that it is the value found is stated one level down, by
    /// [`super::ops::cmpxchg_outcome`].
    pub fn cmpxchg<O: Any>(&self, old: T, new: T, o: O) -> (r: Result<T, T>)
        ensures
            r matches Ok(v) ==> v == old,
            r matches Err(v) ==> cmpxchg_failure_value(old, v),
    {
        let mut old = old;
        if self.try_cmpxchg(&mut old, new, o) {
            Ok(old)
        } else {
            Err(old)
        }
    }

    /// Atomic compare and exchange and returns whether the operation succeeds.
    ///
    /// If `*self` == `*expected`, atomically updates `*self` to `new`. Otherwise, `*self` is
    /// not modified and `*expected` is updated to the current value of `*self`. As for
    /// [`Atomic::cmpxchg`], the contract states of a failure that `*expected` then decodes a
    /// representation different from the expected one.
    fn try_cmpxchg<O: Any>(&self, expected: &mut T, new: T, _o: O) -> (r: bool)
        ensures
            r ==> *final(expected) == *old(expected),
            !r ==> cmpxchg_failure_value(*old(expected), *final(expected)),
    {
        let mut old_tmp = (*expected).into_repr();
        let new = new.into_repr();
        let ret = match O::ordering_type() {
            OrderingType::Full => T::Repr::atomic_try_cmpxchg(&self.0, &mut old_tmp, new),
            OrderingType::Acquire => T::Repr::atomic_try_cmpxchg_acquire(&self.0, &mut old_tmp, new),
            OrderingType::Release => T::Repr::atomic_try_cmpxchg_release(&self.0, &mut old_tmp, new),
            OrderingType::Relaxed => T::Repr::atomic_try_cmpxchg_relaxed(&self.0, &mut old_tmp, new),
        };
        proof {
            T::lemma_round_trip(*expected);
        }
        *expected = T::from_repr(old_tmp);
        ret
    }
}

impl<T: AllowAtomic> Atomic<T> where T::Repr: AtomicHasArithmeticOps {
    /// Atomic add.
    ///
    /// Atomically updates `*self` to `(*self).wrapping_add(v)`.
    pub fn add<Rhs>(&self, v: Rhs, _o: Relaxed) where T: AllowAtomicAdd<Rhs> {
        let delta = T::rhs_into_delta(v);
        T::Repr::atomic_add(&self.0, delta)
    }

    /// Atomic fetch and add.
    ///
    /// Atomically updates `*self` to `(*self).wrapping_add(v)`, and returns the value of
    /// `*self` before the update.
    pub fn fetch_add<Rhs, O: Any>(&self, v: Rhs, _o: O) -> (r: T) where
        T: AllowAtomicAdd<Rhs>,
        ensures
            is_decoded(r),
    {
        let delta = T::rhs_into_delta(v);
        let ret = match O::ordering_type() {
            OrderingType::Full => T::Repr::atomic_fetch_add(&self.0, delta),
            OrderingType::Acquire => T::Repr::atomic_fetch_add_acquire(&self.0, delta),
            OrderingType::Release => T::Repr::atomic_fetch_add_release(&self.0, delta),
            OrderingType::Relaxed => T::Repr::atomic_fetch_add_relaxed(&self.0, delta),
        };
        T::from_repr(ret)
    }
}

} // verus!
