//! RCU support.
//!
//! An [`Rcu<P>`] publishes a value of type `P` to readers. Readers present a [`Guard`] (from
//! [`read_lock`]) and obtain the published value with [`Rcu::dereference`]; a writer with
//! exclusive access replaces it with [`Rcu::copy_update`] or [`Rcu::replace`].
//!
//! There is no read-side lock and no grace period here. A published value is shared between
//! the cell and every reader that obtained it, and it is freed when the last of them lets it
//! go. A reader therefore keeps seeing the value it obtained after a writer has replaced it,
//! and the replaced value stays alive (as an [`RcuOld`]) until every such reader is done:
//! the guarantee that the read-side lock and the grace period give in the kernel.

use std::sync::Arc;
use vstd::prelude::*;

verus! {

/// A read-side token that readers present to [`Rcu::dereference`].
///
/// It holds no state and takes no lock: the values that readers obtain stay alive by shared
/// ownership.
pub struct Guard {
    _held: (),
}

impl Guard {
    /// Returns a read-side token.
    pub fn new() -> Self {
        Guard { _held: () }
    }

    /// Explicitly gives up the read-side token.
    pub fn unlock(self) {
    }
}

impl Default for Guard {
    fn default() -> Self {
        Self::new()
    }
}

/// Returns a read-side token.
pub fn read_lock() -> Guard {
    Guard::new()
}

/// Hands out another reference to the allocation of `a`.
///
/// Calls `Arc::clone`; the standard library documents that the result points to the same
/// allocation, so it stands for the same value.
#[verifier::external_body]
fn share<T>(a: &Arc<T>) -> (r: Arc<T>)
    ensures
        *r == **a,
{
    Arc::clone(a)
}

/// An RCU protected value.
///
/// The cell is either empty or holds the published value.
pub struct Rcu<P>(Option<Arc<P>>);

/// A value that has been unpublished but may still be read by readers that obtained it
/// before it was unpublished.
pub struct RcuOld<P>(Arc<P>);

impl<P> View for Rcu<P> {
    type V = Option<P>;

    closed spec fn view(&self) -> Option<P> {
        match self.0 {
            Some(a) => Some(*a),
            None => None,
        }
    }
}

impl<P> View for RcuOld<P> {
    type V = P;

    closed spec fn view(&self) -> P {
        *self.0
    }
}

/// What the update callback of [`Rcu::copy_update`] is given: a borrow of the published
/// value, if there is one.
pub open spec fn borrowed<'a, P>(v: Option<P>) -> Option<&'a P> {
    match v {
        Some(p) => Some(&p),
        None => None,
    }
}

impl<P> Rcu<P> {
    /// Creates a new RCU pointer.
    pub fn new(p: P) -> (r: Self)
        ensures
            r@ == Some(p),
    {
        Rcu(Some(Arc::new(p)))
    }

    /// Dereferences the protected object.
    ///
    /// Returns `Some(b)`, where `b` is a reference to the published value, if there is one,
    /// otherwise returns `None`. The reference stays valid after the value is replaced.
    pub fn dereference<'rcu>(&self, _rcu_guard: &'rcu Guard) -> (r: Option<Arc<P>>)
        ensures
            r matches Some(b) ==> self@ == Some(*b),
            r is None <==> self@ is None,
    {
        match &self.0 {
            Some(a) => Some(share(a)),
            None => None,
        }
    }

    /// Read, copy and update the pointer with new value.
    ///
    /// Calls `f` with a borrow of the published value (`None` if there is none), publishes
    /// what `f` returns, and returns `Some(old)` where `old` is the formerly published
    /// value, or `None` if there was none.
    pub fn copy_update<F>(&mut self, f: F) -> (r: Option<RcuOld<P>>) where
        F: FnOnce(Option<&P>) -> Option<P>,
        requires
            call_requires(f, (borrowed(old(self)@),)),
        ensures
            call_ensures(f, (borrowed(old(self)@),), final(self)@),
            r is Some <==> old(self)@ is Some,
            r matches Some(o) ==> old(self)@ == Some(o@),
    {
        let current = match &self.0 {
            Some(a) => Some(&**a),
            None => None,
        };
        let new = f(current);
        self.publish(new)
    }

    /// Publishes `new` (or empties the cell if it is `None`) and unpublishes the formerly
    /// published value.
    fn publish(&mut self, new: Option<P>) -> (r: Option<RcuOld<P>>)
        ensures
            final(self)@ == new,
            r is Some <==> old(self)@ is Some,
            r matches Some(o) ==> old(self)@ == Some(o@),
    {
        let mut slot = match new {
            Some(n) => Some(Arc::new(n)),
            None => None,
        };
        std::mem::swap(&mut self.0, &mut slot);
        match slot {
            Some(a) => Some(RcuOld(a)),
            None => None,
        }
    }

    /// Replaces the pointer with new value.
    ///
    /// Returns `None` if there was no published value, otherwise returns `Some(old)`, where
    /// `old` is the formerly published value.
    pub fn replace(&mut self, new: P) -> (r: Option<RcuOld<P>>)
        ensures
            final(self)@ == Some(new),
            r is Some <==> old(self)@ is Some,
            r matches Some(o) ==> old(self)@ == Some(o@),
    {
        self.publish(Some(new))
    }
}

} // verus!
