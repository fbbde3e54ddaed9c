//! The seal on the atomic implementation traits.

use vstd::prelude::*;

verus! {

/// Sealed trait marker to disable customized impls on atomic implementation traits.
pub trait Sealed {}

impl Sealed for i32 {}

impl Sealed for i64 {}

impl Sealed for isize {}

} // verus!
