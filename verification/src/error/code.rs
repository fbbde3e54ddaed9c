//! Error codes.

use super::Error;
use vstd::prelude::*;

verus! {

/// The error number of an interrupted system call.
pub const EINTR_ERRNO: i32 = -4;

/// The error number of an invalid argument.
pub const EINVAL_ERRNO: i32 = -22;

/// Interrupted system call.
pub fn eintr() -> (r: Error)
    ensures
        r@ == EINTR_ERRNO,
{
    Error::try_from_errno(EINTR_ERRNO).unwrap()
}

/// Invalid argument.
pub fn einval() -> (r: Error)
    ensures
        r@ == EINVAL_ERRNO,
{
    Error::try_from_errno(EINVAL_ERRNO).unwrap()
}

} // verus!
