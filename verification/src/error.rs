//! Kernel errors.
//!
//! An [`Error`] holds a kernel error number: a negative integer no smaller than
//! `-MAX_ERRNO`.

pub mod code;

use vstd::prelude::*;

verus! {

/// The largest error number.
pub const MAX_ERRNO: i32 = 4095;

/// A kernel error, holding its (negative) error number.
#[derive(Clone, Copy, Debug, PartialEq, Eq, Structural)]
pub struct Error {
    errno: i32,
}

/// The result type of kernel operations.
pub type Result<T = ()> = core::result::Result<T, Error>;

/// Whether `errno` is a kernel error number.
pub open spec fn is_errno(errno: int) -> bool {
    -MAX_ERRNO <= errno < 0
}

impl View for Error {
    type V = i32;

    closed spec fn view(&self) -> i32 {
        self.errno
    }
}

impl Error {
    #[verifier::type_invariant]
    spec fn inv(self) -> bool {
        is_errno(self.errno as int)
    }

    /// Creates an error from a kernel error number, or `None` if `errno` is not one.
    pub fn try_from_errno(errno: i32) -> (r: Option<Error>)
        ensures
            r is Some <==> is_errno(errno as int),
            r matches Some(e) ==> e@ == errno,
    {
        if errno < -MAX_ERRNO || errno >= 0 {
            None
        } else {
            Some(Error { errno })
        }
    }

    /// Creates an error from a kernel error number; a value that is not an error number
    /// gives [`code::einval`].
    pub fn from_errno(errno: i32) -> (r: Error)
        ensures
            is_errno(errno as int) ==> r@ == errno,
            !is_errno(errno as int) ==> r@ == code::EINVAL_ERRNO,
    {
        match Self::try_from_errno(errno) {
            Some(e) => e,
            None => code::einval(),
        }
    }

    /// Returns the error number.
    pub fn to_errno(self) -> (r: i32)
        ensures
            r == self@,
            is_errno(r as int),
    {
        proof {
            use_type_invariant(&self);
        }
        self.errno
    }
}

/// Converts an integer as returned by a C kernel function to a [`Result`]: a negative value
/// is an error, anything else is success.
pub fn to_result(err: i32) -> (r: Result)
    ensures
        err >= 0 ==> r is Ok,
        err < 0 ==> (r matches Err(e) && e@ == (if is_errno(err as int) {
            err
        } else {
            code::EINVAL_ERRNO
        })),
{
    if err < 0 {
        Err(Error::from_errno(err))
    } else {
        Ok(())
    }
}

} // verus!
