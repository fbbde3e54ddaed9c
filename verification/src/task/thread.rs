//! The decisions of kernel threads (kthreads).
//!
//! Creating, binding, starting and stopping a thread is the scheduler's work. What the thread
//! layer itself decides is stated here: the exit code that a thread's closure yields, and
//! whether the stop of a thread that never ran came back as expected.

use crate::error::{code, to_result, Result};
use vstd::prelude::*;

verus! {

/// The exit code of a thread whose closure returned `r`: `0` on success, the error number
/// otherwise.
pub fn bridge_exit_code(r: Result) -> (code: i32)
    ensures
        r is Ok ==> code == 0,
        r matches Err(e) ==> code == e@,
{
    match r {
        Ok(()) => 0,
        Err(e) => e.to_errno(),
    }
}

/// Whether stopping a thread that has not run, which returned `stop_code`, went as expected.
///
/// A thread that is stopped before it runs never runs its closure, and the stop reports an
/// interrupted system call.
pub fn unstarted_stop_ok(stop_code: i32) -> (r: bool)
    ensures
        r <==> stop_code == code::EINTR_ERRNO,
{
    match to_result(stop_code) {
        Ok(()) => false,
        Err(e) => e.to_errno() == code::EINTR_ERRNO,
    }
}

} // verus!
