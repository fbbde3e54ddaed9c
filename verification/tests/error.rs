use kernel::error::code::{eintr, einval, EINTR_ERRNO, EINVAL_ERRNO};
use kernel::error::{to_result, Error};
use kernel::task::thread::{bridge_exit_code, unstarted_stop_ok};

#[test]
fn errno_round_trip() {
    assert_eq!(-12, Error::from_errno(-12).to_errno());
    assert_eq!(-4095, Error::from_errno(-4095).to_errno());
    assert_eq!(-1, Error::try_from_errno(-1).unwrap().to_errno());
}

#[test]
fn out_of_range_errno_becomes_einval() {
    assert_eq!(einval(), Error::from_errno(-4096));
    assert_eq!(einval(), Error::from_errno(0));
    assert_eq!(einval(), Error::from_errno(5));
    assert!(Error::try_from_errno(0).is_none());
    assert!(Error::try_from_errno(-4096).is_none());
}

#[test]
fn to_result_splits_on_sign() {
    assert_eq!(Ok(()), to_result(0));
    assert_eq!(Ok(()), to_result(3));
    assert_eq!(Err(eintr()), to_result(-4));
    assert_eq!(Err(einval()), to_result(-5000));
    assert_eq!(EINTR_ERRNO, eintr().to_errno());
    assert_eq!(EINVAL_ERRNO, einval().to_errno());
}

#[test]
fn thread_exit_codes() {
    assert_eq!(0, bridge_exit_code(Ok(())));
    assert_eq!(-4, bridge_exit_code(Err(eintr())));
    assert_eq!(-22, bridge_exit_code(Err(Error::from_errno(-22))));
}

#[test]
fn unstarted_stop_expects_eintr() {
    assert!(unstarted_stop_ok(-4));
    assert!(!unstarted_stop_ok(0));
    assert!(!unstarted_stop_ok(-22));
    assert!(!unstarted_stop_ok(4));
}
