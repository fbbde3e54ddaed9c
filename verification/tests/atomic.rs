use kernel::sync::atomic::generic::{AllowAtomic, AllowAtomicAdd};
use kernel::sync::atomic::ops::{
    cmpxchg_outcome, AtomicHasArithmeticOps, AtomicHasBasicOps, AtomicHasXchgOps,
};
use kernel::sync::atomic::{Acquire, Atomic, Full, Relaxed, Release};
use std::fmt::Debug;

fn basic_case<T: AllowAtomic + PartialEq + Debug>(v: T)
where
    T::Repr: AtomicHasBasicOps,
{
    let x = Atomic::new(v);

    assert_eq!(v, x.load(Relaxed));
}

fn xchg_case<T: AllowAtomic + PartialEq + Debug>(v: T, new: T)
where
    T::Repr: AtomicHasBasicOps + AtomicHasXchgOps,
{
    let x = Atomic::new(v);

    let old = v;

    assert_eq!(old, x.xchg(new, Full));
    assert_eq!(new, x.load(Relaxed));
}

fn cmpxchg_case<T: AllowAtomic + PartialEq + Debug>(v: T, new: T)
where
    T::Repr: AtomicHasBasicOps + AtomicHasXchgOps,
{
    let x = Atomic::new(v);

    let old = v;

    assert_eq!(Err(old), x.cmpxchg(new, new, Full));
    assert_eq!(old, x.load(Relaxed));
    assert_eq!(Ok(old), x.cmpxchg(old, new, Relaxed));
    assert_eq!(new, x.load(Relaxed));
}

fn arithmetic_case<T: AllowAtomic + AllowAtomicAdd<T> + PartialEq + Debug>(
    v: T,
    twelve: T,
    thirteen: T,
    v_plus_12: T,
    v_plus_25: T,
) where
    T::Repr: AtomicHasBasicOps + AtomicHasArithmeticOps,
{
    let x = Atomic::new(v);

    assert_eq!(v, x.fetch_add(twelve, Full));
    assert_eq!(v_plus_12, x.load(Relaxed));

    x.add(thirteen, Relaxed);

    assert_eq!(v_plus_25, x.load(Relaxed));
}

#[test]
fn atomic_basic_tests() {
    basic_case(42i32);
    basic_case(42i64);
    basic_case(42u32);
    basic_case(42u64);
    basic_case(42isize);
    basic_case(42usize);
}

#[test]
fn atomic_xchg_tests() {
    xchg_case(42i32, 42i32 + 1);
    xchg_case(42i64, 42i64 + 1);
    xchg_case(42u32, 42u32 + 1);
    xchg_case(42u64, 42u64 + 1);
    xchg_case(42isize, 42isize + 1);
    xchg_case(42usize, 42usize + 1);
}

#[test]
fn atomic_cmpxchg_tests() {
    cmpxchg_case(42i32, 42i32 + 1);
    cmpxchg_case(42i64, 42i64 + 1);
    cmpxchg_case(42u32, 42u32 + 1);
    cmpxchg_case(42u64, 42u64 + 1);
    cmpxchg_case(42isize, 42isize + 1);
    cmpxchg_case(42usize, 42usize + 1);
}

#[test]
fn atomic_arithmetic_tests() {
    arithmetic_case(42i32, 12, 13, 42 + 12, 42 + 25);
    arithmetic_case(42i64, 12, 13, 42 + 12, 42 + 25);
    arithmetic_case(42u32, 12, 13, 42 + 12, 42 + 25);
    arithmetic_case(42u64, 12, 13, 42 + 12, 42 + 25);
    arithmetic_case(42isize, 12, 13, 42 + 12, 42 + 25);
    arithmetic_case(42usize, 12, 13, 42 + 12, 42 + 25);
}

#[test]
fn load_and_store_with_each_ordering() {
    let x = Atomic::new(7u64);
    x.store(8, Release);
    assert_eq!(8, x.load(Acquire));
    x.store(9, Relaxed);
    assert_eq!(9, x.load(Relaxed));
}

#[test]
fn xchg_with_each_ordering() {
    let x = Atomic::new(-1i32);
    assert_eq!(-1, x.xchg(2, Acquire));
    assert_eq!(2, x.xchg(3, Release));
    assert_eq!(3, x.xchg(4, Relaxed));
    assert_eq!(4, x.xchg(5, Full));
    assert_eq!(5, x.load(Relaxed));
}

#[test]
fn cmpxchg_with_each_ordering() {
    let x = Atomic::new(10usize);
    assert_eq!(Ok(10), x.cmpxchg(10, 11, Acquire));
    assert_eq!(Err(11), x.cmpxchg(10, 12, Release));
    assert_eq!(Ok(11), x.cmpxchg(11, 12, Release));
    assert_eq!(Ok(12), x.cmpxchg(12, 13, Full));
    assert_eq!(13, x.load(Acquire));
}

#[test]
fn cmpxchg_failure_reports_the_current_value() {
    let x = Atomic::new(5i64);
    x.store(6, Relaxed);
    match x.cmpxchg(5, 7, Full) {
        Ok(_) => panic!("the cell no longer held 5"),
        Err(current) => assert_eq!(6, current),
    }
    assert_eq!(6, x.load(Relaxed));
}

#[test]
fn unsigned_values_above_the_signed_range_round_trip() {
    let x = Atomic::new(u32::MAX);
    assert_eq!(u32::MAX, x.load(Relaxed));
    assert_eq!(u32::MAX, x.xchg(0x8000_0000, Full));
    assert_eq!(0x8000_0000, x.load(Relaxed));

    let y = Atomic::new(u64::MAX - 1);
    assert_eq!(Ok(u64::MAX - 1), y.cmpxchg(u64::MAX - 1, u64::MAX, Full));
    assert_eq!(u64::MAX, y.load(Relaxed));

    let z = Atomic::new(usize::MAX);
    assert_eq!(usize::MAX, z.load(Acquire));
}

#[test]
fn fetch_add_wraps_around() {
    let x = Atomic::new(u32::MAX);
    assert_eq!(u32::MAX, x.fetch_add(2, Acquire));
    assert_eq!(1, x.load(Relaxed));

    let y = Atomic::new(i32::MAX);
    assert_eq!(i32::MAX, y.fetch_add(1, Release));
    assert_eq!(i32::MIN, y.load(Relaxed));

    let z = Atomic::new(u64::MAX);
    z.add(1, Relaxed);
    assert_eq!(0, z.load(Relaxed));

    let w = Atomic::new(0usize);
    assert_eq!(0, w.fetch_add(usize::MAX, Relaxed));
    assert_eq!(usize::MAX, w.load(Relaxed));
}

#[test]
fn representations_convert_by_bits() {
    assert_eq!(-1i32, u32::MAX.into_repr());
    assert_eq!(u32::MAX, <u32 as AllowAtomic>::from_repr(-1));
    assert_eq!(i64::MIN, (1u64 << 63).into_repr());
    assert_eq!(1u64 << 63, <u64 as AllowAtomic>::from_repr(i64::MIN));
    assert_eq!(-2isize, (usize::MAX - 1).into_repr());
    assert_eq!(7i32, 7i32.into_repr());
    assert_eq!(-9i64, <i64 as AllowAtomic>::from_repr(-9));
    assert_eq!(-3isize, <isize as AllowAtomic>::from_repr(-3));
    assert_eq!(-5i32, <u32 as AllowAtomicAdd<u32>>::rhs_into_delta(u32::MAX - 4));
    assert_eq!(-1i64, <u64 as AllowAtomicAdd<u64>>::rhs_into_delta(u64::MAX));
}

#[test]
fn cmpxchg_outcome_reports_what_was_found() {

    let mut expected = 42i32;
    assert!(cmpxchg_outcome(Ok(42i32), &mut expected));
    assert_eq!(42, expected);

    let mut expected = 52i64;
    assert!(!cmpxchg_outcome(Err(42i64), &mut expected));
    assert_eq!(42, expected);

    let mut expected = -1isize;
    assert!(!cmpxchg_outcome(Err(7isize), &mut expected));
    assert_eq!(7, expected);
}
