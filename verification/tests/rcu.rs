use kernel::sync::rcu::{self, Guard, Rcu};

#[test]
fn dereference_reads_the_published_value() {
    let x = Rcu::new(Box::new(100i32));

    let g = rcu::read_lock();
    let v = x.dereference(&g);

    assert_eq!(v.as_deref(), Some(&Box::new(100i32)));
    g.unlock();
}

#[test]
fn replace_keeps_old_readers_and_shows_new_value() {
    let mut x = Rcu::new(Box::new(100i32));
    let q = Box::new(101i32);

    let g = rcu::read_lock();
    let v = x.dereference(&g);

    let old = x.replace(q);

    assert!(old.is_some());

    // `v` still reads the old value.
    assert_eq!(v.as_deref(), Some(&Box::new(100i32)));

    // New readers get the new value.
    assert_eq!(x.dereference(&g).as_deref(), Some(&Box::new(101i32)));

    drop(g);
    drop(old);
}

#[test]
fn copy_update_sees_the_current_value() {
    let mut x = Rcu::new(5u64);
    let g = Guard::new();

    let old = x.copy_update(|cur| cur.map(|c| c * 10));
    assert!(old.is_some());
    assert_eq!(x.dereference(&g).as_deref(), Some(&50));

    let old = x.copy_update(|_| None);
    assert!(old.is_some());
    assert!(x.dereference(&g).is_none());

    let old = x.copy_update(|cur| {
        assert!(cur.is_none());
        Some(7)
    });
    assert!(old.is_none());
    assert_eq!(x.dereference(&g).as_deref(), Some(&7));
}

#[test]
fn replace_on_empty_cell_returns_none() {
    let mut x = Rcu::new(1u8);
    let g = Guard::default();
    assert!(x.copy_update(|_| None).is_some());
    assert!(x.replace(2).is_none());
    assert_eq!(x.dereference(&g).as_deref(), Some(&2));
    assert!(x.replace(3).is_some());
    assert_eq!(x.dereference(&g).as_deref(), Some(&3));
}
