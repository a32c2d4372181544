use rustymimi_c::registry::Registry;

#[test]
fn create_and_get() {
    let mut reg: Registry<u32> = Registry::new();
    let h = reg.create(41);
    assert!(reg.contains(h));
    assert_eq!(reg.get(h), Some(&41));
}

#[test]
fn distinct_entries_are_independent() {
    let mut reg: Registry<u32> = Registry::new();
    let a = reg.create(1);
    let b = reg.create(2);
    assert_ne!(a, b);
    assert_eq!(reg.get(a), Some(&1));
    assert_eq!(reg.get(b), Some(&2));
    assert!(reg.destroy(a));
    assert_eq!(reg.get(a), None);
    assert_eq!(reg.get(b), Some(&2));
}

#[test]
fn destroy_is_idempotent() {
    let mut reg: Registry<u32> = Registry::new();
    let h = reg.create(7);
    assert!(reg.destroy(h));
    // A second destroy of the same handle is a detected no-op.
    assert!(!reg.destroy(h));
    assert!(!reg.destroy(h));
}

#[test]
fn destroyed_handle_stays_dead() {
    let mut reg: Registry<u32> = Registry::new();
    let h = reg.create(7);
    reg.destroy(h);
    assert!(!reg.contains(h));
    assert_eq!(reg.get(h), None);
    assert_eq!(reg.take(h), None);
}

#[test]
fn create_after_destroy_yields_a_fresh_handle() {
    let mut reg: Registry<u32> = Registry::new();
    let h = reg.create(7);
    reg.destroy(h);
    let h2 = reg.create(8);
    // Even if the slot is reused, the generation moved forward, so the
    // old handle cannot alias the new entry.
    assert_ne!(h, h2);
    assert_eq!(reg.get(h), None);
    assert_eq!(reg.get(h2), Some(&8));
}

#[test]
fn take_and_restore_round_trip() {
    let mut reg: Registry<u32> = Registry::new();
    let h = reg.create(5);
    let v = reg.take(h).unwrap();
    assert_eq!(v, 5);
    // While checked out the handle is neither live nor takeable.
    assert!(!reg.contains(h));
    assert_eq!(reg.take(h), None);
    assert!(reg.restore(h, v + 1).is_ok());
    assert_eq!(reg.get(h), Some(&6));
}

#[test]
fn restore_without_borrow_hands_the_value_back() {
    let mut reg: Registry<u32> = Registry::new();
    let h = reg.create(5);
    match reg.restore(h, 9) {
        Err(v) => assert_eq!(v, 9),
        Ok(()) => panic!("restore must fail when the handle is not borrowed"),
    }
    assert_eq!(reg.get(h), Some(&5));
}

#[test]
fn destroy_while_borrowed_is_detected() {
    let mut reg: Registry<u32> = Registry::new();
    let h = reg.create(5);
    let v = reg.take(h).unwrap();
    // Destroying a handle whose value is checked out is refused.
    assert!(!reg.destroy(h));
    assert!(reg.restore(h, v).is_ok());
    assert!(reg.destroy(h));
}
