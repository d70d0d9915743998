use repo_compliance::throttle::{Throttle, DEFAULT_CAPACITY, DEFAULT_PACING_MILLIS};

#[test]
fn defaults_are_two_permits_and_a_hundred_milliseconds() {
    assert_eq!(DEFAULT_CAPACITY, 2);
    assert_eq!(DEFAULT_PACING_MILLIS, 100);
    let t = Throttle::with_defaults();
    assert_eq!(t.capacity, 2);
    assert_eq!(t.pacing, 100);
    assert_eq!(t.held, 0);
    assert!(t.last_grant.is_none());
}

#[test]
fn held_permits_never_exceed_the_capacity() {
    let mut t = Throttle::new(2, 0);
    assert!(t.can_grant(0));
    t.grant(0);
    assert_eq!(t.held, 1);
    assert!(t.can_grant(0));
    t.grant(0);
    assert_eq!(t.held, 2);
    // both permits are out: a third request must wait
    assert!(!t.can_grant(0));
    assert!(!t.can_grant(1_000_000));
    t.release();
    assert_eq!(t.held, 1);
    assert!(t.can_grant(1_000_000));
}

#[test]
fn grants_are_paced() {
    let mut t = Throttle::new(2, 100);
    assert!(t.can_grant(0));
    t.grant(0);
    // a slot is free, but not enough time has passed since the last grant
    assert!(!t.can_grant(50));
    assert!(!t.can_grant(99));
    assert!(t.can_grant(100));
    t.grant(100);
    assert_eq!(t.held, 2);
    assert_eq!(t.last_grant, Some(100));
}

#[test]
fn pacing_holds_even_after_a_release() {
    let mut t = Throttle::new(1, 100);
    t.grant(10);
    t.release();
    // capacity is free again, but the pacing gap still applies
    assert!(!t.can_grant(60));
    assert!(t.can_grant(110));
}

#[test]
fn release_with_no_permit_out_does_nothing() {
    let mut t = Throttle::new(1, 0);
    t.release();
    assert_eq!(t.held, 0);
    t.grant(0);
    t.release();
    t.release();
    assert_eq!(t.held, 0);
}

#[test]
fn capacity_one_serializes_callers() {
    let mut t = Throttle::new(1, 0);
    t.grant(0);
    assert!(!t.can_grant(0));
    t.release();
    assert!(t.can_grant(0));
}
