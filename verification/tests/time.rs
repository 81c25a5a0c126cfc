use update_informer::time::Duration;

#[test]
fn zero_is_no_time() {
    assert!(Duration::zero().is_zero());
    assert!(Duration::from_secs(0).is_zero());
    assert!(!Duration::from_secs(1).is_zero());
    assert!(!Duration::new(0, 1).unwrap().is_zero());
    assert_eq!(Duration::zero(), Duration::from_secs(0));
}

#[test]
fn parts_are_kept() {
    let d = Duration::new(7, 999_999_999).unwrap();
    assert_eq!(d.as_secs(), 7);
    assert_eq!(d.subsec_nanos(), 999_999_999);
    assert_eq!(Duration::from_secs(86_400).as_secs(), 86_400);
    assert_eq!(Duration::from_secs(86_400).subsec_nanos(), 0);
}

#[test]
fn nanoseconds_beyond_a_second_are_carried() {
    let d = Duration::new(1, 2_500_000_000).unwrap();
    assert_eq!(d.as_secs(), 3);
    assert_eq!(d.subsec_nanos(), 500_000_000);
    assert_eq!(Duration::new(u64::MAX, 999_999_999).unwrap().as_secs(), u64::MAX);
    assert_eq!(Duration::new(u64::MAX, 1_000_000_000), None);
    assert_eq!(Duration::new(u64::MAX - 3, 4_000_000_000), None);
    assert_eq!(Duration::new(u64::MAX - 4, 4_000_000_000).unwrap().as_secs(), u64::MAX);
}

#[test]
fn at_least_orders_spans() {
    let a = Duration::new(1, 5).unwrap();
    let b = Duration::new(1, 6).unwrap();
    let c = Duration::new(2, 0).unwrap();
    assert!(a.at_least(&a));
    assert!(b.at_least(&a));
    assert!(!a.at_least(&b));
    assert!(c.at_least(&b));
    assert!(!b.at_least(&c));
    assert!(a.at_least(&Duration::zero()));
}
