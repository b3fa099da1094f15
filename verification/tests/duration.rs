use tomatui::duration::Duration;

#[test]
fn durations_split_into_seconds_and_nanoseconds() {
    let d = Duration::new(3, 1_500_000_000);
    assert_eq!(d.as_secs(), 4);
    assert_eq!(d.subsec_nanos(), 500_000_000);
    assert_eq!(Duration::from_millis(1001).as_secs(), 1);
    assert_eq!(Duration::from_millis(1001).subsec_nanos(), 1_000_000);
    assert!(Duration::zero().is_zero());
    assert!(!Duration::from_millis(1).is_zero());
}

#[test]
fn subtraction_saturates_and_addition_is_checked() {
    let a = Duration::from_secs(5);
    let b = Duration::from_millis(7500);
    assert_eq!(b.saturating_sub(a), Duration::from_millis(2500));
    assert_eq!(a.saturating_sub(b), Duration::zero());
    assert_eq!(a.checked_add(b), Some(Duration::from_millis(12500)));
    assert_eq!(Duration::new(u64::MAX, 999_999_999).checked_add(Duration::new(0, 1)), None);
    assert!(b.at_least(&a));
    assert!(!a.at_least(&b));
    assert!(a.at_least(&a));
}
