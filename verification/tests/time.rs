use ruwm::time::{Duration, NANOS_PER_MILLI, NANOS_PER_SEC};

#[test]
fn from_secs_has_no_nanos() {
    let d = Duration::from_secs(42);
    assert_eq!(d.as_secs(), 42);
    assert_eq!(d.subsec_nanos(), 0);
    assert_eq!(d.as_nanos(), 42_000_000_000);
}

#[test]
fn from_millis_splits_seconds() {
    let d = Duration::from_millis(2_500);
    assert_eq!(d.as_secs(), 2);
    assert_eq!(d.subsec_nanos(), 500 * NANOS_PER_MILLI);
    assert_eq!(d.as_nanos(), 2_500_000_000);
}

#[test]
fn new_keeps_both_parts() {
    let d = Duration::new(3, NANOS_PER_SEC - 1);
    assert_eq!(d.as_secs(), 3);
    assert_eq!(d.subsec_nanos(), 999_999_999);
    assert_eq!(d.as_nanos(), 3_999_999_999);
}

#[test]
fn largest_span_fits() {
    let d = Duration::new(u64::MAX, NANOS_PER_SEC - 1);
    assert_eq!(d.as_nanos(), u64::MAX as u128 * 1_000_000_000 + 999_999_999);
}

#[test]
fn equal_parts_are_equal_spans() {
    assert_eq!(Duration::from_secs(1), Duration::from_millis(1_000));
    assert_ne!(Duration::from_secs(1), Duration::from_millis(1_001));
}
