use content_backend::clock::Timestamp;

#[test]
fn timestamps_are_ordered_by_seconds_then_nanoseconds() {
    let a = Timestamp { secs: 1, nanos: 5 };
    let b = Timestamp { secs: 1, nanos: 6 };
    let c = Timestamp { secs: 2, nanos: 0 };
    let d = Timestamp { secs: -1, nanos: 999_999_999 };
    assert!(a.is_before(&b));
    assert!(b.is_before(&c));
    assert!(a.is_before(&c));
    assert!(d.is_before(&a));
    assert!(!a.is_before(&a));
    assert!(!b.is_before(&a));
    assert!(!c.is_before(&b));
}
