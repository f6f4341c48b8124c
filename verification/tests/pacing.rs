use lasso::listeners::pacing::{is_tick_due, Span, NANOS_PER_MILLI, NANOS_PER_SEC};

#[test]
fn spans_convert_to_nanoseconds() {
    assert_eq!(NANOS_PER_SEC, 1_000_000_000);
    assert_eq!(NANOS_PER_MILLI, 1_000_000);
    assert_eq!(Span::from_nanos(17).as_nanos(), 17);
    assert_eq!(Span::from_millis(250).as_nanos(), 250_000_000);
    assert_eq!(Span::from_secs(5).as_nanos(), 5_000_000_000);
    assert_eq!(Span::from_secs(0), Span { nanos: 0 });
    assert_eq!(Span::from_secs(u64::MAX).as_nanos(), 18_446_744_073_709_551_615_000_000_000);
    assert_eq!(Span::from_millis(u64::MAX).as_nanos(), 18_446_744_073_709_551_615_000_000);
}

#[test]
fn first_tick_is_always_due() {
    assert!(is_tick_due(None, Span::from_secs(5), Span::from_secs(0)));
    assert!(is_tick_due(None, Span::from_secs(5), Span::from_secs(3)));
    assert!(is_tick_due(None, Span::from_nanos(u128::MAX), Span::from_nanos(0)));
}

#[test]
fn later_tick_is_due_one_interval_after_the_last() {
    let interval = Span::from_secs(5);
    let last = Some(Span::from_secs(10));
    assert!(!is_tick_due(last, interval, Span::from_secs(10)));
    assert!(!is_tick_due(last, interval, Span::from_nanos(14_999_999_999)));
    assert!(is_tick_due(last, interval, Span::from_secs(15)));
    assert!(is_tick_due(last, interval, Span::from_secs(16)));
    assert!(!is_tick_due(last, interval, Span::from_secs(2)));
}

#[test]
fn tick_is_never_due_when_the_deadline_cannot_be_reached() {
    let last = Some(Span::from_nanos(u128::MAX - 1));
    assert!(!is_tick_due(last, Span::from_nanos(2), Span::from_nanos(u128::MAX)));
    assert!(is_tick_due(last, Span::from_nanos(1), Span::from_nanos(u128::MAX)));
    assert!(is_tick_due(last, Span::from_nanos(0), Span::from_nanos(u128::MAX - 1)));
}

#[test]
fn span_splits_into_seconds_and_the_rest() {
    let span = Span::from_nanos(9_420_000_000_123);
    assert_eq!(span.whole_secs(), 9_420);
    assert_eq!(span.subsec_nanos(), 123);
    assert_eq!(Span::from_millis(1_500).whole_secs(), 1);
    assert_eq!(Span::from_millis(1_500).subsec_nanos(), 500_000_000);
    assert_eq!(Span::from_nanos(999_999_999).whole_secs(), 0);
    assert_eq!(Span::from_nanos(999_999_999).subsec_nanos(), 999_999_999);
    assert_eq!(Span::from_nanos(u128::MAX).whole_secs(), 340_282_366_920_938_463_463_374_607_431);
    assert_eq!(Span::from_nanos(u128::MAX).subsec_nanos(), 768_211_455);
}
