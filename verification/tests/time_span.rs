use timed_cache::time_span::TimeSpan;
use timed_cache::time_span::NANOS_PER_MILLI;
use timed_cache::time_span::NANOS_PER_SEC;

#[test]
fn seconds_are_counted_in_nanoseconds() {
    assert_eq!(TimeSpan::from_secs(10).as_nanos(), 10_000_000_000);
    assert_eq!(TimeSpan::from_secs(1).as_nanos(), NANOS_PER_SEC);
    assert_eq!(TimeSpan::from_secs(0).as_nanos(), 0);
}

#[test]
fn milliseconds_are_counted_in_nanoseconds() {
    assert_eq!(TimeSpan::from_millis(5).as_nanos(), 5_000_000);
    assert_eq!(TimeSpan::from_millis(1).as_nanos(), NANOS_PER_MILLI);
    assert_eq!(TimeSpan::from_millis(1000), TimeSpan::from_secs(1));
}

#[test]
fn nanoseconds_come_back_unchanged() {
    assert_eq!(TimeSpan::from_nanos(0).as_nanos(), 0);
    assert_eq!(TimeSpan::from_nanos(123_456_789).as_nanos(), 123_456_789);
    assert_eq!(TimeSpan::from_nanos(u128::MAX).as_nanos(), u128::MAX);
}

#[test]
fn longest_spans_do_not_overflow() {
    assert_eq!(
        TimeSpan::from_secs(u64::MAX).as_nanos(),
        18_446_744_073_709_551_615_000_000_000
    );
    assert_eq!(
        TimeSpan::from_millis(u64::MAX).as_nanos(),
        18_446_744_073_709_551_615_000_000
    );
}

#[test]
fn only_a_strictly_longer_span_outlasts() {
    let five = TimeSpan::from_millis(5);
    assert!(five.outlasts(&TimeSpan::from_nanos(4_999_999)));
    assert!(!five.outlasts(&TimeSpan::from_nanos(5_000_000)));
    assert!(!five.outlasts(&TimeSpan::from_nanos(5_000_001)));
    assert!(!TimeSpan::from_nanos(0).outlasts(&TimeSpan::from_nanos(0)));
    assert!(TimeSpan::from_nanos(1).outlasts(&TimeSpan::from_nanos(0)));
}
