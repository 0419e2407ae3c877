use std::time::Duration;
use std::time::Instant;
use timed_cache::time_span::TimeSpan;
use timed_cache::timed_data::TimedData;

/// Keeps the calling test busy until `length` has passed on the monotonic clock.
fn spin_for(length: Duration) {
    let start = Instant::now();
    while start.elapsed() < length {
        std::hint::spin_loop();
    }
}

#[test]
fn should_be_considered_valid_if_within_duration() {
    let time_to_live = TimeSpan::from_secs(10);
    let timed_data = TimedData::new(5);
    assert!(timed_data.still_valid(time_to_live));
}

#[test]
fn should_not_be_considered_valid_if_after_duration() {
    let time_to_live = TimeSpan::from_millis(5);
    let timed_data = TimedData::new(5);
    spin_for(Duration::from_millis(5));
    assert!(!timed_data.still_valid(time_to_live));
}

#[test]
fn stored_item_is_handed_back() {
    let timed_data = TimedData::new("payload".to_owned());
    assert_eq!(timed_data.item(), "payload");
    assert_eq!(*TimedData::new(5).item(), 5);
}

#[test]
fn nothing_is_valid_under_a_zero_time_to_live() {
    let timed_data = TimedData::new(5);
    assert!(!timed_data.still_valid(TimeSpan::from_nanos(0)));
    assert!(!timed_data.still_valid(TimeSpan::from_secs(0)));
}

#[test]
fn validity_can_be_asked_again_with_another_time_to_live() {
    let timed_data = TimedData::new(5);
    spin_for(Duration::from_millis(2));
    assert!(!timed_data.still_valid(TimeSpan::from_millis(2)));
    assert!(timed_data.still_valid(TimeSpan::from_secs(10)));
    assert!(!timed_data.still_valid(TimeSpan::from_millis(1)));
    assert_eq!(*timed_data.item(), 5);
}

#[test]
fn value_stamped_with_a_reading_is_valid_until_its_time_to_live_has_passed() {
    let at = Instant::now();
    let timed_data = TimedData::stamped(5, at);
    let time_to_live = TimeSpan::from_millis(5);

    assert!(timed_data.still_valid_at(time_to_live, &at));
    assert!(timed_data.still_valid_at(time_to_live, &(at + Duration::from_nanos(4_999_999))));
    assert!(!timed_data.still_valid_at(time_to_live, &(at + Duration::from_millis(5))));
    assert!(!timed_data.still_valid_at(time_to_live, &(at + Duration::from_nanos(5_000_001))));
    assert!(!timed_data.still_valid_at(time_to_live, &(at + Duration::from_secs(3600))));
    assert_eq!(*timed_data.item(), 5);
}

#[test]
fn time_lived_is_counted_from_the_stamp_to_the_reading() {
    let at = Instant::now();
    let timed_data = TimedData::stamped("payload", at);

    assert_eq!(timed_data.time_lived_at(&at).as_nanos(), 0);
    assert_eq!(timed_data.time_lived_at(&(at + Duration::from_nanos(1))).as_nanos(), 1);
    assert_eq!(
        timed_data.time_lived_at(&(at + Duration::from_secs(10))).as_nanos(),
        10_000_000_000
    );
    assert_eq!(
        timed_data.time_lived_at(&(at + Duration::new(3, 7))).as_nanos(),
        3_000_000_007
    );
}

#[test]
fn reading_older_than_the_stamp_counts_as_no_time_lived() {
    let early = Instant::now();
    let timed_data = TimedData::stamped(5, early + Duration::from_secs(2));

    assert_eq!(timed_data.time_lived_at(&early).as_nanos(), 0);
    assert!(timed_data.still_valid_at(TimeSpan::from_nanos(1), &early));
    assert!(!timed_data.still_valid_at(TimeSpan::from_nanos(0), &early));
}

#[test]
fn new_value_is_stamped_with_the_reading_of_its_creation() {
    let before = Instant::now();
    let timed_data = TimedData::new(5);
    let after = Instant::now();

    let ahead = before + Duration::from_secs(10);
    let lived = timed_data.time_lived_at(&ahead).as_nanos();
    assert!(lived <= 10_000_000_000);
    assert!(lived >= 10_000_000_000 - (after - before).as_nanos());
}
