use fclicache::clock::{EARLIEST_SECS_BEFORE_EPOCH, NANOS_PER_SEC};
use fclicache::Timestamp;

fn at(secs: i64, nanos: u32) -> Timestamp {
    Timestamp::new(secs, nanos).expect("nanoseconds within one second")
}

#[test]
fn a_second_has_a_billion_nanoseconds() {
    assert_eq!(NANOS_PER_SEC, 1_000_000_000);
}

#[test]
fn new_keeps_its_parts() {
    let t = at(12, 345);
    assert_eq!(t.secs(), 12);
    assert_eq!(t.subsec_nanos(), 345);
    let early = at(-3, 999_999_999);
    assert_eq!(early.secs(), -3);
    assert_eq!(early.subsec_nanos(), 999_999_999);
}

#[test]
fn new_refuses_a_full_second_of_nanoseconds() {
    assert_eq!(Timestamp::new(0, 999_999_999).is_some(), true);
    assert_eq!(Timestamp::new(0, 1_000_000_000), None);
    assert_eq!(Timestamp::new(5, u32::MAX), None);
}

#[test]
fn after_epoch_counts_forward() {
    assert_eq!(Timestamp::after_epoch(0, 0), Some(at(0, 0)));
    assert_eq!(Timestamp::after_epoch(1_700_000_000, 250), Some(at(1_700_000_000, 250)));
    assert_eq!(Timestamp::after_epoch(i64::MAX as u64, 999_999_999), Some(at(i64::MAX, 999_999_999)));
}

#[test]
fn after_epoch_refuses_what_cannot_be_held() {
    assert_eq!(Timestamp::after_epoch(i64::MAX as u64 + 1, 0), None);
    assert_eq!(Timestamp::after_epoch(u64::MAX, 0), None);
    assert_eq!(Timestamp::after_epoch(1, 1_000_000_000), None);
}

#[test]
fn before_epoch_counts_backward() {
    assert_eq!(Timestamp::before_epoch(0, 0), Some(at(0, 0)));
    assert_eq!(Timestamp::before_epoch(5, 0), Some(at(-5, 0)));
    assert_eq!(Timestamp::before_epoch(0, 1), Some(at(-1, 999_999_999)));
    assert_eq!(Timestamp::before_epoch(1, 500_000_000), Some(at(-2, 500_000_000)));
    assert_eq!(Timestamp::before_epoch(7, 999_999_999), Some(at(-8, 1)));
}

#[test]
fn before_epoch_reaches_the_earliest_second() {
    assert_eq!(EARLIEST_SECS_BEFORE_EPOCH, 1u64 << 63);
    assert_eq!(Timestamp::before_epoch(EARLIEST_SECS_BEFORE_EPOCH, 0), Some(at(i64::MIN, 0)));
    assert_eq!(
        Timestamp::before_epoch(EARLIEST_SECS_BEFORE_EPOCH - 1, 999_999_999),
        Some(at(i64::MIN, 1))
    );
}

#[test]
fn before_epoch_refuses_what_cannot_be_held() {
    assert_eq!(Timestamp::before_epoch(EARLIEST_SECS_BEFORE_EPOCH, 1), None);
    assert_eq!(Timestamp::before_epoch(EARLIEST_SECS_BEFORE_EPOCH + 1, 0), None);
    assert_eq!(Timestamp::before_epoch(u64::MAX, 0), None);
    assert_eq!(Timestamp::before_epoch(3, 1_000_000_000), None);
}

#[test]
fn age_of_the_same_instant_is_zero() {
    let t = at(100, 5);
    assert_eq!(t.whole_seconds_since(&t), Some(0));
}

#[test]
fn age_drops_the_fraction() {
    let made = at(10, 500_000_000);
    assert_eq!(at(10, 999_999_999).whole_seconds_since(&made), Some(0));
    assert_eq!(at(11, 499_999_999).whole_seconds_since(&made), Some(0));
    assert_eq!(at(11, 500_000_000).whole_seconds_since(&made), Some(1));
    assert_eq!(at(12, 499_999_999).whole_seconds_since(&made), Some(1));
    assert_eq!(at(12, 500_000_000).whole_seconds_since(&made), Some(2));
}

#[test]
fn age_is_not_rounded_up() {
    let made = at(0, 0);
    assert_eq!(at(1, 999_999_999).whole_seconds_since(&made), Some(1));
    assert_eq!(at(59, 999_999_999).whole_seconds_since(&made), Some(59));
    assert_eq!(at(60, 0).whole_seconds_since(&made), Some(60));
}

#[test]
fn no_age_for_what_was_made_later() {
    let now = at(10, 0);
    assert_eq!(now.whole_seconds_since(&at(10, 1)), None);
    assert_eq!(now.whole_seconds_since(&at(11, 0)), None);
    assert_eq!(at(-1, 0).whole_seconds_since(&at(0, 0)), None);
}

#[test]
fn age_across_the_epoch() {
    let made = at(-2, 250_000_000);
    assert_eq!(at(3, 0).whole_seconds_since(&made), Some(4));
    assert_eq!(at(3, 250_000_000).whole_seconds_since(&made), Some(5));
}

#[test]
fn age_over_the_whole_range() {
    let first = at(i64::MIN, 0);
    let last = at(i64::MAX, 999_999_999);
    assert_eq!(last.whole_seconds_since(&first), Some(u64::MAX));
    assert_eq!(at(i64::MAX, 0).whole_seconds_since(&at(i64::MIN, 1)), Some(u64::MAX - 1));
    assert_eq!(first.whole_seconds_since(&last), None);
}

#[test]
fn points_are_ordered_in_time() {
    assert!(at(1, 0) > at(0, 999_999_999));
    assert!(at(-1, 999_999_999) < at(0, 0));
    assert!(at(5, 1) > at(5, 0));
    assert!(at(i64::MIN, 0) < at(i64::MAX, 0));
}
