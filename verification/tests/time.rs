use chrono::DateTime;
use chrono::Utc;
use fsrs::Timestamp;

fn at(secs: i64, nanos: u32) -> Timestamp {
    Timestamp::new(secs, nanos).unwrap()
}

#[test]
fn the_calendar_ends_where_chrono_ends() {
    assert_eq!(DateTime::<Utc>::MIN_UTC.timestamp(), -8_334_601_228_800);
    assert_eq!(DateTime::<Utc>::MAX_UTC.timestamp(), 8_210_266_876_799);
    assert!(Timestamp::new(-8_334_601_228_800, 0).is_some());
    assert!(Timestamp::new(-8_334_601_228_801, 0).is_none());
    assert!(Timestamp::new(8_210_266_876_799, 999_999_999).is_some());
    assert!(Timestamp::new(8_210_266_876_800, 0).is_none());
    assert!(Timestamp::new(0, 1_000_000_000).is_none());
    assert!(DateTime::from_timestamp(-8_334_601_228_800, 0).is_some());
    assert!(DateTime::from_timestamp(-8_334_601_228_801, 0).is_none());
    assert!(DateTime::from_timestamp(8_210_266_876_799, 999_999_999).is_some());
    assert!(DateTime::from_timestamp(8_210_266_876_800, 0).is_none());
}

#[test]
fn whole_days_drop_the_incomplete_day() {
    let start = at(1_669_725_000, 0);
    assert_eq!(start.whole_days_since(start), 0);
    assert_eq!(at(1_669_725_000 + 86_399, 999_999_999).whole_days_since(start), 0);
    assert_eq!(at(1_669_725_000 + 86_400, 0).whole_days_since(start), 1);
    assert_eq!(at(1_669_725_000 + 10 * 86_400 + 5, 0).whole_days_since(start), 10);
    assert_eq!(at(1_669_725_000 + 86_400, 0).whole_days_since(at(1_669_725_000, 1)), 0);
    assert_eq!(at(1_669_725_000 + 86_400, 1).whole_days_since(at(1_669_725_000, 1)), 1);
}

#[test]
fn whole_days_round_toward_zero_when_time_runs_backwards() {
    let start = at(1_669_725_000, 500);
    assert_eq!(at(1_669_725_000 - 1, 0).whole_days_since(start), 0);
    assert_eq!(at(1_669_725_000 - 86_400, 501).whole_days_since(start), 0);
    assert_eq!(at(1_669_725_000 - 86_400, 500).whole_days_since(start), -1);
    assert_eq!(at(1_669_725_000 - 3 * 86_400 - 7, 0).whole_days_since(start), -3);
}

#[test]
fn whole_days_span_the_calendar() {
    let first = at(-8_334_601_228_800, 0);
    let last = at(8_210_266_876_799, 999_999_999);
    assert_eq!(last.whole_days_since(first), 191_491_528);
    assert_eq!(first.whole_days_since(last), -191_491_528);
}

#[test]
fn minutes_and_days_move_the_seconds_only() {
    let start = at(1_669_725_000, 123_456_789);
    assert_eq!(start.plus_minutes(0), start);
    assert_eq!(start.plus_minutes(1), at(1_669_725_060, 123_456_789));
    assert_eq!(start.plus_minutes(10), at(1_669_725_600, 123_456_789));
    assert_eq!(start.plus_days(0), start);
    assert_eq!(start.plus_days(4), at(1_669_725_000 + 4 * 86_400, 123_456_789));
    assert_eq!(at(-1, 5).plus_days(1), at(86_399, 5));
}

#[test]
fn the_last_day_of_the_calendar_can_be_reached() {
    let start = at(8_210_266_876_799 - 2 * 86_400, 999_999_999);
    assert!(start.can_reach(2));
    assert!(!start.can_reach(3));
    assert!(!start.can_reach(-1));
    assert_eq!(start.plus_days(2), at(8_210_266_876_799, 999_999_999));
    let invalid = Timestamp { secs: 0, nanos: 2_000_000_000 };
    assert!(!invalid.can_reach(0));
}

#[test]
fn the_epoch_is_the_start_of_1970() {
    assert_eq!(Timestamp::epoch(), at(0, 0));
    let epoch = DateTime::from_timestamp(0, 0).unwrap();
    assert_eq!(epoch.to_rfc3339(), "1970-01-01T00:00:00+00:00");
}
