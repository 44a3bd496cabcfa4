use cold_chain::time::floor_to_hour;
use cold_chain::time::Timestamp;
use cold_chain::time::MAX_TIMESTAMP_SECS;
use cold_chain::time::MIN_TIMESTAMP_SECS;

fn ts(secs: i64, nanos: u32) -> Timestamp {
    Timestamp { secs, nanos }
}

// 2024-01-01T00:00:00Z
const NEW_YEAR_2024: i64 = 1_704_067_200;

#[test]
fn floor_to_hour_clears_minutes_seconds_and_nanos() {
    // 2024-01-01T08:37:12.345Z
    let t = ts(NEW_YEAR_2024 + 8 * 3600 + 37 * 60 + 12, 345_000_000);
    assert_eq!(floor_to_hour(t), ts(NEW_YEAR_2024 + 8 * 3600, 0));
}

#[test]
fn floor_to_hour_keeps_an_hour_start() {
    let t = ts(NEW_YEAR_2024 + 3600, 0);
    assert_eq!(floor_to_hour(t), t);
    assert_eq!(floor_to_hour(floor_to_hour(t)), floor_to_hour(t));
}

#[test]
fn floor_to_hour_before_the_epoch_rounds_down() {
    // 1969-12-31T23:59:59.5Z lies in the hour that starts at 23:00.
    assert_eq!(floor_to_hour(ts(-1, 500_000_000)), ts(-3600, 0));
    assert_eq!(floor_to_hour(ts(-3601, 0)), ts(-7200, 0));
}

#[test]
fn floor_to_hour_of_a_leap_second() {
    // 2016-12-31T23:59:60.5Z, written as second 59 with 1.5e9 nanoseconds.
    let leap = ts(1_483_228_799, 1_500_000_000);
    assert_eq!(floor_to_hour(leap), ts(1_483_225_200, 0));
}

#[test]
fn floor_to_hour_at_the_start_of_the_range() {
    assert_eq!(floor_to_hour(ts(MIN_TIMESTAMP_SECS, 0)), ts(MIN_TIMESTAMP_SECS, 0));
}

#[test]
fn floor_to_hour_at_the_end_of_the_range() {
    assert_eq!(floor_to_hour(ts(MAX_TIMESTAMP_SECS, 999_999_999)), ts(MAX_TIMESTAMP_SECS - 3599, 0));
}

#[test]
fn floor_to_hour_same_hour_same_start() {
    let a = ts(NEW_YEAR_2024 + 60, 1);
    let b = ts(NEW_YEAR_2024 + 3599, 999_999_999);
    assert_eq!(floor_to_hour(a), floor_to_hour(b));
    let c = ts(NEW_YEAR_2024 + 3600, 0);
    assert_ne!(floor_to_hour(a), floor_to_hour(c));
}

#[test]
fn timestamp_new_accepts_what_chrono_holds() {
    assert_eq!(Timestamp::new(0, 0), Some(ts(0, 0)));
    assert_eq!(Timestamp::new(MIN_TIMESTAMP_SECS, 0), Some(ts(MIN_TIMESTAMP_SECS, 0)));
    assert_eq!(Timestamp::new(MAX_TIMESTAMP_SECS, 999_999_999), Some(ts(MAX_TIMESTAMP_SECS, 999_999_999)));
    assert_eq!(Timestamp::new(59, 1_200_000_000), Some(ts(59, 1_200_000_000)));
    assert_eq!(Timestamp::new(-1, 1_200_000_000), Some(ts(-1, 1_200_000_000)));
}

#[test]
fn timestamp_new_refuses_what_chrono_cannot_hold() {
    assert_eq!(Timestamp::new(MIN_TIMESTAMP_SECS - 1, 0), None);
    assert_eq!(Timestamp::new(MAX_TIMESTAMP_SECS + 1, 0), None);
    assert_eq!(Timestamp::new(0, 2_000_000_000), None);
    assert_eq!(Timestamp::new(58, 1_000_000_000), None);
    assert_eq!(Timestamp::new(-2, 1_000_000_000), None);
}
