use chrono::{DateTime, Duration, DurationRound, Utc};
use expiry_cache::time::{expiry_after, GRANULE_MS};

// The instant that the calendar library gives for the same question
fn expiry_by_calendar(now: i64, ttl: i64) -> i64 {
    let now = DateTime::<Utc>::from_timestamp_millis(now).unwrap();
    (now + Duration::milliseconds(ttl))
        .duration_trunc(Duration::milliseconds(10))
        .unwrap()
        .timestamp_millis()
}

#[test]
fn the_granule_is_ten_milliseconds() {
    assert_eq!(GRANULE_MS, 10);
}

#[test]
fn expiry_is_rounded_down_to_the_granule() {
    assert_eq!(expiry_after(1_005, 0), 1_000);
    assert_eq!(expiry_after(1_000, 9), 1_000);
    assert_eq!(expiry_after(1_000, 10), 1_010);
    assert_eq!(expiry_after(1_000, 19), 1_010);
    assert_eq!(expiry_after(1_000, 20), 1_020);
    assert_eq!(expiry_after(1_234, 3_600_000), 3_601_230);
}

#[test]
fn expiry_before_the_epoch_is_rounded_down_too() {
    assert_eq!(expiry_after(0, -1), -10);
    assert_eq!(expiry_after(0, -10), -10);
    assert_eq!(expiry_after(0, -11), -20);
    assert_eq!(expiry_after(-25, 5), -20);
    assert_eq!(expiry_after(-30, 0), -30);
    assert_eq!(expiry_after(5, -5), 0);
}

#[test]
fn expiry_of_the_widest_arguments() {
    assert_eq!(expiry_after(i64::MAX, i64::MAX), 2 * (i64::MAX as i128) - 4);
    assert_eq!(expiry_after(i64::MIN, i64::MIN), 2 * (i64::MIN as i128) - 4);
    assert_eq!(expiry_after(i64::MAX, i64::MIN), -10);
    assert_eq!(expiry_after(i64::MIN, i64::MAX), -10);
}

#[test]
fn expiry_agrees_with_the_calendar() {
    let nows = [
        0,
        1,
        9,
        10,
        999,
        1_700_000_000_123,
        1_700_000_000_129,
        -1,
        -10,
        -86_400_001,
        4_102_444_800_005,
    ];
    let ttls = [
        0,
        1,
        -1,
        5,
        -5,
        10,
        -10,
        200,
        -200,
        Duration::seconds(1).num_milliseconds(),
        Duration::minutes(1).num_milliseconds(),
        Duration::hours(1).num_milliseconds(),
        Duration::hours(-1).num_milliseconds(),
        Duration::days(1).num_milliseconds(),
        Duration::days(-36_500).num_milliseconds(),
    ];
    for now in nows {
        for ttl in ttls {
            assert_eq!(
                expiry_after(now, ttl),
                i128::from(expiry_by_calendar(now, ttl)),
                "now {} ttl {}",
                now,
                ttl
            );
        }
    }
}
