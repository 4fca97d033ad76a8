use circle_mover::time::{Timestamp, NANOS_PER_SECOND};

#[test]
fn plus_seconds_keeps_the_nanoseconds() {
    let now = Timestamp { seconds: 1_700_000_000, nanos: 123_456_789 };
    assert_eq!(
        now.plus_seconds(5),
        Some(Timestamp { seconds: 1_700_000_005, nanos: 123_456_789 })
    );
    assert_eq!(now.plus_seconds(0), Some(now));
}

#[test]
fn plus_seconds_stops_at_the_last_second() {
    let last = Timestamp { seconds: i64::MAX - 5, nanos: 0 };
    assert_eq!(last.plus_seconds(5), Some(Timestamp { seconds: i64::MAX, nanos: 0 }));
    assert_eq!(last.plus_seconds(6), None);
}

#[test]
fn nanos_until_counts_both_fields() {
    let from = Timestamp { seconds: 10, nanos: 900_000_000 };
    let to = Timestamp { seconds: 12, nanos: 100_000_000 };
    assert_eq!(from.nanos_until(to), Some(1_200_000_000));
    assert_eq!(from.nanos_until(from), Some(0));
    assert_eq!(to.nanos_until(from), None);
}

#[test]
fn nanos_until_spans_the_whole_range() {
    let first = Timestamp { seconds: i64::MIN, nanos: i32::MIN };
    let last = Timestamp { seconds: i64::MAX, nanos: i32::MAX };
    let expected = (i64::MAX as i128 - i64::MIN as i128) * NANOS_PER_SECOND as i128
        + (i32::MAX as i128 - i32::MIN as i128);
    assert_eq!(first.nanos_until(last), Some(expected as u128));
    assert_eq!(last.nanos_until(first), None);
}

#[test]
fn from_epoch_takes_what_fits() {
    assert_eq!(Timestamp::from_epoch(7, 8), Some(Timestamp { seconds: 7, nanos: 8 }));
    assert_eq!(
        Timestamp::from_epoch(i64::MAX as u64, 999_999_999),
        Some(Timestamp { seconds: i64::MAX, nanos: 999_999_999 })
    );
    assert_eq!(Timestamp::from_epoch(i64::MAX as u64 + 1, 0), None);
    assert_eq!(Timestamp::from_epoch(0, 1_000_000_000), None);
}

#[test]
fn since_epoch_is_the_way_back() {
    assert_eq!(Timestamp { seconds: 7, nanos: 8 }.since_epoch(), Some((7, 8)));
    assert_eq!(Timestamp { seconds: -1, nanos: 0 }.since_epoch(), None);
    assert_eq!(Timestamp { seconds: 0, nanos: -1 }.since_epoch(), None);
    assert_eq!(Timestamp { seconds: 0, nanos: 1_000_000_000 }.since_epoch(), None);
}
