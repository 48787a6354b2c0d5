use chrono::{TimeZone, Utc};
use nist_time_sync::calendar::CivilTime;
use nist_time_sync::instant::AuthoritativeInstant;

#[test]
fn millis_come_back_as_given() {
    assert_eq!(AuthoritativeInstant::from_unix_millis(42).unix_millis(), 42);
    assert_eq!(AuthoritativeInstant::from_unix_millis(i64::MIN).unix_millis(), i64::MIN);
}

#[test]
fn seconds_are_rounded_down() {
    assert_eq!(AuthoritativeInstant::from_unix_millis(1_717_251_785_123).unix_seconds(), 1_717_251_785);
    assert_eq!(AuthoritativeInstant::from_unix_millis(999).unix_seconds(), 0);
    assert_eq!(AuthoritativeInstant::from_unix_millis(1000).unix_seconds(), 1);
    assert_eq!(AuthoritativeInstant::from_unix_millis(0).unix_seconds(), 0);
    assert_eq!(AuthoritativeInstant::from_unix_millis(-1).unix_seconds(), -1);
    assert_eq!(AuthoritativeInstant::from_unix_millis(-1000).unix_seconds(), -1);
    assert_eq!(AuthoritativeInstant::from_unix_millis(-1001).unix_seconds(), -2);
    assert_eq!(AuthoritativeInstant::from_unix_millis(i64::MIN).unix_seconds(), -9_223_372_036_854_776);
    assert_eq!(AuthoritativeInstant::from_unix_millis(i64::MAX).unix_seconds(), 9_223_372_036_854_775);
}

#[test]
fn seconds_match_chrono() {
    for millis in [1_717_251_785_123i64, -1, -1500, 0, 999, 4_102_444_799_999] {
        let expected = Utc.timestamp_millis_opt(millis).unwrap().timestamp();
        assert_eq!(AuthoritativeInstant::from_unix_millis(millis).unix_seconds(), expected);
    }
}

#[test]
fn subsecond_part_lies_after_the_rounded_second() {
    assert_eq!(AuthoritativeInstant::from_unix_millis(1_717_251_785_123).subsec_millis(), 123);
    assert_eq!(AuthoritativeInstant::from_unix_millis(0).subsec_millis(), 0);
    assert_eq!(AuthoritativeInstant::from_unix_millis(-1).subsec_millis(), 999);
    assert_eq!(AuthoritativeInstant::from_unix_millis(-1000).subsec_millis(), 0);
    assert_eq!(AuthoritativeInstant::from_unix_millis(i64::MIN).subsec_millis(), 192);
}

#[test]
fn civil_time_of_an_instant() {
    let got = AuthoritativeInstant::from_unix_millis(1_717_251_785_123).civil();
    let expected = CivilTime {
        year: 2024,
        month: 6,
        day: 1,
        hour: 14,
        minute: 23,
        second: 5,
        millisecond: 123,
    };
    assert_eq!(got, Some(expected));
}

#[test]
fn civil_time_at_the_ends_of_its_range() {
    let first = CivilTime { year: 1, month: 1, day: 1, hour: 0, minute: 0, second: 0, millisecond: 0 };
    let last = CivilTime {
        year: 65535,
        month: 12,
        day: 31,
        hour: 23,
        minute: 59,
        second: 59,
        millisecond: 999,
    };
    assert_eq!(AuthoritativeInstant::from_unix_millis(-62_135_596_800_000).civil(), Some(first));
    assert_eq!(AuthoritativeInstant::from_unix_millis(2_005_949_145_599_999).civil(), Some(last));
    assert_eq!(AuthoritativeInstant::from_unix_millis(-62_135_596_800_001).civil(), None);
    assert_eq!(AuthoritativeInstant::from_unix_millis(2_005_949_145_600_000).civil(), None);
    assert_eq!(AuthoritativeInstant::from_unix_millis(i64::MAX).civil(), None);
    assert_eq!(AuthoritativeInstant::from_unix_millis(i64::MIN).civil(), None);
}

#[test]
fn civil_time_around_the_epoch_and_the_year_10000() {
    let epoch = CivilTime { year: 1970, month: 1, day: 1, hour: 0, minute: 0, second: 0, millisecond: 0 };
    let before = CivilTime {
        year: 1969,
        month: 12,
        day: 31,
        hour: 23,
        minute: 59,
        second: 59,
        millisecond: 999,
    };
    let long_ago = CivilTime {
        year: 1600,
        month: 2,
        day: 29,
        hour: 12,
        minute: 0,
        second: 0,
        millisecond: 1,
    };
    let far = CivilTime { year: 10000, month: 1, day: 1, hour: 0, minute: 0, second: 0, millisecond: 0 };
    assert_eq!(AuthoritativeInstant::from_unix_millis(0).civil(), Some(epoch));
    assert_eq!(AuthoritativeInstant::from_unix_millis(-1).civil(), Some(before));
    assert_eq!(AuthoritativeInstant::from_unix_millis(-11_670_955_199_999).civil(), Some(long_ago));
    assert_eq!(AuthoritativeInstant::from_unix_millis(253_402_300_800_000).civil(), Some(far));
}

#[test]
fn civil_time_of_a_leap_day() {
    let got = AuthoritativeInstant::from_unix_millis(951_782_400_000 + 86_399_999).civil();
    let expected = CivilTime {
        year: 2000,
        month: 2,
        day: 29,
        hour: 23,
        minute: 59,
        second: 59,
        millisecond: 999,
    };
    assert_eq!(got, Some(expected));
}

#[test]
fn parsed_instant_reads_back_as_the_numbers_of_the_reply() {
    let parsed = nist_time_sync::reply::parse_nist_response(
        "60462 24-06-01 14:23:05 50 0 0 123.4 UTC(NIST) *",
    )
    .unwrap();
    let expected = CivilTime {
        year: 2024,
        month: 6,
        day: 1,
        hour: 14,
        minute: 23,
        second: 5,
        millisecond: 123,
    };
    assert_eq!(parsed.civil(), Some(expected));
    let rolled = nist_time_sync::reply::parse_nist_response(
        "60462 99-12-31 23:59:59 50 0 0 1000.0 UTC(NIST) *",
    )
    .unwrap();
    let next_century = CivilTime {
        year: 2100,
        month: 1,
        day: 1,
        hour: 0,
        minute: 0,
        second: 0,
        millisecond: 0,
    };
    assert_eq!(rolled.civil(), Some(next_century));
}
