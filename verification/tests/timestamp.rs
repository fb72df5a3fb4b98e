use durable_trace::text::{append_decimal, append_signed_decimal, same_text};
use durable_trace::timestamp::{TimeDelta, Timestamp, MAX_SECS, MIN_SECS};

fn at(secs: i64, nanos: u32) -> Timestamp {
    Timestamp { secs, nanos }
}

#[test]
fn new_keeps_an_instant_in_range() {
    assert_eq!(Timestamp::new(1_714_557_600, 5), Some(at(1_714_557_600, 5)));
}

#[test]
fn new_carries_a_leap_second_into_the_next_second() {
    assert_eq!(Timestamp::new(59, 1_500_000_000), Some(at(60, 500_000_000)));
}

#[test]
fn new_refuses_instants_outside_the_calendar() {
    assert_eq!(Timestamp::new(MAX_SECS + 1, 0), None);
    assert_eq!(Timestamp::new(MIN_SECS - 1, 0), None);
    assert_eq!(Timestamp::new(MAX_SECS, 1_000_000_000), None);
    assert_eq!(Timestamp::new(i64::MAX, 4_000_000_000), None);
    assert_eq!(Timestamp::new(i64::MIN, 0), None);
}

#[test]
fn new_accepts_the_first_and_last_instant() {
    assert_eq!(Timestamp::new(MIN_SECS, 0), Some(at(MIN_SECS, 0)));
    assert_eq!(Timestamp::new(MAX_SECS, 999_999_999), Some(at(MAX_SECS, 999_999_999)));
    assert_eq!(Timestamp::new(MIN_SECS - 1, 1_000_000_000), Some(at(MIN_SECS, 0)));
}

#[test]
fn parse_reads_a_utc_time() {
    assert_eq!(Timestamp::parse_rfc3339("2024-05-01T10:00:00Z"), Some(at(1_714_557_600, 0)));
}

#[test]
fn parse_converts_an_offset_to_utc() {
    assert_eq!(
        Timestamp::parse_rfc3339("2024-05-01T12:00:00.25+02:00"),
        Some(at(1_714_557_600, 250_000_000))
    );
}

#[test]
fn parse_accepts_a_space_between_date_and_time() {
    assert_eq!(Timestamp::parse_rfc3339("1970-01-01 00:00:01Z"), Some(at(1, 0)));
}

#[test]
fn parse_reads_the_ends_of_the_calendar() {
    assert_eq!(Timestamp::parse_rfc3339("0000-01-01T00:00:00Z"), Some(at(MIN_SECS, 0)));
    assert_eq!(Timestamp::parse_rfc3339("9999-12-31T23:59:59Z"), Some(at(MAX_SECS, 0)));
}

#[test]
fn parse_refuses_what_is_no_time() {
    assert_eq!(Timestamp::parse_rfc3339("yesterday"), None);
    assert_eq!(Timestamp::parse_rfc3339(""), None);
    assert_eq!(Timestamp::parse_rfc3339("2024-13-01T00:00:00Z"), None);
}

#[test]
fn parse_refuses_an_instant_past_the_last_year() {
    assert_eq!(Timestamp::parse_rfc3339("9999-12-31T23:59:59-01:00"), None);
}

#[test]
fn parse_carries_a_leap_second() {
    assert_eq!(
        Timestamp::parse_rfc3339("2016-12-31T23:59:60Z"),
        Some(at(1_483_228_800, 0))
    );
}

#[test]
fn rfc3339_writes_the_offset_in_full() {
    assert_eq!(at(1_714_557_600, 0).to_rfc3339(), "2024-05-01T10:00:00+00:00");
    assert_eq!(at(0, 500_000_000).to_rfc3339(), "1970-01-01T00:00:00.500+00:00");
}

#[test]
fn zulu_writes_the_offset_as_z() {
    assert_eq!(at(1_714_557_600, 0).to_rfc3339_zulu(), "2024-05-01T10:00:00Z");
    assert_eq!(at(1_714_557_600, 1).to_rfc3339_zulu(), "2024-05-01T10:00:00.000000001Z");
}

#[test]
fn zulu_text_reads_back_as_the_same_instant() {
    for t in [at(MIN_SECS, 0), at(-1, 999_999_999), at(0, 0), at(1_714_557_600, 123_000_000), at(MAX_SECS, 999_999_999)] {
        assert_eq!(Timestamp::parse_rfc3339(&t.to_rfc3339_zulu()), Some(t));
    }
}

#[test]
fn not_after_orders_by_seconds_then_nanoseconds() {
    assert!(at(1, 0).not_after(at(1, 0)));
    assert!(at(1, 0).not_after(at(1, 1)));
    assert!(!at(1, 1).not_after(at(1, 0)));
    assert!(at(-5, 999_999_999).not_after(at(-4, 0)));
    assert!(!at(2, 0).not_after(at(1, 999_999_999)));
}

#[test]
fn whole_seconds_round_toward_zero() {
    assert_eq!(at(10, 0).whole_seconds_since(at(0, 0)), 10);
    assert_eq!(at(10, 0).whole_seconds_since(at(0, 1)), 9);
    assert_eq!(at(0, 1).whole_seconds_since(at(10, 0)), -9);
    assert_eq!(at(0, 0).whole_seconds_since(at(10, 0)), -10);
    assert_eq!(at(0, 999_999_999).whole_seconds_since(at(0, 0)), 0);
    assert_eq!(at(0, 0).whole_seconds_since(at(0, 999_999_999)), 0);
    assert_eq!(at(1, 0).whole_seconds_since(at(0, 999_999_999)), 0);
}

#[test]
fn signed_duration_counts_down_to_the_nanosecond() {
    assert_eq!(
        at(10, 250).signed_duration_since(at(4, 100)),
        TimeDelta { secs: 6, nanos: 150 }
    );
    assert_eq!(
        at(10, 100).signed_duration_since(at(4, 250)),
        TimeDelta { secs: 5, nanos: 999_999_850 }
    );
    assert_eq!(
        at(4, 250).signed_duration_since(at(10, 100)),
        TimeDelta { secs: -6, nanos: 150 }
    );
}

#[test]
fn num_seconds_rounds_toward_zero() {
    assert_eq!(TimeDelta { secs: 6, nanos: 150 }.num_seconds(), 6);
    assert_eq!(TimeDelta { secs: -6, nanos: 150 }.num_seconds(), -5);
    assert_eq!(TimeDelta { secs: -6, nanos: 0 }.num_seconds(), -6);
    assert_eq!(TimeDelta { secs: 0, nanos: 999_999_999 }.num_seconds(), 0);
}

#[test]
fn decimals_have_no_leading_zeros() {
    let mut text = String::from("n=");
    append_decimal(&mut text, 0);
    append_decimal(&mut text, 7);
    append_decimal(&mut text, 1_020_304);
    append_decimal(&mut text, u64::MAX);
    assert_eq!(text, "n=07102030418446744073709551615");
}

#[test]
fn signed_decimals_carry_a_minus() {
    let mut text = String::new();
    append_signed_decimal(&mut text, -15);
    text.push(' ');
    append_signed_decimal(&mut text, 15);
    text.push(' ');
    append_signed_decimal(&mut text, i64::MIN);
    text.push(' ');
    append_signed_decimal(&mut text, 0);
    assert_eq!(text, "-15 15 -9223372036854775808 0");
}

#[test]
fn same_text_compares_characters() {
    assert!(same_text("running", "running"));
    assert!(!same_text("running", "Running"));
    assert!(!same_text("run", "running"));
    assert!(same_text("", ""));
}
