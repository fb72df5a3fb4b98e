use durable_trace::duration::get_duration_string;
use durable_trace::timestamp::TimeDelta;

fn words(secs: i64) -> String {
    get_duration_string(TimeDelta { secs, nanos: 0 })
}

#[test]
fn zero_seconds_reads_zero_seconds() {
    assert_eq!(words(0), "0 Seconds");
}

#[test]
fn one_second_is_singular() {
    assert_eq!(words(1), "1 Second");
}

#[test]
fn fifty_nine_seconds() {
    assert_eq!(words(59), "59 Seconds");
}

#[test]
fn ninety_seconds_drops_the_seconds() {
    assert_eq!(words(90), "1 Minute");
}

#[test]
fn hour_and_minute_drop_the_seconds() {
    assert_eq!(words(3661), "1 Hour and 1 Minute");
}

#[test]
fn exact_hour_names_only_the_hour() {
    assert_eq!(words(3600), "1 Hour");
}

#[test]
fn plural_hours_and_minutes() {
    assert_eq!(words(2 * 3600 + 2 * 60 + 2), "2 Hours and 2 Minutes");
}

#[test]
fn two_minutes_are_plural() {
    assert_eq!(words(120), "2 Minutes");
}

#[test]
fn many_hours_keep_every_digit() {
    assert_eq!(words(1234 * 3600 + 59 * 60), "1234 Hours and 59 Minutes");
}

#[test]
fn a_span_under_one_second_reads_zero_seconds() {
    assert_eq!(get_duration_string(TimeDelta { secs: 0, nanos: 999_999_999 }), "0 Seconds");
}

#[test]
fn fractions_of_a_second_are_dropped() {
    assert_eq!(get_duration_string(TimeDelta { secs: 61, nanos: 500_000_000 }), "1 Minute");
}
