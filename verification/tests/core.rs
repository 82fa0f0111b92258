//! Countdown formatting, expiry, and duration parsing.

use tomato::utils::{i32_to_string, parse_i32, render_timer, to_time_str, u64_to_string};

#[test]
fn test_to_time_str() {
    assert_eq!(to_time_str(30), "30s");
    assert_eq!(to_time_str(60), "1m 0s");
    assert_eq!(to_time_str(90), "1m 30s");
    assert_eq!(to_time_str(120), "2m 0s");
    assert_eq!(to_time_str(150), "2m 30s");
}

#[test]
fn test_render_timer() {
    let start: u64 = 1_000_000;
    assert_eq!(render_timer(start, 1, start), Some("1m 0s".to_string()));
    assert_eq!(render_timer(start, 3, start), Some("3m 0s".to_string()));
}

#[test]
fn to_time_str_seconds_only_under_a_minute() {
    assert_eq!(to_time_str(0), "0s");
    assert_eq!(to_time_str(1), "1s");
    assert_eq!(to_time_str(59), "59s");
}

#[test]
fn to_time_str_minutes_and_seconds() {
    assert_eq!(to_time_str(61), "1m 1s");
    assert_eq!(to_time_str(119), "1m 59s");
    assert_eq!(to_time_str(3600), "60m 0s");
    assert_eq!(to_time_str(1500), "25m 0s");
}

#[test]
fn render_timer_counts_down() {
    // A one-minute session started at 100, seen 10 seconds later.
    assert_eq!(render_timer(100, 1, 110), Some("50s".to_string()));
    // Seen 59 seconds later: one second to go.
    assert_eq!(render_timer(100, 1, 159), Some("1s".to_string()));
}

#[test]
fn render_timer_expires_under_one_second() {
    assert_eq!(render_timer(100, 1, 160), None);
    assert_eq!(render_timer(100, 1, 500), None);
}

#[test]
fn render_timer_nonpositive_duration_is_expired() {
    assert_eq!(render_timer(100, 0, 100), None);
    assert_eq!(render_timer(100, -5, 100), None);
}

#[test]
fn parse_accepts_plain_integers() {
    assert_eq!(parse_i32("45"), Some(45));
    assert_eq!(parse_i32("0"), Some(0));
    assert_eq!(parse_i32("007"), Some(7));
    assert_eq!(parse_i32("2147483647"), Some(2147483647));
    assert_eq!(parse_i32("-5"), Some(-5));
    assert_eq!(parse_i32("-2147483648"), Some(i32::MIN));
}

#[test]
fn parse_rejects_malformed_or_oversized_text() {
    assert_eq!(parse_i32(""), None);
    assert_eq!(parse_i32("ab"), None);
    assert_eq!(parse_i32("4a"), None);
    assert_eq!(parse_i32("-"), None);
    assert_eq!(parse_i32(" 5"), None);
    assert_eq!(parse_i32("2147483648"), None);
    assert_eq!(parse_i32("-2147483649"), None);
    assert_eq!(parse_i32("99999999999999999999"), None);
}

#[test]
fn decimal_renderings() {
    assert_eq!(u64_to_string(0), "0");
    assert_eq!(u64_to_string(9), "9");
    assert_eq!(u64_to_string(1234567890), "1234567890");
    assert_eq!(i32_to_string(25), "25");
    assert_eq!(i32_to_string(-12), "-12");
    assert_eq!(i32_to_string(i32::MIN), "-2147483648");
}
