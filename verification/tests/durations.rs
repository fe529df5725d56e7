//! Durations and their text form.

use grid_operator::duration::{parse_duration_str, Duration};

#[test]
fn duration_seconds_parses() {
    assert_eq!(parse_duration_str("5s"), Some(Duration::from_secs(5)));
    assert_eq!(parse_duration_str("30s"), Some(Duration::from_secs(30)));
    assert_eq!(parse_duration_str("1s"), Some(Duration::from_secs(1)));
}

#[test]
fn duration_milliseconds_parses() {
    assert_eq!(parse_duration_str("500ms"), Some(Duration::from_millis(500)));
    assert_eq!(parse_duration_str("100ms"), Some(Duration::from_millis(100)));
}

#[test]
fn duration_unrecognised_suffix_returns_none() {
    assert_eq!(parse_duration_str("5m"), None, "minutes not supported");
    assert_eq!(parse_duration_str("5"), None, "bare number not supported");
    assert_eq!(parse_duration_str(""), None, "empty string not supported");
}

#[test]
fn duration_non_numeric_returns_none() {
    assert_eq!(parse_duration_str("fives"), None, "non-numeric seconds");
    assert_eq!(parse_duration_str("abcms"), None, "non-numeric milliseconds");
}

#[test]
fn parse_duration_str_whitespace_in_numeric_part_is_trimmed() {
    assert_eq!(
        parse_duration_str("  5s"),
        Some(Duration::from_secs(5)),
        "leading whitespace before number must be trimmed"
    );
    assert_eq!(
        parse_duration_str("100  ms"),
        Some(Duration::from_millis(100)),
        "whitespace between number and suffix is trimmed from the numeric part"
    );
    assert_eq!(
        parse_duration_str("  500  ms"),
        Some(Duration::from_millis(500)),
        "whitespace on both sides of number must be trimmed"
    );
}

#[test]
fn duration_accepts_a_plus_sign_and_any_white_space() {
    assert_eq!(parse_duration_str("+7s"), Some(Duration::from_secs(7)));
    assert_eq!(parse_duration_str("\u{3000}\t8\u{a0}s"), Some(Duration::from_secs(8)));
    assert_eq!(parse_duration_str("007ms"), Some(Duration::from_millis(7)));
}

#[test]
fn duration_rejects_everything_but_a_number() {
    assert_eq!(parse_duration_str("s"), None);
    assert_eq!(parse_duration_str("ms"), None);
    assert_eq!(parse_duration_str("+s"), None);
    assert_eq!(parse_duration_str("-1s"), None);
    assert_eq!(parse_duration_str("1.5s"), None);
    assert_eq!(parse_duration_str("1 0s"), None);
    assert_eq!(parse_duration_str("1_0s"), None);
    assert_eq!(parse_duration_str("5s "), None);
    assert_eq!(parse_duration_str("5m s"), None);
}

#[test]
fn duration_is_bounded_by_its_number() {
    assert_eq!(
        parse_duration_str("18446744073709551615s"),
        Some(Duration::from_secs(u64::MAX))
    );
    assert_eq!(parse_duration_str("18446744073709551616s"), None);
}

#[test]
fn duration_parts() {
    let span = Duration::from_millis(61_250);
    assert_eq!(span.as_millis(), 61_250);
    assert_eq!(span.as_secs(), 61);
    assert_eq!(span.subsec_millis(), 250);
    assert_eq!(Duration::from_secs(u64::MAX).as_secs(), u64::MAX);
    assert_eq!(Duration::from_secs(2).min(Duration::from_millis(1500)), Duration::from_millis(1500));
    assert_eq!(Duration::from_millis(2000), Duration::from_secs(2));
}
