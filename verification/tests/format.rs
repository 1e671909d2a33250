use kufefe::expire::{expire_minutes, expiry_timestamp, generate_expiry};
use kufefe::numfmt::{i64_to_string, parse_i64, u64_to_string};

#[test]
fn renders_zero() {
    assert_eq!(u64_to_string(0), "0");
}

#[test]
fn renders_digits() {
    assert_eq!(u64_to_string(7), "7");
    assert_eq!(u64_to_string(42), "42");
    assert_eq!(u64_to_string(1700000000), "1700000000");
    assert_eq!(u64_to_string(u64::MAX), "18446744073709551615");
}

#[test]
fn renders_signed() {
    assert_eq!(i64_to_string(-1), "-1");
    assert_eq!(i64_to_string(-60), "-60");
    assert_eq!(i64_to_string(1234), "1234");
    assert_eq!(i64_to_string(i64::MIN), "-9223372036854775808");
    assert_eq!(i64_to_string(i64::MAX), "9223372036854775807");
}

#[test]
fn parses_plain_numbers() {
    assert_eq!(parse_i64("0"), Some(0));
    assert_eq!(parse_i64("60"), Some(60));
    assert_eq!(parse_i64("-60"), Some(-60));
    assert_eq!(parse_i64("+60"), Some(60));
    assert_eq!(parse_i64("0060"), Some(60));
    assert_eq!(parse_i64("9223372036854775807"), Some(i64::MAX));
    assert_eq!(parse_i64("-9223372036854775808"), Some(i64::MIN));
}

#[test]
fn rejects_malformed_numbers() {
    assert_eq!(parse_i64(""), None);
    assert_eq!(parse_i64("-"), None);
    assert_eq!(parse_i64("+"), None);
    assert_eq!(parse_i64("+-60"), None);
    assert_eq!(parse_i64("12a"), None);
    assert_eq!(parse_i64("six"), None);
    assert_eq!(parse_i64("9223372036854775808"), None);
    assert_eq!(parse_i64("-9223372036854775809"), None);
    assert_eq!(parse_i64("184467440737095516150"), None);
}

#[test]
fn render_parse_round_trip() {
    for n in [0i64, 1, -1, 60, 3600, i64::MIN, i64::MAX, -987654321] {
        assert_eq!(parse_i64(&i64_to_string(n)), Some(n));
    }
}

#[test]
fn ttl_defaults_to_sixty_minutes() {
    assert_eq!(expire_minutes(None), 60);
    assert_eq!(expire_minutes(Some("abc")), 60);
    assert_eq!(expire_minutes(Some("")), 60);
}

#[test]
fn ttl_reads_the_setting() {
    assert_eq!(expire_minutes(Some("1")), 1);
    assert_eq!(expire_minutes(Some("120")), 120);
    assert_eq!(expire_minutes(Some("-5")), -5);
}

#[test]
fn expiry_is_now_plus_ttl() {
    assert_eq!(expiry_timestamp(1000, 60), 1000 + 3600);
    assert_eq!(expiry_timestamp(0, 1), 60);
}

#[test]
fn expiry_saturates_instead_of_overflowing() {
    assert_eq!(expiry_timestamp(i64::MAX, 1), i64::MAX);
    assert_eq!(expiry_timestamp(i64::MIN, -1), i64::MIN);
    assert_eq!(expiry_timestamp(0, i64::MAX), i64::MAX);
}

#[test]
fn generated_expiry_lies_ahead() {
    let e = generate_expiry(60);
    // well after 2020, well before the end of the range
    assert!(e > 1_577_836_800);
    assert!(e < i64::MAX);
}
