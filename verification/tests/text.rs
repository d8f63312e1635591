use skill_monitor::text::{append_decimal, parse_u64, parse_u64_range};

fn decimal(value: i128) -> String {
    let mut out = String::new();
    append_decimal(&mut out, value);
    out
}

#[test]
fn decimal_of_small_numbers() {
    assert_eq!(decimal(0), "0");
    assert_eq!(decimal(7), "7");
    assert_eq!(decimal(10), "10");
    assert_eq!(decimal(1800), "1800");
    assert_eq!(decimal(1234567890), "1234567890");
}

#[test]
fn decimal_of_negative_numbers() {
    assert_eq!(decimal(-1), "-1");
    assert_eq!(decimal(-1800), "-1800");
    assert_eq!(decimal(i64::MIN as i128), "-9223372036854775808");
}

#[test]
fn decimal_of_the_largest_and_smallest_values() {
    assert_eq!(decimal(u64::MAX as i128), "18446744073709551615");
    assert_eq!(decimal(i128::MAX), "170141183460469231731687303715884105727");
    assert_eq!(decimal(i128::MIN), "-170141183460469231731687303715884105728");
}

#[test]
fn decimal_is_appended_to_what_is_there() {
    let mut out = String::from("<t:");
    append_decimal(&mut out, 1700000000);
    assert_eq!(out, "<t:1700000000");
}

#[test]
fn decimal_agrees_with_the_standard_library() {
    let values: Vec<i128> = vec![0, 1, 9, 10, 99, 100, 101, 65535, -65536, 4294967296];
    for value in values {
        assert_eq!(decimal(value), format!("{}", value));
    }
}

#[test]
fn parse_plain_numbers() {
    assert_eq!(parse_u64("0"), Some(0));
    assert_eq!(parse_u64("42"), Some(42));
    assert_eq!(parse_u64("007"), Some(7));
    assert_eq!(parse_u64("2112625428"), Some(2112625428));
}

#[test]
fn parse_takes_a_leading_plus() {
    assert_eq!(parse_u64("+42"), Some(42));
    assert_eq!(parse_u64("+"), None);
    assert_eq!(parse_u64("++1"), None);
}

#[test]
fn parse_refuses_what_is_no_number() {
    assert_eq!(parse_u64(""), None);
    assert_eq!(parse_u64("-1"), None);
    assert_eq!(parse_u64("4 2"), None);
    assert_eq!(parse_u64("42a"), None);
    assert_eq!(parse_u64("a42"), None);
    assert_eq!(parse_u64("4.2"), None);
    assert_eq!(parse_u64("\u{0664}\u{0662}"), None);
}

#[test]
fn parse_stops_at_64_bits() {
    assert_eq!(parse_u64("18446744073709551615"), Some(u64::MAX));
    assert_eq!(parse_u64("18446744073709551616"), None);
    assert_eq!(parse_u64("99999999999999999999"), None);
    assert_eq!(parse_u64("184467440737095516150"), None);
    assert_eq!(parse_u64("00000000000000000000000000001"), Some(1));
}

#[test]
fn parse_overflow_then_garbage_is_still_no_number() {
    assert_eq!(parse_u64("99999999999999999999x"), None);
}

#[test]
fn parse_agrees_with_the_standard_library() {
    let inputs = vec!["", "+", "0", "+0", "-0", "12", "+12", "1_000", " 1", "1 ", "18446744073709551615", "18446744073709551616"];
    for input in inputs {
        assert_eq!(parse_u64(input), input.parse::<u64>().ok(), "input {:?}", input);
    }
}

#[test]
fn parse_a_range_of_a_text() {
    assert_eq!(parse_u64_range("char-95465499.json", 5, 13), Some(95465499));
    assert_eq!(parse_u64_range("char-95465499.json", 5, 5), None);
    assert_eq!(parse_u64_range("char-95465499.json", 4, 13), None);
    assert_eq!(parse_u64_range("abc", 3, 3), None);
    assert_eq!(parse_u64_range("é12", 1, 3), Some(12));
}

#[test]
fn what_decimal_writes_parse_reads() {
    let values: Vec<u64> = vec![0, 1, 10, 42, 95465499, u64::MAX];
    for value in values {
        assert_eq!(parse_u64(&decimal(value as i128)), Some(value));
    }
}
