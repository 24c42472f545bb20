use axum_backend::text::{integer_text, natural_text, parse_i32};

#[test]
fn naturals_are_written_without_leading_zeros() {
    assert_eq!(natural_text(0), "0");
    assert_eq!(natural_text(7), "7");
    assert_eq!(natural_text(10), "10");
    assert_eq!(natural_text(1203), "1203");
    assert_eq!(natural_text(u128::MAX), u128::MAX.to_string());
}

#[test]
fn integers_carry_their_sign() {
    assert_eq!(integer_text(0), "0");
    assert_eq!(integer_text(42), "42");
    assert_eq!(integer_text(-42), "-42");
    assert_eq!(integer_text(i64::MIN), "-9223372036854775808");
    assert_eq!(integer_text(i64::MAX), "9223372036854775807");
}

#[test]
fn integer_text_agrees_with_the_standard_rendering() {
    let mut v: i64 = -1_000_003;
    while v < 1_000_003 {
        assert_eq!(integer_text(v), v.to_string());
        v += 997;
    }
}

#[test]
fn parse_reads_signed_decimals() {
    assert_eq!(parse_i32("0"), Some(0));
    assert_eq!(parse_i32("42"), Some(42));
    assert_eq!(parse_i32("+42"), Some(42));
    assert_eq!(parse_i32("-42"), Some(-42));
    assert_eq!(parse_i32("-0"), Some(0));
    assert_eq!(parse_i32("007"), Some(7));
    assert_eq!(parse_i32("2147483647"), Some(i32::MAX));
    assert_eq!(parse_i32("-2147483648"), Some(i32::MIN));
    assert_eq!(parse_i32("0000000000000000000000012"), Some(12));
}

#[test]
fn parse_refuses_what_is_not_a_decimal_that_fits() {
    assert_eq!(parse_i32(""), None);
    assert_eq!(parse_i32("+"), None);
    assert_eq!(parse_i32("-"), None);
    assert_eq!(parse_i32("--1"), None);
    assert_eq!(parse_i32("+-1"), None);
    assert_eq!(parse_i32("1-"), None);
    assert_eq!(parse_i32("12a"), None);
    assert_eq!(parse_i32("a12"), None);
    assert_eq!(parse_i32(" 1"), None);
    assert_eq!(parse_i32("1 "), None);
    assert_eq!(parse_i32("1.0"), None);
    assert_eq!(parse_i32("٣"), None);
    assert_eq!(parse_i32("2147483648"), None);
    assert_eq!(parse_i32("-2147483649"), None);
    assert_eq!(parse_i32("99999999999999999999999999999"), None);
    assert_eq!(parse_i32("-99999999999999999999999999999"), None);
    assert_eq!(parse_i32("21474836470"), None);
}

#[test]
fn parse_agrees_with_the_standard_parser() {
    let samples = [
        "", "0", "-", "+", "+0", "-1", "1e3", "0x10", "12", "-12", "+12", "2147483647",
        "2147483648", "-2147483648", "-2147483649", "00", "-00", "1_000", "١٢", "12\n",
    ];
    for text in samples {
        assert_eq!(parse_i32(text), text.parse::<i32>().ok(), "input {:?}", text);
    }
}

#[test]
fn parse_reads_back_what_integer_text_writes() {
    let values = [0, 1, -1, 9, 10, -10, 42, 65535, -65536, i32::MAX, i32::MIN];
    for v in values {
        assert_eq!(parse_i32(&integer_text(v as i64)), Some(v));
    }
}
