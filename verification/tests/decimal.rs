use lasso::decimal::{count_digits, parse_decimal};

#[test]
fn parses_plain_digits() {
    assert_eq!(parse_decimal("0"), Some(0));
    assert_eq!(parse_decimal("7"), Some(7));
    assert_eq!(parse_decimal("42"), Some(42));
    assert_eq!(parse_decimal("17000000"), Some(17_000_000));
}

#[test]
fn parses_leading_zeros_and_plus_sign() {
    assert_eq!(parse_decimal("007"), Some(7));
    assert_eq!(parse_decimal("+12"), Some(12));
    assert_eq!(parse_decimal("+0"), Some(0));
}

#[test]
fn rejects_text_that_is_no_number() {
    assert_eq!(parse_decimal(""), None);
    assert_eq!(parse_decimal("+"), None);
    assert_eq!(parse_decimal("abc"), None);
    assert_eq!(parse_decimal("12a"), None);
    assert_eq!(parse_decimal("a12"), None);
    assert_eq!(parse_decimal("1 2"), None);
    assert_eq!(parse_decimal(" 7"), None);
    assert_eq!(parse_decimal("7 "), None);
    assert_eq!(parse_decimal("7.5"), None);
    assert_eq!(parse_decimal("++7"), None);
    assert_eq!(parse_decimal("1_000"), None);
    assert_eq!(parse_decimal("٧"), None);
}

#[test]
fn rejects_negative_numbers() {
    assert_eq!(parse_decimal("-1"), None);
    assert_eq!(parse_decimal("-0"), None);
}

#[test]
fn parses_up_to_the_largest_value_and_no_further() {
    let largest = usize::MAX.to_string();
    assert_eq!(parse_decimal(&largest), Some(usize::MAX));
    let beyond = format!("{}0", largest);
    assert_eq!(parse_decimal(&beyond), None);
    assert_eq!(parse_decimal("340282366920938463463374607431768211456"), None);
}

#[test]
fn agrees_with_the_standard_parser() {
    let samples = vec![
        "", "0", "1", "+1", "-1", "00", "+00", "12345", "x", "1x", "+", "-", "18446744073709551615",
        "18446744073709551616", "99999999999999999999", " 1", "1\n", "0x10", "1e3",
    ];
    for sample in samples {
        assert_eq!(parse_decimal(sample), sample.parse::<usize>().ok(), "{:?}", sample);
    }
}

#[test]
fn counts_the_digits_of_a_text() {
    assert_eq!(count_digits(""), 0);
    assert_eq!(count_digits("abc"), 0);
    assert_eq!(count_digits("5s"), 1);
    assert_eq!(count_digits("2h 37min"), 3);
    assert_eq!(count_digits("0123456789"), 10);
    assert_eq!(count_digits("1.5µs ٧"), 2);
    assert_eq!(count_digits("18446744073709551615s 1000000000ns"), 30);
}
