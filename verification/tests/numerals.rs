use collector::text::{i64_to_string, parse_u64, u64_to_string};

#[test]
fn parse_u64_reads_plain_digits() {
    assert_eq!(parse_u64(b"0"), Some(0));
    assert_eq!(parse_u64(b"7"), Some(7));
    assert_eq!(parse_u64(b"2000"), Some(2000));
    assert_eq!(parse_u64(b"0012"), Some(12));
}

#[test]
fn parse_u64_takes_a_leading_plus() {
    assert_eq!(parse_u64(b"+5"), Some(5));
    assert_eq!(parse_u64(b"+"), None);
    assert_eq!(parse_u64(b"++5"), None);
}

#[test]
fn parse_u64_refuses_what_is_no_number() {
    assert_eq!(parse_u64(b""), None);
    assert_eq!(parse_u64(b"-5"), None);
    assert_eq!(parse_u64(b" 5"), None);
    assert_eq!(parse_u64(b"5 "), None);
    assert_eq!(parse_u64(b"1_000"), None);
    assert_eq!(parse_u64(b"12a"), None);
    assert_eq!(parse_u64(b"1.5"), None);
    assert_eq!(parse_u64(&[0xff, 0x31]), None);
}

#[test]
fn parse_u64_stops_at_the_largest_value() {
    assert_eq!(parse_u64(b"18446744073709551615"), Some(u64::MAX));
    assert_eq!(parse_u64(b"18446744073709551616"), None);
    assert_eq!(parse_u64(b"99999999999999999999"), None);
    assert_eq!(parse_u64(b"184467440737095516150"), None);
    assert_eq!(parse_u64(b"000000000000000000000000000001"), Some(1));
}

#[test]
fn parse_u64_agrees_with_the_standard_parser() {
    let samples = vec![
        "", "0", "1", "42", "+42", "-42", "+", "-", "4 2", "42\n", "\t42", "0x10", "18446744073709551615",
        "18446744073709551616", "+18446744073709551615", "00000000000000000000000018446744073709551615",
        "١٢٣", "12e3", "1,000", "+0", "-0", "9223372036854775808", "340282366920938463463374607431768211456",
    ];
    for text in samples {
        assert_eq!(parse_u64(text.as_bytes()), text.parse::<u64>().ok(), "{:?}", text);
    }
}

#[test]
fn u64_to_string_writes_decimal_digits() {
    assert_eq!(u64_to_string(0), "0");
    assert_eq!(u64_to_string(9), "9");
    assert_eq!(u64_to_string(10), "10");
    assert_eq!(u64_to_string(1234567890), "1234567890");
    assert_eq!(u64_to_string(u64::MAX), "18446744073709551615");
}

#[test]
fn i64_to_string_writes_the_sign() {
    assert_eq!(i64_to_string(0), "0");
    assert_eq!(i64_to_string(-1), "-1");
    assert_eq!(i64_to_string(1700000000), "1700000000");
    assert_eq!(i64_to_string(i64::MAX), "9223372036854775807");
    assert_eq!(i64_to_string(i64::MIN), "-9223372036854775808");
}

#[test]
fn i64_to_string_agrees_with_the_standard_formatter() {
    let samples: Vec<i64> = vec![0, 1, -1, 9, 10, -10, 99, 100, 101, 1_000_000, -1_000_000, i64::MAX, i64::MIN, i64::MIN + 1];
    for n in samples {
        assert_eq!(i64_to_string(n), n.to_string());
    }
}
