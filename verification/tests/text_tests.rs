use rustyspoty::text::{decimal_string, parse_u64, push_decimal};

fn std_parse(s: &str) -> Option<u64> {
    s.parse::<u64>().ok()
}

#[test]
fn parse_u64_reads_plain_digits() {
    assert_eq!(parse_u64(b"5"), Some(5));
    assert_eq!(parse_u64(b"0"), Some(0));
    assert_eq!(parse_u64(b"120"), Some(120));
    assert_eq!(parse_u64(b"0005"), Some(5));
}

#[test]
fn parse_u64_takes_a_leading_plus() {
    assert_eq!(parse_u64(b"+5"), Some(5));
    assert_eq!(parse_u64(b"+"), None);
    assert_eq!(parse_u64(b"++5"), None);
}

#[test]
fn parse_u64_refuses_what_is_no_number() {
    assert_eq!(parse_u64(b""), None);
    assert_eq!(parse_u64(b"-5"), None);
    assert_eq!(parse_u64(b" 5"), None);
    assert_eq!(parse_u64(b"5 "), None);
    assert_eq!(parse_u64(b"5s"), None);
    assert_eq!(parse_u64(b"1.5"), None);
    assert_eq!(parse_u64(b"Wed, 21 Oct 2015 07:28:00 GMT"), None);
    assert_eq!(parse_u64(&[0xff, 0x35]), None);
}

#[test]
fn parse_u64_stops_at_the_largest_value() {
    assert_eq!(parse_u64(b"18446744073709551615"), Some(u64::MAX));
    assert_eq!(parse_u64(b"18446744073709551616"), None);
    assert_eq!(parse_u64(b"99999999999999999999"), None);
    assert_eq!(parse_u64(b"184467440737095516150"), None);
}

#[test]
fn parse_u64_agrees_with_std() {
    let cases = [
        "", "+", "-", "0", "+0", "-0", "7", "42", "007", "+42", "4 2", "42\n", "٣", "1e3",
        "18446744073709551615", "18446744073709551616", "+18446744073709551615",
        "000000000000000000000000000001",
    ];
    for case in cases {
        assert_eq!(parse_u64(case.as_bytes()), std_parse(case), "{:?}", case);
    }
}

#[test]
fn decimal_string_agrees_with_std() {
    for n in [0u64, 1, 9, 10, 11, 99, 100, 429, 1000, 123456789, u64::MAX] {
        assert_eq!(decimal_string(n), n.to_string());
    }
}

#[test]
fn push_decimal_appends() {
    let mut s = String::from("n=");
    push_decimal(&mut s, 50);
    assert_eq!(s, "n=50");
}
