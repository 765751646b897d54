use memecoins_sdk::decimal::{format_u64, parse_u64};

#[test]
fn parse_plain_numbers() {
    assert_eq!(parse_u64("0"), Some(0));
    assert_eq!(parse_u64("7"), Some(7));
    assert_eq!(parse_u64("10"), Some(10));
    assert_eq!(parse_u64("1000"), Some(1000));
    assert_eq!(parse_u64("200000"), Some(200_000));
    assert_eq!(parse_u64("1234567890"), Some(1_234_567_890));
}

#[test]
fn parse_accepts_a_plus_and_leading_zeros() {
    assert_eq!(parse_u64("+5"), Some(5));
    assert_eq!(parse_u64("+0"), Some(0));
    assert_eq!(parse_u64("0010"), Some(10));
    assert_eq!(parse_u64("+0010"), Some(10));
    assert_eq!(parse_u64("000000000000000000000000000000000000001"), Some(1));
}

#[test]
fn parse_rejects_text_that_is_no_number() {
    for text in ["", "+", "++1", "-1", "-0", " 1", "1 ", "1_000", "1.5", "0x10", "ten", "1+", "\u{661}\u{662}"] {
        assert_eq!(parse_u64(text), None, "{:?}", text);
    }
}

#[test]
fn parse_at_the_upper_bound() {
    assert_eq!(parse_u64("18446744073709551615"), Some(u64::MAX));
    assert_eq!(parse_u64("+18446744073709551615"), Some(u64::MAX));
    assert_eq!(parse_u64("018446744073709551615"), Some(u64::MAX));
    assert_eq!(parse_u64("18446744073709551614"), Some(u64::MAX - 1));
    assert_eq!(parse_u64("18446744073709551616"), None);
    assert_eq!(parse_u64("18446744073709551620"), None);
    assert_eq!(parse_u64("28446744073709551615"), None);
    assert_eq!(parse_u64("184467440737095516150"), None);
    assert_eq!(parse_u64("99999999999999999999999999"), None);
    assert_eq!(parse_u64("18446744073709551616x"), None);
}

#[test]
fn parse_agrees_with_std() {
    let texts = [
        "", "+", "-", "0", "-0", "+0", "00", "5", "+5", "-5", "12a", "a12", " 12", "12 ", "1_2",
        "18446744073709551615", "18446744073709551616", "+18446744073709551616",
        "000018446744073709551615", "1e3", "\u{663}", "+-1", "++1",
    ];
    for text in texts {
        assert_eq!(parse_u64(text), text.parse::<u64>().ok(), "{:?}", text);
    }
}

#[test]
fn format_writes_decimal_digits() {
    assert_eq!(format_u64(0), "0");
    assert_eq!(format_u64(9), "9");
    assert_eq!(format_u64(10), "10");
    assert_eq!(format_u64(1000), "1000");
    assert_eq!(format_u64(1_000_000), "1000000");
    assert_eq!(format_u64(u64::MAX), "18446744073709551615");
}

#[test]
fn format_agrees_with_std() {
    for n in [0u64, 1, 9, 10, 11, 99, 100, 101, 12345, 1 << 32, u64::MAX - 1, u64::MAX] {
        assert_eq!(format_u64(n), format!("{:?}", n));
    }
}

#[test]
fn format_then_parse_gives_the_amount_back() {
    for n in [0u64, 1, 9, 10, 19, 100, 65535, 1 << 40, u64::MAX / 10, u64::MAX - 1, u64::MAX] {
        assert_eq!(parse_u64(&format_u64(n)), Some(n));
    }
}
