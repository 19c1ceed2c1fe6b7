use dice_roller::decimal::{format_i32, format_u32, parse_i32};

#[test]
fn formats_zero_and_single_digits() {
    assert_eq!(format_u32(0), "0");
    assert_eq!(format_u32(7), "7");
    assert_eq!(format_i32(0), "0");
    assert_eq!(format_i32(9), "9");
    assert_eq!(format_i32(-1), "-1");
}

#[test]
fn formats_the_extremes() {
    assert_eq!(format_u32(u32::MAX), "4294967295");
    assert_eq!(format_i32(i32::MAX), "2147483647");
    assert_eq!(format_i32(i32::MIN), "-2147483648");
}

#[test]
fn formats_as_std_does() {
    let samples = [0, 1, -1, 10, -10, 99, 100, 101, 12345, -98765, 1000000, i32::MAX, i32::MIN];
    for n in samples {
        assert_eq!(format_i32(n), n.to_string());
    }
    for n in [0u32, 5, 10, 4096, 2147483648, u32::MAX] {
        assert_eq!(format_u32(n), n.to_string());
    }
}

#[test]
fn parses_plain_numbers() {
    assert_eq!(parse_i32("0"), Some(0));
    assert_eq!(parse_i32("3"), Some(3));
    assert_eq!(parse_i32("20"), Some(20));
    assert_eq!(parse_i32("100"), Some(100));
}

#[test]
fn parses_signs() {
    assert_eq!(parse_i32("+5"), Some(5));
    assert_eq!(parse_i32("-3"), Some(-3));
    assert_eq!(parse_i32("-0"), Some(0));
    assert_eq!(parse_i32("+0"), Some(0));
}

#[test]
fn parses_leading_zeros() {
    assert_eq!(parse_i32("007"), Some(7));
    assert_eq!(parse_i32("-0012"), Some(-12));
    assert_eq!(parse_i32("000000000000000000000000000042"), Some(42));
}

#[test]
fn parses_up_to_the_limits_and_no_further() {
    assert_eq!(parse_i32("2147483647"), Some(i32::MAX));
    assert_eq!(parse_i32("2147483648"), None);
    assert_eq!(parse_i32("-2147483648"), Some(i32::MIN));
    assert_eq!(parse_i32("-2147483649"), None);
    assert_eq!(parse_i32("99999999999999999999999999"), None);
    assert_eq!(parse_i32("-99999999999999999999999999"), None);
}

#[test]
fn rejects_text_that_is_no_number() {
    assert_eq!(parse_i32(""), None);
    assert_eq!(parse_i32("abc"), None);
    assert_eq!(parse_i32("+"), None);
    assert_eq!(parse_i32("-"), None);
    assert_eq!(parse_i32("+-1"), None);
    assert_eq!(parse_i32("--1"), None);
    assert_eq!(parse_i32("1-"), None);
    assert_eq!(parse_i32(" 3"), None);
    assert_eq!(parse_i32("3 "), None);
    assert_eq!(parse_i32("1_000"), None);
    assert_eq!(parse_i32("1.5"), None);
    assert_eq!(parse_i32("0x10"), None);
    assert_eq!(parse_i32("12a"), None);
}

#[test]
fn rejects_digits_outside_ascii() {
    assert_eq!(parse_i32("\u{ff13}"), None);
    assert_eq!(parse_i32("1\u{0663}"), None);
    assert_eq!(parse_i32("\u{2212}5"), None);
    assert_eq!(parse_i32("5\u{e9}"), None);
}

#[test]
fn parses_as_std_does() {
    let samples = [
        "", "0", "1", "-1", "+1", "+", "-", "00", "-00", "+-0", "12", "1 2", "\t1", "1\n",
        "2147483647", "2147483648", "-2147483648", "-2147483649", "4294967296", "0000000000001",
        "99", "d20", "20d", "1e3", "١٢", "9223372036854775808", "-+3", "++3", "3+", "٣",
    ];
    for text in samples {
        assert_eq!(parse_i32(text), text.parse::<i32>().ok(), "on {:?}", text);
    }
}

#[test]
fn reads_back_what_it_wrote() {
    for n in [0, 1, -1, 9, 10, -10, 12345, -54321, i32::MAX, i32::MIN] {
        assert_eq!(parse_i32(&format_i32(n)), Some(n));
    }
}
