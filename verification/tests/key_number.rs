use telemetry_panel::key_number::{extract_number, parse_decimal};

#[test]
fn the_number_follows_lb() {
    assert_eq!(extract_number("lb3"), Some(3));
    assert_eq!(extract_number("lb0"), Some(0));
    assert_eq!(extract_number("lb42"), Some(42));
    assert_eq!(extract_number("lb007"), Some(7));
}

#[test]
fn the_number_may_stand_inside_the_key() {
    assert_eq!(extract_number("panel_lb12_left"), Some(12));
    assert_eq!(extract_number("xlb7"), Some(7));
    assert_eq!(extract_number("lb12x9"), Some(12));
}

#[test]
fn the_first_lb_with_a_digit_behind_it_decides() {
    assert_eq!(extract_number("lb1lb2"), Some(1));
    assert_eq!(extract_number("lbxlb5"), Some(5));
    assert_eq!(extract_number("lblb8"), Some(8));
}

#[test]
fn keys_without_a_number_have_none() {
    assert_eq!(extract_number(""), None);
    assert_eq!(extract_number("lb"), None);
    assert_eq!(extract_number("label"), None);
    assert_eq!(extract_number("3"), None);
    assert_eq!(extract_number("LB3"), None);
    assert_eq!(extract_number("l b3"), None);
    assert_eq!(extract_number("lb-3"), None);
    assert_eq!(extract_number("lb+3"), None);
}

#[test]
fn a_number_too_large_for_32_bits_is_none() {
    assert_eq!(extract_number("lb4294967295"), Some(u32::MAX));
    assert_eq!(extract_number("lb4294967296"), None);
    assert_eq!(extract_number("lb99999999999999999999999"), None);
}

#[test]
fn digits_of_other_scripts_match_but_spell_no_number() {
    // U+0663 is a decimal digit to the pattern and not to the parser.
    assert_eq!(extract_number("lb\u{0663}"), None);
    assert_eq!(extract_number("lb\u{0663}lb4"), None);
    assert_eq!(extract_number("lb4\u{0663}"), None);
}

#[test]
fn parse_decimal_reads_plain_digits() {
    assert_eq!(parse_decimal("0"), Some(0));
    assert_eq!(parse_decimal("7"), Some(7));
    assert_eq!(parse_decimal("10"), Some(10));
    assert_eq!(parse_decimal("000"), Some(0));
    assert_eq!(parse_decimal("0123"), Some(123));
    assert_eq!(parse_decimal("4294967295"), Some(4294967295));
}

#[test]
fn parse_decimal_takes_one_leading_plus() {
    assert_eq!(parse_decimal("+5"), Some(5));
    assert_eq!(parse_decimal("+"), None);
    assert_eq!(parse_decimal("++5"), None);
    assert_eq!(parse_decimal("5+"), None);
}

#[test]
fn parse_decimal_refuses_everything_else() {
    assert_eq!(parse_decimal(""), None);
    assert_eq!(parse_decimal("-1"), None);
    assert_eq!(parse_decimal(" 1"), None);
    assert_eq!(parse_decimal("1 "), None);
    assert_eq!(parse_decimal("12a"), None);
    assert_eq!(parse_decimal("1.0"), None);
    assert_eq!(parse_decimal("\u{0663}"), None);
    assert_eq!(parse_decimal("1\u{00e9}"), None);
    assert_eq!(parse_decimal("4294967296"), None);
    assert_eq!(parse_decimal("42949672950"), None);
    assert_eq!(parse_decimal("99999999999999999999"), None);
}

#[test]
fn parse_decimal_agrees_with_the_standard_parser() {
    let cases = [
        "", "0", "1", "+1", "-1", "+", "-", "00", "09", "4294967295", "4294967296", "4294967300",
        "+4294967295", "+4294967296", "18446744073709551616", "1e3", "0x10", "1_000", " 7", "7 ",
        "\u{ff11}", "7\u{0663}", "+0", "+-1", "2147483648",
    ];
    for text in cases {
        assert_eq!(parse_decimal(text), text.parse::<u32>().ok(), "{:?}", text);
    }
}

#[test]
fn a_number_written_in_decimal_reads_back() {
    for n in [0u32, 1, 9, 10, 99, 100, 255, 65_535, 1_000_000, u32::MAX - 1, u32::MAX] {
        let mut text = String::new();
        telemetry_panel::text::push_natural(&mut text, n as u64);
        assert_eq!(parse_decimal(&text), Some(n));
        let key = format!("lb{}", text);
        assert_eq!(extract_number(&key), Some(n));
    }
}
