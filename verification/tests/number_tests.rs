use forum_persona::numbers::i32_to_string;
use forum_persona::numbers::parse_i32;

#[test]
fn parse_accepts_plain_decimals() {
    assert_eq!(parse_i32("42"), Some(42));
    assert_eq!(parse_i32("0"), Some(0));
    assert_eq!(parse_i32("-7"), Some(-7));
    assert_eq!(parse_i32("+5"), Some(5));
    assert_eq!(parse_i32("00042"), Some(42));
}

#[test]
fn parse_rejects_malformed_text() {
    assert_eq!(parse_i32(""), None);
    assert_eq!(parse_i32("-"), None);
    assert_eq!(parse_i32("+"), None);
    assert_eq!(parse_i32("abc"), None);
    assert_eq!(parse_i32("12x"), None);
    assert_eq!(parse_i32(" 12"), None);
    assert_eq!(parse_i32("1 2"), None);
    assert_eq!(parse_i32("--3"), None);
}

#[test]
fn parse_respects_the_range() {
    assert_eq!(parse_i32("2147483647"), Some(2147483647));
    assert_eq!(parse_i32("2147483648"), None);
    assert_eq!(parse_i32("-2147483648"), Some(-2147483648));
    assert_eq!(parse_i32("-2147483649"), None);
    assert_eq!(parse_i32("99999999999999999999"), None);
}

#[test]
fn rendering_matches_the_decimal_form() {
    assert_eq!(i32_to_string(0), "0");
    assert_eq!(i32_to_string(7), "7");
    assert_eq!(i32_to_string(120), "120");
    assert_eq!(i32_to_string(-3), "-3");
    assert_eq!(i32_to_string(2147483647), "2147483647");
    assert_eq!(i32_to_string(-2147483648), "-2147483648");
}

#[test]
fn rendering_and_parsing_agree() {
    for n in [0, 1, -1, 42, -42, 1000000, -2147483648, 2147483647] {
        assert_eq!(parse_i32(&i32_to_string(n)), Some(n));
    }
}
