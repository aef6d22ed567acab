use floodgate::decimal::{parse_decimal, parse_signed, render_decimal, render_signed};

#[test]
fn render_decimal_matches_the_standard_notation() {
    for n in [0u64, 1, 9, 10, 11, 99, 100, 101, 1234567890, u64::MAX - 1, u64::MAX] {
        assert_eq!(render_decimal(n), n.to_string());
    }
}

#[test]
fn parse_decimal_reads_digits_only() {
    assert_eq!(parse_decimal("0"), Some(0));
    assert_eq!(parse_decimal("42"), Some(42));
    assert_eq!(parse_decimal("007"), Some(7));
    assert_eq!(parse_decimal("18446744073709551615"), Some(u64::MAX));
    assert_eq!(parse_decimal("18446744073709551616"), None);
    assert_eq!(parse_decimal("99999999999999999999999"), None);
    assert_eq!(parse_decimal(""), None);
    assert_eq!(parse_decimal("-1"), None);
    assert_eq!(parse_decimal("+1"), None);
    assert_eq!(parse_decimal("1.0"), None);
    assert_eq!(parse_decimal("1e3"), None);
    assert_eq!(parse_decimal(" 1"), None);
    assert_eq!(parse_decimal("١٢"), None);
}

#[test]
fn parse_decimal_inverts_render_decimal() {
    for n in [0u64, 5, 10, 255, 65536, u64::MAX] {
        assert_eq!(parse_decimal(&render_decimal(n)), Some(n));
    }
}

#[test]
fn render_signed_matches_the_standard_notation() {
    for n in [0i64, 1, -1, 10, -10, 1700000000000, i64::MAX, i64::MIN, i64::MIN + 1] {
        assert_eq!(render_signed(n), n.to_string());
    }
}

#[test]
fn parse_signed_reads_what_the_standard_parser_reads() {
    for text in [
        "0",
        "-0",
        "+0",
        "17",
        "-17",
        "+17",
        "9223372036854775807",
        "9223372036854775808",
        "-9223372036854775808",
        "-9223372036854775809",
        "",
        "-",
        "+",
        "--1",
        "+-1",
        "1-",
        "1 ",
        "0x10",
        "1_000",
    ] {
        assert_eq!(parse_signed(text), text.parse::<i64>().ok(), "{:?}", text);
    }
}
