use quiz_game::decimal::{parse, render};

#[test]
fn parse_reads_plain_digits() {
    assert_eq!(parse("45"), Some(45));
    assert_eq!(parse("0"), Some(0));
    assert_eq!(parse("30"), Some(30));
}

#[test]
fn parse_accepts_leading_zeros_and_a_plus_sign() {
    assert_eq!(parse("007"), Some(7));
    assert_eq!(parse("+45"), Some(45));
    assert_eq!(parse("+0"), Some(0));
}

#[test]
fn parse_rejects_what_is_no_number() {
    assert_eq!(parse(""), None);
    assert_eq!(parse("+"), None);
    assert_eq!(parse("-1"), None);
    assert_eq!(parse("-0"), None);
    assert_eq!(parse("++1"), None);
    assert_eq!(parse("4 5"), None);
    assert_eq!(parse(" 45"), None);
    assert_eq!(parse("45 "), None);
    assert_eq!(parse("45\n"), None);
    assert_eq!(parse("4_5"), None);
    assert_eq!(parse("4.5"), None);
    assert_eq!(parse("0x10"), None);
    assert_eq!(parse("abc"), None);
    assert_eq!(parse("٤٥"), None);
}

#[test]
fn parse_stops_at_the_largest_number() {
    assert_eq!(parse("18446744073709551615"), Some(u64::MAX));
    assert_eq!(parse("18446744073709551616"), None);
    assert_eq!(parse("18446744073709551620"), None);
    assert_eq!(parse("99999999999999999999"), None);
    assert_eq!(parse("184467440737095516150"), None);
    assert_eq!(parse("000018446744073709551615"), Some(u64::MAX));
}

#[test]
fn parse_agrees_with_the_standard_library() {
    let samples = [
        "", "0", "1", "9", "10", "45", "+45", "-45", "+", "-", "+-1", "1+", "00", "0009",
        "18446744073709551615", "18446744073709551616", "+18446744073709551615", "1e3", " 1",
        "1 ", "\t1", "1\r", "१", "１", "a", "12a", "a12", "1,2",
    ];
    for text in samples {
        assert_eq!(parse(text), text.parse::<u64>().ok(), "on {:?}", text);
    }
}

#[test]
fn render_writes_decimal_digits() {
    assert_eq!(render(0), "0");
    assert_eq!(render(7), "7");
    assert_eq!(render(10), "10");
    assert_eq!(render(45), "45");
    assert_eq!(render(1234567890), "1234567890");
    assert_eq!(render(u64::MAX), "18446744073709551615");
}

#[test]
fn render_agrees_with_the_standard_library() {
    let mut n: u64 = 1;
    for _ in 0..64 {
        assert_eq!(render(n), format!("{}", n));
        assert_eq!(render(n - 1), format!("{}", n - 1));
        n = n.wrapping_mul(2);
    }
}

#[test]
fn what_is_rendered_parses_back() {
    for n in [0u64, 1, 9, 10, 99, 100, 101, 1000, 65535, 4294967296, u64::MAX - 1, u64::MAX] {
        assert_eq!(parse(&render(n)), Some(n));
    }
}
