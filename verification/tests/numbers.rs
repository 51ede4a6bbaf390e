use metabase_embed::decimal::{append_decimal, parse_u32};

fn decimal_text(n: u64) -> String {
    let mut out = String::new();
    append_decimal(&mut out, n);
    out
}

#[test]
fn parses_plain_numbers() {
    assert_eq!(parse_u32("0"), Some(0));
    assert_eq!(parse_u32("7"), Some(7));
    assert_eq!(parse_u32("42"), Some(42));
    assert_eq!(parse_u32("1234567890"), Some(1_234_567_890));
}

#[test]
fn accepts_one_leading_plus() {
    assert_eq!(parse_u32("+42"), Some(42));
    assert_eq!(parse_u32("+0"), Some(0));
    assert_eq!(parse_u32("++42"), None);
    assert_eq!(parse_u32("+"), None);
    assert_eq!(parse_u32("4+2"), None);
}

#[test]
fn leading_zeros_count_for_nothing() {
    assert_eq!(parse_u32("007"), Some(7));
    assert_eq!(parse_u32("0000000000000000000000000000042"), Some(42));
    assert_eq!(parse_u32("+00004294967295"), Some(u32::MAX));
}

#[test]
fn largest_value_is_u32_max() {
    assert_eq!(parse_u32("4294967295"), Some(u32::MAX));
    assert_eq!(parse_u32("4294967296"), None);
    assert_eq!(parse_u32("4294967300"), None);
    assert_eq!(parse_u32("42949672950"), None);
    assert_eq!(parse_u32("99999999999999999999999999"), None);
}

#[test]
fn rejects_what_is_no_numeral() {
    assert_eq!(parse_u32(""), None);
    assert_eq!(parse_u32("abc"), None);
    assert_eq!(parse_u32("12a"), None);
    assert_eq!(parse_u32("a12"), None);
    assert_eq!(parse_u32("-"), None);
    assert_eq!(parse_u32("-5"), None);
    assert_eq!(parse_u32("-0"), None);
    assert_eq!(parse_u32(" 42"), None);
    assert_eq!(parse_u32("42 "), None);
    assert_eq!(parse_u32("4 2"), None);
    assert_eq!(parse_u32("4.2"), None);
    assert_eq!(parse_u32("1_000"), None);
    assert_eq!(parse_u32("0x10"), None);
    assert_eq!(parse_u32("1e3"), None);
    assert_eq!(parse_u32("42\n"), None);
    assert_eq!(parse_u32("/"), None);
    assert_eq!(parse_u32(":"), None);
}

#[test]
fn rejects_digits_outside_ascii() {
    assert_eq!(parse_u32("\u{ff14}\u{ff12}"), None);
    assert_eq!(parse_u32("4\u{0662}"), None);
    assert_eq!(parse_u32("\u{00e9}"), None);
    assert_eq!(parse_u32("+\u{ff11}"), None);
    assert_eq!(parse_u32("12\u{20ac}"), None);
}

#[test]
fn agrees_with_the_standard_parser() {
    let samples = [
        "", "0", "1", "9", "10", "42", "+42", "-42", "+", "-", "+-1", "00", "0009", "4294967295",
        "4294967296", "04294967295", "+4294967295", "+4294967296", "18446744073709551615", " 1",
        "1 ", "1a", "a", "٣", "1٣", "2147483648", "999999999", "1000000000", "3999999999",
        "4300000000", "+0", "+00", "0+", "\t5", "5\r", "१२३", "12.0", "1,000",
    ];
    for text in samples.iter() {
        assert_eq!(parse_u32(text), text.parse::<u32>().ok(), "input {:?}", text);
    }
}

#[test]
fn writes_shortest_numerals() {
    assert_eq!(decimal_text(0), "0");
    assert_eq!(decimal_text(9), "9");
    assert_eq!(decimal_text(10), "10");
    assert_eq!(decimal_text(42), "42");
    assert_eq!(decimal_text(600), "600");
    assert_eq!(decimal_text(1_700_000_600), "1700000600");
    assert_eq!(decimal_text(u32::MAX as u64), "4294967295");
    assert_eq!(decimal_text(u64::MAX), "18446744073709551615");
}

#[test]
fn appends_after_what_is_there() {
    let mut out = String::from("exp=");
    append_decimal(&mut out, 1600);
    assert_eq!(out, "exp=1600");
    append_decimal(&mut out, 0);
    assert_eq!(out, "exp=16000");
}

#[test]
fn writing_agrees_with_the_standard_formatter() {
    let samples: [u64; 12] = [
        0, 1, 5, 99, 100, 101, 65_535, 65_536, 4_294_967_296, 9_999_999_999_999_999_999,
        10_000_000_000_000_000_000, u64::MAX - 1,
    ];
    for n in samples.iter() {
        assert_eq!(decimal_text(*n), format!("{}", n));
    }
}

#[test]
fn parsing_what_was_written_gives_the_number_back() {
    let samples: [u32; 9] = [0, 1, 9, 10, 42, 99_999, 1_000_000, u32::MAX - 1, u32::MAX];
    for d in samples.iter() {
        assert_eq!(parse_u32(&decimal_text(*d as u64)), Some(*d));
    }
}
