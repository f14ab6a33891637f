use face_detection::decimal::parse_i32;

#[test]
fn parses_plain_digits() {
    assert_eq!(parse_i32("0"), Some(0));
    assert_eq!(parse_i32("7"), Some(7));
    assert_eq!(parse_i32("42"), Some(42));
    assert_eq!(parse_i32("800"), Some(800));
    assert_eq!(parse_i32("0042"), Some(42));
}

#[test]
fn parses_signs() {
    assert_eq!(parse_i32("+5"), Some(5));
    assert_eq!(parse_i32("-5"), Some(-5));
    assert_eq!(parse_i32("-0"), Some(0));
    assert_eq!(parse_i32("+0"), Some(0));
    assert_eq!(parse_i32("-0001"), Some(-1));
}

#[test]
fn parses_the_ends_of_the_range() {
    assert_eq!(parse_i32("2147483647"), Some(i32::MAX));
    assert_eq!(parse_i32("+2147483647"), Some(i32::MAX));
    assert_eq!(parse_i32("-2147483648"), Some(i32::MIN));
    assert_eq!(parse_i32("-2147483647"), Some(-2147483647));
    assert_eq!(parse_i32("00000000002147483647"), Some(i32::MAX));
}

#[test]
fn refuses_numbers_out_of_range() {
    assert_eq!(parse_i32("2147483648"), None);
    assert_eq!(parse_i32("+2147483648"), None);
    assert_eq!(parse_i32("-2147483649"), None);
    assert_eq!(parse_i32("4294967296"), None);
    assert_eq!(parse_i32("99999999999999999999999999999999"), None);
    assert_eq!(parse_i32("-99999999999999999999999999999999"), None);
}

#[test]
fn refuses_text_without_digits() {
    assert_eq!(parse_i32(""), None);
    assert_eq!(parse_i32("+"), None);
    assert_eq!(parse_i32("-"), None);
    assert_eq!(parse_i32(" "), None);
    assert_eq!(parse_i32("abc"), None);
}

#[test]
fn refuses_anything_around_the_digits() {
    assert_eq!(parse_i32(" 5"), None);
    assert_eq!(parse_i32("5 "), None);
    assert_eq!(parse_i32("5\n"), None);
    assert_eq!(parse_i32("1_000"), None);
    assert_eq!(parse_i32("1.0"), None);
    assert_eq!(parse_i32("0x10"), None);
    assert_eq!(parse_i32("--5"), None);
    assert_eq!(parse_i32("+-5"), None);
    assert_eq!(parse_i32("5-"), None);
    assert_eq!(parse_i32("12a"), None);
    assert_eq!(parse_i32("a12"), None);
}

#[test]
fn refuses_digits_outside_ascii() {
    assert_eq!(parse_i32("\u{0663}"), None);
    assert_eq!(parse_i32("1\u{0663}"), None);
    assert_eq!(parse_i32("\u{ff11}\u{ff12}"), None);
    assert_eq!(parse_i32("-\u{00e9}"), None);
    assert_eq!(parse_i32("12\u{00a0}"), None);
}

#[test]
fn agrees_with_the_standard_parser_on_numbers() {
    let mut value: i64 = -3_000_000_000;
    while value <= 3_000_000_000 {
        for text in [format!("{}", value), format!("{:+}", value), format!("{:05}", value)] {
            assert_eq!(parse_i32(&text), text.parse::<i32>().ok(), "{:?}", text);
        }
        value += 7_654_321;
    }
    for value in -1100i32..=1100 {
        let text = format!("{}", value);
        assert_eq!(parse_i32(&text), Some(value));
    }
}

#[test]
fn agrees_with_the_standard_parser_on_odd_text() {
    let samples = [
        "", "+", "-", "0", "00", "-00", "+00", "++1", "1+", "1-1", "--", "+-", "-+1", " 1", "1 ",
        "\t1", "1e3", "1,000", "2147483647", "2147483648", "-2147483648", "-2147483649",
        "21474836470", "000000000000000000000000000001", "-000000000000000000002147483648",
        "9999999999", "-9999999999", "١٢٣", "１２", "é", "1é", "0b1", "0o7", "٠", "🙂", "1🙂",
    ];
    for text in samples {
        assert_eq!(parse_i32(text), text.parse::<i32>().ok(), "{:?}", text);
    }
}
