use pactool::retention::{parse_u16, retention};

#[test]
fn numerals_have_their_value() {
    assert_eq!(parse_u16("0"), Some(0));
    assert_eq!(parse_u16("3"), Some(3));
    assert_eq!(parse_u16("10"), Some(10));
    assert_eq!(parse_u16("365"), Some(365));
    assert_eq!(parse_u16("65535"), Some(65535));
}

#[test]
fn numerals_may_start_with_a_plus() {
    assert_eq!(parse_u16("+7"), Some(7));
    assert_eq!(parse_u16("+65535"), Some(65535));
    assert_eq!(parse_u16("+"), None);
    assert_eq!(parse_u16("++7"), None);
    assert_eq!(parse_u16("7+"), None);
}

#[test]
fn leading_zeros_do_not_count() {
    assert_eq!(parse_u16("007"), Some(7));
    assert_eq!(parse_u16("0000000000000000000065535"), Some(65535));
    assert_eq!(parse_u16("0000000000000000000065536"), None);
}

#[test]
fn numbers_over_sixteen_bits_are_none() {
    assert_eq!(parse_u16("65536"), None);
    assert_eq!(parse_u16("70000"), None);
    assert_eq!(parse_u16("99999"), None);
    assert_eq!(parse_u16("100000"), None);
    assert_eq!(parse_u16("4294967296"), None);
    assert_eq!(parse_u16("18446744073709551616"), None);
    assert_eq!(parse_u16("99999999999999999999999999999999999999999999"), None);
}

#[test]
fn other_text_is_no_number() {
    assert_eq!(parse_u16(""), None);
    assert_eq!(parse_u16("abc"), None);
    assert_eq!(parse_u16("-1"), None);
    assert_eq!(parse_u16("-0"), None);
    assert_eq!(parse_u16("1.5"), None);
    assert_eq!(parse_u16("1e3"), None);
    assert_eq!(parse_u16("0x10"), None);
    assert_eq!(parse_u16("1_000"), None);
    assert_eq!(parse_u16(" 1"), None);
    assert_eq!(parse_u16("1 "), None);
    assert_eq!(parse_u16("1\n"), None);
    assert_eq!(parse_u16("１２"), None);
    assert_eq!(parse_u16("٣"), None);
    assert_eq!(parse_u16("12a"), None);
    assert_eq!(parse_u16("a12"), None);
}

#[test]
fn numerals_agree_with_the_standard_library() {
    let mut n: u32 = 0;
    while n <= 700_000 {
        for text in [format!("{}", n), format!("+{}", n), format!("0{}", n), format!("{}0", n)] {
            assert_eq!(parse_u16(&text), text.parse::<u16>().ok(), "{:?}", text);
        }
        n += if n < 70_000 { 1 } else { 997 };
    }
    for text in ["", "+", "-", "-5", "+-5", "5-", " 5", "5 ", "५", "5a", "a", "/", ":", "00", "+0"] {
        assert_eq!(parse_u16(text), text.parse::<u16>().ok(), "{:?}", text);
    }
}

#[test]
fn blank_reply_keeps_three() {
    assert_eq!(retention(""), Some("3"));
    assert_eq!(retention("\n"), Some("3"));
    assert_eq!(retention("  \t\r\n"), Some("3"));
}

#[test]
fn numeric_reply_is_kept_as_typed() {
    assert_eq!(retention("10\n"), Some("10"));
    assert_eq!(retention("7"), Some("7"));
    assert_eq!(retention("  0 \n"), Some("0"));
    assert_eq!(retention("65535\n"), Some("65535"));
    assert_eq!(retention("+5\n"), Some("+5"));
    assert_eq!(retention("007\n"), Some("007"));
}

#[test]
fn other_reply_keeps_nothing() {
    assert_eq!(retention("abc\n"), None);
    assert_eq!(retention("abc"), None);
    assert_eq!(retention("65536\n"), None);
    assert_eq!(retention("-1\n"), None);
    assert_eq!(retention("1 0\n"), None);
    assert_eq!(retention("3d\n"), None);
    assert_eq!(retention("three\n"), None);
}
