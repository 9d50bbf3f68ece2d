use enarx_cli::text::{decimal, find_char, parse_digits, parse_i32, parse_usize, same_text, split};

#[test]
fn decimal_writing() {
    assert_eq!(decimal(0), "0");
    assert_eq!(decimal(9), "9");
    assert_eq!(decimal(10), "10");
    assert_eq!(decimal(2903), "2903");
    assert_eq!(decimal(65535), "65535");
    assert_eq!(decimal(u64::MAX), "18446744073709551615");
}

#[test]
fn digits_up_to_a_limit() {
    assert_eq!(parse_digits("123", 0, 1000), Some(123));
    assert_eq!(parse_digits("123", 0, 123), Some(123));
    assert_eq!(parse_digits("123", 0, 122), None);
    assert_eq!(parse_digits("x123", 1, 1000), Some(123));
    assert_eq!(parse_digits("123", 3, 1000), None);
    assert_eq!(parse_digits("", 0, 1000), None);
    assert_eq!(parse_digits("12a", 0, 1000), None);
    assert_eq!(parse_digits("000", 0, 0), Some(0));
    assert_eq!(parse_digits("18446744073709551615", 0, u64::MAX), Some(u64::MAX));
    assert_eq!(parse_digits("18446744073709551616", 0, u64::MAX), None);
    assert_eq!(parse_digits("٣", 0, 10), None);
}

#[test]
fn signed_numbers_as_std_reads_them() {
    for text in [
        "0", "-0", "+0", "1", "-1", "+1", "007", "2147483647", "2147483648", "-2147483648",
        "-2147483649", "", "+", "-", "--1", "+-1", "1 ", " 1", "1_0", "0x10", "12345678901234567890",
    ] {
        assert_eq!(parse_i32(text), text.parse::<i32>().ok(), "{:?}", text);
    }
}

#[test]
fn unsigned_numbers_as_std_reads_them() {
    for text in [
        "0", "-0", "+0", "1", "-1", "+1", "007", "4294967295", "18446744073709551615",
        "18446744073709551616", "", "+", "-", "++1", "1 ", " 1", "1_0", "99999999999999999999999",
    ] {
        assert_eq!(parse_usize(text), text.parse::<usize>().ok(), "{:?}", text);
    }
}

#[test]
fn splitting() {
    assert_eq!(split("one:two:three:four", ':'), vec!["one", "two", "three", "four"]);
    assert_eq!(split("", ':'), vec![""]);
    assert_eq!(split(":", ':'), vec!["", ""]);
    assert_eq!(split("a:", ':'), vec!["a", ""]);
    assert_eq!(split(":a", ':'), vec!["", "a"]);
    assert_eq!(split("a::b", ':'), vec!["a", "", "b"]);
    assert_eq!(split("no separator", ':'), vec!["no separator"]);
    for text in ["", ":", "a:b", "::", "é:ü:", "x"] {
        let want: Vec<String> = text.split(':').map(str::to_owned).collect();
        assert_eq!(split(text, ':'), want);
    }
}

#[test]
fn finding_a_character() {
    assert_eq!(find_char("NAME=VAL", '='), Some(4));
    assert_eq!(find_char("a=b=c", '='), Some(1));
    assert_eq!(find_char("=", '='), Some(0));
    assert_eq!(find_char("none", '='), None);
    assert_eq!(find_char("", '='), None);
    assert_eq!(find_char("é=", '='), Some(1));
}

#[test]
fn comparing_texts() {
    assert!(same_text("connection", "connection"));
    assert!(!same_text("connection", "Connection"));
    assert!(!same_text("connection", "connection "));
    assert!(same_text("", ""));
}
