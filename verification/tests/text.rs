use nserve::text::{
    contains, find_after_last, from_chars, is_whitespace, line_end, parse_number, push_decimal,
    push_padding, push_signed_decimal, split_fields, strip_prefix, to_chars,
};

#[test]
fn white_space_is_that_of_unicode() {
    for code in 0..=0x10ffff_u32 {
        if let Some(c) = char::from_u32(code) {
            assert_eq!(is_whitespace(c), c.is_whitespace(), "{code:x}");
        }
    }
}

#[test]
fn fields_are_those_between_white_space() {
    for s in ["", " ", "a", " a  b\u{2003}c\r\n", "ab\tcd ", "\u{a0}x\u{85}y"] {
        let chars = to_chars(s);
        let fields: Vec<String> = split_fields(&chars, 0, chars.len())
            .into_iter()
            .map(|(from, to)| from_chars(&chars, from, to))
            .collect();
        let expected: Vec<&str> = s.split_whitespace().collect();
        assert_eq!(fields, expected);
    }
}

#[test]
fn lines_end_at_a_line_feed() {
    let chars = to_chars("ab\r\n\ncd");
    assert_eq!(line_end(&chars, 0), 3);
    assert_eq!(line_end(&chars, 4), 4);
    assert_eq!(line_end(&chars, 5), 7);
    assert_eq!(line_end(&chars, 7), 7);
}

#[test]
fn numbers_are_those_of_the_standard_parser() {
    for s in ["", "+", "-", "+-1", "0", "-0", "+7", "007", "65535", "65536", "1_0", " 1", "1 ", "ff", "FF", "fg", "18446744073709551615", "18446744073709551616", "99999999999999999999999999"] {
        let chars = to_chars(s);
        assert_eq!(
            parse_number(&chars, 0, chars.len(), 10, u64::MAX),
            s.parse::<u64>().ok()
        );
        assert_eq!(
            parse_number(&chars, 0, chars.len(), 16, 0xffff),
            u16::from_str_radix(s, 16).ok().map(u64::from)
        );
    }
}

#[test]
fn decimals_are_written_in_full() {
    for n in [0, 9, 10, 99, 100, 12345, u128::MAX] {
        let mut out = "n=".to_owned();
        push_decimal(&mut out, n);
        assert_eq!(out, format!("n={n}"));
    }
    for n in [0, -1, 1, i32::MIN, i32::MAX] {
        let mut out = String::new();
        push_signed_decimal(&mut out, n);
        assert_eq!(out, n.to_string());
    }
}

#[test]
fn padding_counts_characters() {
    for (s, width) in [("", 3), ("é", 3), ("abc", 3), ("abcd", 3)] {
        let mut out = s.to_owned();
        push_padding(&mut out, s, width);
        assert_eq!(out, format!("{s:<width$}"));
    }
}

#[test]
fn parts_are_found() {
    let chars = to_chars("a://b");
    assert!(contains(&chars, "://"));
    assert!(contains(&chars, ""));
    assert!(contains(&chars, "a://b"));
    assert!(!contains(&chars, "//a"));
    assert!(!contains(&chars, "a://b/"));
    assert_eq!(strip_prefix(&chars, "a:"), Some(2));
    assert_eq!(strip_prefix(&chars, "b"), None);
    assert_eq!(find_after_last(&chars, 0, 5, '/'), Some(4));
    assert_eq!(find_after_last(&chars, 0, 1, '/'), None);
}
