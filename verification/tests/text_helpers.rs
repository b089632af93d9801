use gojo::text::{
    chars_of, decimal, find, has_suffix, is_whitespace, join_lines, same_text, slice, split_on,
    trim,
};

#[test]
fn white_space_is_the_unicode_property() {
    let mut code: u32 = 0;
    while code <= 0x10FFFF {
        if let Some(c) = char::from_u32(code) {
            assert_eq!(is_whitespace(c), c.is_whitespace(), "U+{:04X}", code);
        }
        code += 1;
    }
}

#[test]
fn trim_removes_surrounding_white_space_only() {
    assert_eq!(trim("  a b \t\r\n"), "a b");
    assert_eq!(trim("a"), "a");
    assert_eq!(trim(""), "");
    assert_eq!(trim(" \n\u{3000} "), "");
    assert_eq!(trim("\u{a0}x\u{2003}y\u{2028}"), "x\u{2003}y");
    for sample in ["", " ", "  /home/user ", "é ", " \u{85}ß\u{1680}", "no space"] {
        assert_eq!(trim(sample), sample.trim());
    }
}

#[test]
fn split_keeps_empty_pieces() {
    assert_eq!(split_on("a\nb\n\nc", '\n'), vec!["a", "b", "", "c"]);
    assert_eq!(split_on("", '\n'), vec![""]);
    assert_eq!(split_on("\n", '\n'), vec!["", ""]);
    assert_eq!(split_on("no break", '\n'), vec!["no break"]);
    assert_eq!(split_on("a:b", ':'), vec!["a", "b"]);
}

#[test]
fn join_lines_puts_breaks_between_lines() {
    assert_eq!(join_lines(&vec![String::from("a"), String::from(""), String::from("b")]), "a\n\nb");
    assert_eq!(join_lines(&vec![String::from("only")]), "only");
    assert_eq!(join_lines(&vec![]), "");
}

#[test]
fn split_undoes_join() {
    let lines = vec![String::from("one"), String::from(""), String::from("three: x")];
    assert_eq!(split_on(&join_lines(&lines), '\n'), lines);
}

#[test]
fn find_gives_the_first_occurrence_or_the_length() {
    assert_eq!(find(&chars_of("a=b=c"), '='), 1);
    assert_eq!(find(&chars_of("abc"), '='), 3);
    assert_eq!(find(&chars_of(""), '='), 0);
    assert_eq!(find(&chars_of("é=b"), '='), 1);
}

#[test]
fn slice_counts_characters() {
    assert_eq!(slice("héllo", 1, 3), "él");
    assert_eq!(slice("abc", 0, 0), "");
    assert_eq!(slice("abc", 0, 3), "abc");
}

#[test]
fn suffixes() {
    assert!(has_suffix("main.cc", "cc"));
    assert!(has_suffix("gcc", "cc"));
    assert!(has_suffix("anything", ""));
    assert!(!has_suffix("main.cpp", "cc"));
    assert!(!has_suffix("c", "cc"));
}

#[test]
fn same_text_compares_characters() {
    assert!(same_text("abc", "abc"));
    assert!(same_text("", ""));
    assert!(!same_text("abc", "abd"));
    assert!(!same_text("abc", "ab"));
}

#[test]
fn decimal_numerals() {
    assert_eq!(decimal(0), "0");
    assert_eq!(decimal(7), "7");
    assert_eq!(decimal(10), "10");
    assert_eq!(decimal(1234567890), "1234567890");
    assert_eq!(decimal(u64::MAX), "18446744073709551615");
}
