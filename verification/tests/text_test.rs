use cardamom::text::{
    has_suffix, line_terminator, quote, str_eq, trim_line_endings, trim_whitespace, whitespace,
};

#[test]
fn trim_line_endings_drops_trailing_terminators_only() {
    assert_eq!(trim_line_endings("secret\r\n"), "secret");
    assert_eq!(trim_line_endings("secret\n\n\r"), "secret");
    assert_eq!(trim_line_endings("\nse\ncret "), "\nse\ncret ");
    assert_eq!(trim_line_endings("\r\n"), "");
    assert_eq!(trim_line_endings(""), "");
}

#[test]
fn trim_whitespace_drops_both_ends() {
    assert_eq!(trim_whitespace("  work \t\n"), "work");
    assert_eq!(trim_whitespace("\u{a0}a b\u{3000}"), "a b");
    assert_eq!(trim_whitespace("   "), "");
    assert_eq!(trim_whitespace("x"), "x");
}

#[test]
fn has_suffix_compares_the_tail() {
    assert!(has_suffix("HTTP/1.1 200 OK", "200 OK"));
    assert!(!has_suffix("HTTP/1.1 404 Not Found", "200 OK"));
    assert!(!has_suffix("OK", "200 OK"));
    assert!(has_suffix("abc", ""));
}

#[test]
fn whitespace_is_what_the_standard_library_trims() {
    let mut c = '\0';
    loop {
        assert_eq!(whitespace(c), c.is_whitespace(), "{:?}", c);
        match char::from_u32(c as u32 + 1).or_else(|| char::from_u32(0xe000)) {
            Some(next) if c != char::MAX => c = next,
            _ => break,
        }
    }
    for s in ["", " ", " a", "a ", "\u{2003}a\u{85}b\u{205f}", "a\u{200b}", "\t\n\r x y \u{a0}"] {
        assert_eq!(trim_whitespace(s), s.trim(), "{:?}", s);
    }
}

#[test]
fn line_terminators_are_cr_and_lf() {
    assert!(line_terminator('\r'));
    assert!(line_terminator('\n'));
    assert!(!line_terminator(' '));
    assert!(!line_terminator('\u{2028}'));
    for s in ["", "a\r", "a\n\r\n", "\n", "a\n b", "a\u{85}"] {
        assert_eq!(trim_line_endings(s), s.trim_end_matches(|c| c == '\r' || c == '\n'), "{:?}", s);
    }
}

#[test]
fn quote_puts_the_name_between_double_quotes() {
    assert_eq!(quote("cannot read card ", "x"), "cannot read card \"x\"");
    assert_eq!(quote("", ""), "\"\"");
}

#[test]
fn str_eq_compares_the_characters() {
    assert!(str_eq("", ""));
    assert!(str_eq("héllo", "héllo"));
    assert!(!str_eq("a", "A"));
    assert!(!str_eq("a", "ab"));
    for (s, suffix) in [("abc", "bc"), ("abc", "abc"), ("abc", "xabc"), ("é", ""), ("aé", "é")] {
        assert_eq!(has_suffix(s, suffix), s.ends_with(suffix));
    }
}
