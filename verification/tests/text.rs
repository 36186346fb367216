use greentic_control_chain::text::{
    contains_text, is_blank_str, is_whitespace_char, same_text, trim_text,
};

#[test]
fn whitespace_is_the_unicode_property() {
    for c in ['\t', '\n', '\u{b}', '\u{c}', '\r', ' ', '\u{85}', '\u{a0}', '\u{1680}', '\u{2000}', '\u{200a}', '\u{2028}', '\u{2029}', '\u{202f}', '\u{205f}', '\u{3000}'] {
        assert!(is_whitespace_char(c), "{c:?}");
        assert_eq!(is_whitespace_char(c), c.is_whitespace());
    }
    for c in ['a', '\u{200b}', '\u{180e}', '_', '\0'] {
        assert!(!is_whitespace_char(c), "{c:?}");
        assert_eq!(is_whitespace_char(c), c.is_whitespace());
    }
}

#[test]
fn blank_texts_trim_to_nothing() {
    assert!(is_blank_str(""));
    assert!(is_blank_str(" \t\u{3000}"));
    assert!(!is_blank_str(" x "));
    assert_eq!(trim_text("  a b \n"), "a b");
    assert_eq!(trim_text(" \t "), "");
}

#[test]
fn substring_search_matches_str_contains() {
    for (h, n) in [("refund needed", "refund"), ("abc", ""), ("", ""), ("ab", "abc"), ("aab", "ab"), ("xyz", "yx")] {
        assert_eq!(contains_text(h, n), h.contains(n), "{h:?} {n:?}");
    }
    assert!(same_text("abc", "abc"));
    assert!(!same_text("abc", "abd"));
    assert!(!same_text("abc", "ab"));
}
