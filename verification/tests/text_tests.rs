use secure_websocket::text::{decimal_text, eq_ignore_ascii_case, is_whitespace, same_text, trim_text};

#[test]
fn trim_matches_std() {
    for s in ["", "   ", "  hi  ", "\t\nx y\r\n", "\u{3000}wide\u{a0}", "a", " a b "] {
        assert_eq!(trim_text(s), s.trim());
    }
}

#[test]
fn whitespace_set() {
    assert!(is_whitespace(' '));
    assert!(is_whitespace('\u{2028}'));
    assert!(!is_whitespace('x'));
    assert!(!is_whitespace('\u{200b}'));
    for c in ['\t', '\n', '\u{b}', '\u{c}', '\r', '\u{85}', '\u{1680}', '\u{2005}', '\u{205f}'] {
        assert_eq!(is_whitespace(c), c.is_whitespace());
    }
}

#[test]
fn ignore_case_matches_std() {
    for (a, b) in [("QuIt", "quit"), ("quit", "quits"), ("ÄB", "äb"), ("status", "STATUS"), ("", "")] {
        assert_eq!(eq_ignore_ascii_case(a, b), a.eq_ignore_ascii_case(b));
    }
}

#[test]
fn decimal_rendering() {
    for n in [0usize, 7, 10, 32, 256, 65535, 1234567890] {
        assert_eq!(decimal_text(n), n.to_string());
    }
}

#[test]
fn same_text_compares_characters() {
    assert!(same_text("Alice", "Alice"));
    assert!(!same_text("Alice", "alice"));
}
