use thought_train::text::{char_is_whitespace, decimal_string, trimmed};

#[test]
fn trimmed_removes_ascii_white_space_at_both_ends() {
    assert_eq!(trimmed("  \t hello world \n\r"), "hello world");
}

#[test]
fn trimmed_keeps_inner_white_space() {
    assert_eq!(trimmed("a  b\tc"), "a  b\tc");
}

#[test]
fn trimmed_removes_unicode_white_space() {
    assert_eq!(trimmed("\u{3000}\u{a0}idea\u{2029}\u{85}"), "idea");
}

#[test]
fn trimmed_keeps_non_white_space_symbols() {
    assert_eq!(trimmed("\u{200b}x\u{200b}"), "\u{200b}x\u{200b}");
}

#[test]
fn trimmed_of_blank_is_empty() {
    assert_eq!(trimmed(" \t\n "), "");
    assert_eq!(trimmed(""), "");
}

#[test]
fn trimmed_agrees_with_std_trim() {
    for s in ["x", " x", "x ", "\u{2000}a b\u{200a}", "\u{1680}", "é  ", " ü\u{205f}"] {
        assert_eq!(trimmed(s), s.trim());
    }
}

#[test]
fn decimal_string_renders_like_display() {
    for n in [0usize, 7, 9, 10, 42, 100, 1234, 99999, usize::MAX] {
        assert_eq!(decimal_string(n), n.to_string());
    }
}

#[test]
fn char_is_whitespace_agrees_with_std_on_every_char() {
    for u in 0u32..=0x10FFFF {
        if let Some(c) = char::from_u32(u) {
            assert_eq!(char_is_whitespace(c), c.is_whitespace(), "U+{u:04X}");
        }
    }
}
