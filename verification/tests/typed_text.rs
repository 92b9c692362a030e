use lkmv::text::{trim, typed_text};

#[test]
fn trim_removes_unicode_white_space_at_both_ends() {
    assert_eq!(trim("  a b \t\n"), "a b");
    assert_eq!(trim("\u{3000}\u{a0}x\u{2029}"), "x");
    assert_eq!(trim("   "), "");
    assert_eq!(trim(""), "");
    assert_eq!(trim("plain"), "plain");
    for s in ["  a b \t\n", "\u{3000}x\u{85}", " \u{200b} ", "é "] {
        assert_eq!(trim(s), s.trim());
    }
}

#[test]
fn blank_text_is_no_answer() {
    assert_eq!(typed_text(" \t "), None);
    assert_eq!(typed_text(" yes "), Some("yes".to_string()));
}
