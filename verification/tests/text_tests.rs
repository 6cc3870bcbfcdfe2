use kitty_media::config::split_addresses;
use kitty_media::text::{chars_of, is_white_space_char, str_equals, substring};

fn trimmed(s: &str) -> String {
    let mut parts = split_addresses(s);
    assert_eq!(parts.len(), 1);
    parts.pop().unwrap()
}

#[test]
fn trims_unicode_white_space() {
    assert_eq!(trimmed("  a b \t\n"), "a b");
    assert_eq!(trimmed("\u{3000}x\u{00A0}"), "x");
    assert_eq!(trimmed("\u{200B}x"), "\u{200B}x");
    assert_eq!(trimmed("   "), "");
    assert_eq!(trimmed(""), "");
}

#[test]
fn white_space_matches_std() {
    for code in 0u32..0x3100 {
        if let Some(c) = char::from_u32(code) {
            assert_eq!(is_white_space_char(c), c.is_whitespace(), "code point {code:#x}");
        }
    }
}

#[test]
fn trimmed_matches_std_trim() {
    for s in ["", " ", "a", " a ", "\r\n a\u{2028}", "\u{85}x\u{85}y\u{85}", "é  "] {
        assert_eq!(trimmed(s), s.trim());
    }
}

#[test]
fn chars_and_substrings() {
    assert_eq!(chars_of("héllo"), vec!['h', 'é', 'l', 'l', 'o']);
    assert_eq!(substring("héllo", 1, 3), "él");
    assert!(str_equals("abc", "abc"));
    assert!(!str_equals("abc", "abd"));
    assert!(!str_equals("abc", "ab"));
}
