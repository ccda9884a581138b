use cloudflare_dyndns::text::{char_is_white_space, debug_list, str_eq, trim, trim_trailing_slashes};

#[test]
fn white_space_matches_char_is_whitespace() {
    for u in 0u32..=0x10ffff {
        if let Some(c) = char::from_u32(u) {
            assert_eq!(char_is_white_space(c), c.is_whitespace(), "U+{:04X}", u);
        }
    }
}

#[test]
fn trim_matches_str_trim() {
    for s in ["", " ", "a", " a ", "\u{85}a\u{2029}", "a\u{200b}", "\t\n\x0b\x0c\r x \u{1680}", "  mid dle  "] {
        assert_eq!(trim(s), s.trim());
        assert_eq!(trim(&trim(s)), trim(s));
        let t = trim(s);
        if let (Some(first), Some(last)) = (t.chars().next(), t.chars().last()) {
            assert!(!first.is_whitespace() && !last.is_whitespace());
        }
    }
}

#[test]
fn trailing_slashes_match_trim_end_matches() {
    for s in ["", "/", "//", "a/", "a//b//", "/a", "https://x.test/"] {
        assert_eq!(trim_trailing_slashes(s), s.trim_end_matches('/'));
    }
}

#[test]
fn str_eq_compares_texts() {
    assert!(str_eq("", ""));
    assert!(str_eq("héllo", "héllo"));
    assert!(!str_eq("héllo", "hello"));
    assert!(!str_eq("a", "ab"));
}

#[test]
fn debug_list_renders_like_vec_debug() {
    assert_eq!(debug_list(&vec![]), "[]");
    assert_eq!(debug_list(&vec!["1".to_string()]), "[1]");
    assert_eq!(debug_list(&vec!["1".to_string(), "2".to_string(), "3".to_string()]), format!("{:?}", vec![1, 2, 3]));
}
