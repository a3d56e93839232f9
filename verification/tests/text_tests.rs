use ottex::text::{contains, is_blank, is_whitespace, trim, trim_end_matches_char, str_eq};

#[test]
fn trim_removes_outer_whitespace() {
    assert_eq!(trim("  hello world \n\t"), "hello world");
    assert_eq!(trim("\u{3000}x\u{00A0}"), "x");
    assert_eq!(trim(""), "");
    assert_eq!(trim(" \t "), "");
    assert_eq!(trim("a b"), "a b");
}

#[test]
fn trim_matches_std() {
    for s in ["", " ", "a", " a", "a ", "\u{2028}ab\u{205F}", "\r\n x y \u{85}", "\u{200B}z"] {
        assert_eq!(trim(s), s.trim());
        assert_eq!(is_blank(s), s.trim().is_empty());
    }
}

#[test]
fn whitespace_matches_std() {
    for c in ['\t', '\n', ' ', 'a', '\u{85}', '\u{A0}', '\u{1680}', '\u{2000}', '\u{200A}', '\u{200B}', '\u{3000}', '\u{FEFF}'] {
        assert_eq!(is_whitespace(c), c.is_whitespace());
    }
}

#[test]
fn contains_finds_substrings() {
    assert!(contains("error 503 service", "503"));
    assert!(contains("abc", ""));
    assert!(!contains("ab", "abc"));
    assert!(!contains("5 0 3", "503"));
}

#[test]
fn trailing_slashes_removed() {
    assert_eq!(trim_end_matches_char("http://x/v1///", '/'), "http://x/v1");
    assert_eq!(trim_end_matches_char("///", '/'), "");
    assert_eq!(trim_end_matches_char("a/b", '/'), "a/b");
}

#[test]
fn string_equality() {
    assert!(str_eq("openai", "openai"));
    assert!(!str_eq("openai", "openai "));
}
