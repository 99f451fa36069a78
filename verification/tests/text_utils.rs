use fskit_rs::text::{
    chars_of, decimal_string, is_whitespace, join_with_spaces, str_contains, str_trim,
};

#[test]
fn whitespace_matches_std() {
    for c in ['\t', '\n', '\u{0B}', '\u{0C}', '\r', ' ', '\u{85}', '\u{A0}', '\u{1680}', '\u{2000}', '\u{200A}', '\u{2028}', '\u{2029}', '\u{202F}', '\u{205F}', '\u{3000}', 'a', '0', '\u{200B}', '\u{180E}', 'é'] {
        assert_eq!(is_whitespace(c), c.is_whitespace(), "{c:?}");
    }
}

#[test]
fn chars_of_keeps_unicode() {
    assert_eq!(chars_of("aé€"), vec!['a', 'é', '€']);
    assert!(chars_of("").is_empty());
}

#[test]
fn contains_examples() {
    assert!(str_contains("mount: Resource busy", "Resource busy"));
    assert!(str_contains("abc", ""));
    assert!(str_contains("abc", "abc"));
    assert!(!str_contains("ab", "abc"));
    assert!(!str_contains("Resource bus", "Resource busy"));
}

#[test]
fn trim_examples() {
    assert_eq!(str_trim("  /dev/disk5  \n"), "/dev/disk5");
    assert_eq!(str_trim("\u{3000}x y\t"), "x y");
    assert_eq!(str_trim(" \n\t "), "");
    assert_eq!(str_trim(""), "");
}

#[test]
fn join_examples() {
    assert_eq!(join_with_spaces(&["-r", "/a/b.app", "/Applications"]), "-r /a/b.app /Applications");
    assert_eq!(join_with_spaces(&[]), "");
    assert_eq!(join_with_spaces(&["x"]), "x");
}

#[test]
fn decimal_examples() {
    assert_eq!(decimal_string(0), "0");
    assert_eq!(decimal_string(7), "7");
    assert_eq!(decimal_string(35367), "35367");
    assert_eq!(decimal_string(u64::MAX), u64::MAX.to_string());
}
