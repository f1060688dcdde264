use partition_scoring::text::{is_word, is_word_ignoring_ascii_case, to_ascii_lower};

#[test]
fn lowers_ascii_capitals() {
    assert_eq!(to_ascii_lower('A'), 'a');
    assert_eq!(to_ascii_lower('M'), 'm');
    assert_eq!(to_ascii_lower('Z'), 'z');
}

#[test]
fn leaves_other_characters() {
    for c in ['a', 'z', '0', ' ', '@', '[', '`', '{', '\u{c0}', '\u{3a3}', '\u{130}', '\u{10FFFF}'] {
        assert_eq!(to_ascii_lower(c), c);
    }
}

#[test]
fn lowering_agrees_with_the_standard_library() {
    for code in 0u32..0x3000 {
        if let Some(c) = char::from_u32(code) {
            assert_eq!(to_ascii_lower(c), c.to_ascii_lowercase());
        }
    }
}

#[test]
fn is_word_compares_character_for_character() {
    assert!(is_word("linked", "linked"));
    assert!(is_word("", ""));
    assert!(!is_word("Linked", "linked"));
    assert!(!is_word("linke", "linked"));
    assert!(!is_word("linkedd", "linked"));
    assert!(!is_word("", "linked"));
    assert!(is_word("h\u{e9}llo", "h\u{e9}llo"));
    assert!(!is_word("hello", "h\u{e9}llo"));
}

#[test]
fn is_word_ignoring_case_compares_up_to_ascii_case() {
    assert!(is_word_ignoring_ascii_case("BIC", "bic"));
    assert!(is_word_ignoring_ascii_case("bic", "BIC"));
    assert!(is_word_ignoring_ascii_case("", ""));
    assert!(!is_word_ignoring_ascii_case("bi", "bic"));
    assert!(!is_word_ignoring_ascii_case("bicc", "bic"));
    assert!(!is_word_ignoring_ascii_case("xic", "bic"));
    assert!(is_word_ignoring_ascii_case("\u{c9}", "\u{c9}"));
    assert!(!is_word_ignoring_ascii_case("\u{c9}", "\u{e9}"));
}
