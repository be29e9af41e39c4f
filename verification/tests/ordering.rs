use server::ordering::{text_less, title_order};
use server::text::{chars_of, string_from_chars};
use server::validation::{trimmed_optional, trimmed_required};

#[test]
fn titles_sort_by_character_code_and_keep_ties_in_place() {
    let titles = vec![
        "b".to_string(),
        "a".to_string(),
        "b".to_string(),
        "A".to_string(),
    ];
    assert_eq!(title_order(&titles), vec![3, 1, 0, 2]);
}

#[test]
fn empty_title_list_gives_empty_order() {
    let titles: Vec<String> = Vec::new();
    assert!(title_order(&titles).is_empty());
}

#[test]
fn text_order_is_lexicographic() {
    assert!(text_less("abc", "abd"));
    assert!(text_less("ab", "abc"));
    assert!(!text_less("abc", "ab"));
    assert!(!text_less("same", "same"));
    assert!(text_less("", "x"));
    assert!(text_less("Zebra", "apple"));
}

#[test]
fn characters_round_trip_through_a_string() {
    let chars = chars_of("héllo");
    assert_eq!(chars, vec!['h', 'é', 'l', 'l', 'o']);
    assert_eq!(string_from_chars(&chars), "héllo");
}

#[test]
fn white_space_is_the_unicode_property() {
    for c in ['\t', '\n', '\u{0B}', '\u{0C}', '\r', ' ', '\u{85}', '\u{A0}', '\u{1680}', '\u{2000}', '\u{200A}', '\u{2028}', '\u{2029}', '\u{202F}', '\u{205F}', '\u{3000}'] {
        assert_eq!(trimmed_optional(Some(c.to_string()), "f", 10).unwrap(), None, "{:?}", c);
    }
    for c in ['a', '\u{180E}', '\u{200B}', '\u{FEFF}', '_'] {
        assert_eq!(trimmed_optional(Some(c.to_string()), "f", 10).unwrap(), Some(c.to_string()), "{:?}", c);
    }
    assert_eq!(trimmed_required("\u{3000} x \u{2029}", "f", 1, 5).unwrap(), "x");
    assert_eq!(trimmed_required("\u{200B}x", "f", 1, 5).unwrap(), "\u{200B}x");
}
