use consciousness_core::text::{chars_of, contains, distinct_chars, matches_at, same_text};

#[test]
fn chars_follow_the_string() {
    assert_eq!(chars_of("abc"), vec!['a', 'b', 'c']);
    assert_eq!(chars_of(""), Vec::<char>::new());
    assert_eq!(chars_of("n\u{e9}e").len(), 3);
}

#[test]
fn substring_is_found_anywhere() {
    let hay = chars_of("System automatically processed the data");
    assert!(contains(&hay, "automatic"));
    assert!(contains(&hay, "System"));
    assert!(contains(&hay, "data"));
    assert!(contains(&hay, "process"));
    assert!(!contains(&hay, "system"));
    assert!(!contains(&hay, "dataa"));
}

#[test]
fn empty_needle_is_in_every_text() {
    assert!(contains(&chars_of("abc"), ""));
    assert!(contains(&chars_of(""), ""));
    assert!(!contains(&chars_of(""), "a"));
}

#[test]
fn needle_longer_than_text_is_absent() {
    assert!(!contains(&chars_of("no"), "not"));
    assert!(contains(&chars_of("not"), "no"));
}

#[test]
fn match_at_a_position() {
    let hay = chars_of("abcabc");
    let needle = chars_of("bc");
    assert!(matches_at(&hay, &needle, 1));
    assert!(matches_at(&hay, &needle, 4));
    assert!(!matches_at(&hay, &needle, 0));
    assert!(!matches_at(&hay, &needle, 3));
}

#[test]
fn distinct_characters_are_counted_once() {
    assert_eq!(distinct_chars(&chars_of("")), 0);
    assert_eq!(distinct_chars(&chars_of("aaaa")), 1);
    assert_eq!(distinct_chars(&chars_of("abca")), 3);
    assert_eq!(distinct_chars(&chars_of("No, that is incorrect")), 13);
    assert_eq!(distinct_chars(&chars_of("No")), 2);
}

#[test]
fn same_text_compares_characters() {
    assert!(same_text("fire_adapted", "fire_adapted"));
    assert!(!same_text("fire_adapted", "fire_adapte"));
    assert!(!same_text("fire_adapted", "fire_adaptee"));
    assert!(same_text("", ""));
}
