use global_push_to_talk::text::{chars_of, has_substring, joined, same_text};

#[test]
fn text_chars_of_keeps_order() {
    assert_eq!(chars_of("aé+"), vec!['a', 'é', '+']);
    assert_eq!(chars_of(""), Vec::<char>::new());
}

#[test]
fn text_same_text() {
    assert!(same_text("open", "open"));
    assert!(!same_text("open", "opem"));
    assert!(!same_text("open", "ope"));
    assert!(same_text("", ""));
}

#[test]
fn text_has_substring() {
    assert!(has_substring("master=mic source_name=X", "source_name=X"));
    assert!(has_substring("abc", ""));
    assert!(has_substring("", ""));
    assert!(has_substring("abc", "abc"));
    assert!(has_substring("aab", "ab"));
    assert!(!has_substring("abc", "abcd"));
    assert!(!has_substring("abc", "ca"));
    assert!(!has_substring("", "a"));
}

#[test]
fn text_joined() {
    assert_eq!(joined("ab", "cd"), "abcd");
    assert_eq!(joined("", "x"), "x");
}
