use module_pipeline::text::{
    char_len, clone_strings, find_char, same_opt_strings, same_strings, slice_chars,
    starts_with, to_chars,
};

#[test]
fn characters_are_counted_not_bytes() {
    assert_eq!(char_len("h\u{e9}llo"), 5);
    assert_eq!(char_len(""), 0);
    assert_eq!(to_chars("a\u{e9}"), vec!['a', '\u{e9}']);
}

#[test]
fn first_occurrence_is_found() {
    assert_eq!(find_char("a?b?c", '?'), Some(1));
    assert_eq!(find_char("\u{e9}?", '?'), Some(1));
    assert_eq!(find_char("abc", '?'), None);
    assert_eq!(find_char("", '?'), None);
}

#[test]
fn prefixes_are_recognised() {
    assert!(starts_with("builtin:x", "builtin:"));
    assert!(starts_with("builtin:", "builtin:"));
    assert!(starts_with("x", ""));
    assert!(!starts_with("builtin", "builtin:"));
    assert!(!starts_with("Builtin:x", "builtin:"));
}

#[test]
fn texts_are_cut_and_joined() {
    assert_eq!(slice_chars("h\u{e9}llo", 1, 3), "\u{e9}l");
    assert_eq!(slice_chars("abc", 3, 3), "");
    assert_eq!(module_pipeline::text::concat("ab", "cd"), "abcd");
    assert_eq!(module_pipeline::text::concat("", ""), "");
}

#[test]
fn lists_of_texts_are_compared_in_order() {
    let list = |items: &[&str]| items.iter().map(|s| s.to_string()).collect::<Vec<_>>();
    assert!(same_strings(&list(&["a", "b"]), &list(&["a", "b"])));
    assert!(!same_strings(&list(&["a", "b"]), &list(&["b", "a"])));
    assert!(!same_strings(&list(&["a"]), &list(&["a", "b"])));
    assert!(same_opt_strings(&None, &None));
    assert!(!same_opt_strings(&None, &Some(vec![])));
    assert_eq!(clone_strings(&list(&["x", "y"])), list(&["x", "y"]));
}
