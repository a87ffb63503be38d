use ebrz::text::{chars_of, starts_with_at};

#[test]
fn a_string_is_its_characters() {
    assert_eq!(chars_of(""), Vec::<char>::new());
    assert_eq!(chars_of("aé😀\n"), vec!['a', 'é', '😀', '\n']);
}

#[test]
fn a_prefix_is_found_where_it_stands() {
    let text = chars_of("error: é error:");
    let prefix = chars_of("error:");
    assert!(starts_with_at(&text, 0, &prefix));
    assert!(!starts_with_at(&text, 1, &prefix));
    assert!(starts_with_at(&text, 9, &prefix));
    assert!(!starts_with_at(&text, 10, &prefix));
    assert!(!starts_with_at(&text, 15, &prefix));
    assert!(!starts_with_at(&text, 16, &prefix));
    assert!(!starts_with_at(&text, usize::MAX, &prefix));
    assert!(starts_with_at(&text, 15, &Vec::new()));
    assert!(!starts_with_at(&text, 16, &Vec::new()));
    assert!(starts_with_at(&prefix, 0, &prefix));
    assert!(!starts_with_at(&prefix, 0, &text));
}
