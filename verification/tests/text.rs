use reservation::text::{chars_of, index_of, occurs, position, same_text};

fn chars(s: &str) -> Vec<char> {
    s.chars().collect()
}

#[test]
fn characters_are_taken_one_by_one() {
    assert_eq!(chars_of(""), Vec::<char>::new());
    assert_eq!(chars_of("abc"), vec!['a', 'b', 'c']);
    assert_eq!(chars_of("海a"), vec!['海', 'a']);
}

#[test]
fn first_character_is_found_from_a_place_on() {
    let s = chars("a,b,c");
    assert_eq!(index_of(&s, ',', 0), 1);
    assert_eq!(index_of(&s, ',', 1), 1);
    assert_eq!(index_of(&s, ',', 2), 3);
    assert_eq!(index_of(&s, ',', 4), 5);
    assert_eq!(index_of(&s, ',', 5), 5);
    assert_eq!(index_of(&s, 'x', 0), 5);
    assert_eq!(index_of(&s, ',', 6), 5);
    assert_eq!(index_of(&s, ',', usize::MAX), 5);
    assert_eq!(index_of(&chars(""), 'x', 0), 0);
}

#[test]
fn pattern_stands_where_every_character_agrees() {
    let s = chars("abcabc");
    assert!(occurs(&s, &chars("abc"), 0));
    assert!(occurs(&s, &chars("abc"), 3));
    assert!(!occurs(&s, &chars("abc"), 1));
    assert!(!occurs(&s, &chars("abc"), 4));
    assert!(!occurs(&s, &chars("abc"), 7));
    assert!(!occurs(&s, &chars("abc"), usize::MAX));
    assert!(occurs(&s, &chars(""), 0));
    assert!(occurs(&s, &chars(""), 6));
    assert!(!occurs(&s, &chars(""), 7));
    assert!(!occurs(&s, &chars("abcabcd"), 0));
}

#[test]
fn first_pattern_is_found_from_a_place_on() {
    let s = chars("abcabc");
    assert_eq!(position(&s, &chars("abc"), 0), Some(0));
    assert_eq!(position(&s, &chars("abc"), 1), Some(3));
    assert_eq!(position(&s, &chars("abc"), 3), Some(3));
    assert_eq!(position(&s, &chars("abc"), 4), None);
    assert_eq!(position(&s, &chars("abc"), 6), None);
    assert_eq!(position(&s, &chars("abc"), 7), None);
    assert_eq!(position(&s, &chars("cab"), 0), Some(2));
    assert_eq!(position(&s, &chars("x"), 0), None);
    assert_eq!(position(&s, &chars(""), 2), Some(2));
    assert_eq!(position(&s, &chars(""), 6), Some(6));
    assert_eq!(position(&chars(""), &chars(""), 0), Some(0));
    assert_eq!(position(&chars("aab"), &chars("ab"), 0), Some(1));
}

#[test]
fn texts_are_the_same_character_for_character() {
    assert!(same_text("", ""));
    assert!(same_text("23P01", "23P01"));
    assert!(!same_text("23P01", "23p01"));
    assert!(!same_text("23P01", "23P0"));
    assert!(!same_text("", " "));
}
