//! Tests of the text buffer, its trimming and its fingerprint.

use tureng::text_buffer::UTF32String;

fn from_str(s: &str) -> UTF32String {
    let mut b = UTF32String::new();
    let mut i: usize = 0;
    for c in s.chars() {
        b.insert(i, c);
        i += 1;
    }
    b
}

#[test]
fn insert_remove_round_trip() {
    let mut b = UTF32String::new();
    b.insert(0, 'c');
    b.insert(1, 'a');
    b.insert(2, 't');
    assert_eq!(b.len(), 3);
    assert_eq!(b.render(), "cat");
    b.remove(1);
    assert_eq!(b.render(), "ct");
    b.insert(1, '\u{fc}');
    assert_eq!(b.render(), "c\u{fc}t");
    assert_eq!(b.len(), 3);
    assert_eq!(b.to_string_clone(), "c\u{fc}t");
}

#[test]
fn multibyte_characters_count_as_one() {
    let mut b = from_str("\u{11f}\u{fc}z");
    assert_eq!(b.len(), 3);
    b.remove(0);
    assert_eq!(b.render(), "\u{fc}z");
    assert_eq!(b.len(), 2);
}

#[test]
fn trim_excludes_edge_whitespace() {
    let b = from_str("  a b \t ");
    let t: String = b.trim().into_iter().collect();
    assert_eq!(t, "a b");
}

#[test]
fn trim_of_blank_is_empty() {
    assert!(from_str(" \t \u{a0} ").trim().is_empty());
    assert!(from_str("").trim().is_empty());
    assert_eq!(from_str("a").trim(), vec!['a']);
}

#[test]
fn delete_word_back_removes_word_and_leading_space() {
    let mut b = from_str("foo bar");
    let pos = b.delete_word_back(7);
    assert_eq!(pos, 3);
    assert_eq!(b.render(), "foo");
}

#[test]
fn delete_word_back_on_trailing_space() {
    let mut b = from_str("ab cd ");
    let pos = b.delete_word_back(6);
    assert_eq!(pos, 5);
    assert_eq!(b.render(), "ab cd");
}

#[test]
fn delete_word_back_mid_buffer() {
    let mut b = from_str("one two three");
    let pos = b.delete_word_back(7);
    assert_eq!(pos, 3);
    assert_eq!(b.render(), "one three");
}

#[test]
fn delete_word_back_at_start() {
    let mut b = from_str("word");
    let pos = b.delete_word_back(4);
    assert_eq!(pos, 0);
    assert_eq!(b.render(), "");
}

#[test]
fn fingerprint_is_codepoint_sum() {
    assert_eq!(from_str("").fingerprint(), 0);
    assert_eq!(from_str("ab").fingerprint(), 97 + 98);
    assert_eq!(from_str("ba").fingerprint(), 97 + 98);
    assert_ne!(from_str("ab").fingerprint(), from_str("ac").fingerprint());
}
