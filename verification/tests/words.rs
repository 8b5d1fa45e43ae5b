use tokenview::words::{first_word, first_word_with_slice};

#[test]
fn first_word_index_of_first_space() {
    let s = String::from("hello world");
    assert_eq!(first_word(&s), 5);
}

#[test]
fn first_word_without_space_is_whole_length() {
    let s = String::from("helloworld");
    assert_eq!(first_word(&s), 10);
}

#[test]
fn first_word_of_empty_string_is_zero() {
    let s = String::new();
    assert_eq!(first_word(&s), 0);
}

#[test]
fn first_word_with_leading_space_is_zero() {
    let s = String::from(" hello");
    assert_eq!(first_word(&s), 0);
}

#[test]
fn first_word_counts_bytes_not_characters() {
    // the accented characters take two bytes each, so the space sits at
    // byte index six
    let s = String::from("h\u{e9}llo w\u{f6}rld");
    assert_eq!(first_word(&s), 6);
}

#[test]
fn first_word_slice_before_first_space() {
    let s = String::from("hello world");
    assert_eq!(first_word_with_slice(&s), "hello");
}

#[test]
fn first_word_slice_without_space_is_whole_string() {
    let s = String::from("helloworld");
    assert_eq!(first_word_with_slice(&s), "helloworld");
}

#[test]
fn first_word_slice_of_empty_string_is_empty() {
    let s = String::new();
    assert_eq!(first_word_with_slice(&s), "");
}
