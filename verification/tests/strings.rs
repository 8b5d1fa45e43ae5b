use tokenview::ownership;
use tokenview::references;
use tokenview::users::build_user;

#[test]
fn gives_ownership_hands_out_yours() {
    assert_eq!(ownership::gives_ownership(), "yours");
}

#[test]
fn takes_and_gives_back_returns_the_same_string() {
    let s7 = String::from("hello");
    let s8 = ownership::takes_and_gives_back(s7);
    assert_eq!(s8, "hello");
}

#[test]
fn calculate_length_returns_string_and_length() {
    let s1 = String::from("hello");
    let (s9, len) = ownership::calculate_length(s1);
    assert_eq!(s9, "hello");
    assert_eq!(len, 5);
}

#[test]
fn calculate_length_through_a_borrow() {
    let s1 = String::from("hello");
    let len = references::calculate_length(&s1);
    assert_eq!(len, 5);
    assert_eq!(s1, "hello");
}

#[test]
fn no_dangle_returns_an_owned_hello() {
    assert_eq!(references::no_dangle(), "hello");
}

#[test]
fn change2_appends_world() {
    let mut s2 = String::from("hello");
    references::change2(&mut s2);
    assert_eq!(s2, "hello, world");
}

#[test]
fn build_user_sets_defaults_and_names() {
    let user = build_user(
        String::from("someone@example.com"),
        String::from("someusername123"),
    );
    assert!(user.active);
    assert_eq!(user.username, "someusername123");
    assert_eq!(user.email, "someone@example.com");
    assert_eq!(user.sign_in_count, 1);
}
