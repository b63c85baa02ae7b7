use headsup_chat::text::{second_token, starts_with, u64_to_dec};

#[test]
fn decimal_rendering_is_exact() {
    assert_eq!(u64_to_dec(0), "0");
    assert_eq!(u64_to_dec(7), "7");
    assert_eq!(u64_to_dec(10), "10");
    assert_eq!(u64_to_dec(3030), "3030");
    assert_eq!(u64_to_dec(u64::MAX), "18446744073709551615");
}

#[test]
fn prefix_test_compares_characters() {
    assert!(starts_with("/connect x", "/connect"));
    assert!(starts_with("abc", ""));
    assert!(starts_with("abc", "abc"));
    assert!(!starts_with("abc", "abcd"));
    assert!(!starts_with("/close", "/connect"));
}

#[test]
fn second_token_is_the_piece_after_the_first_space() {
    assert_eq!(second_token("/connect 127.0.0.1:3030"), Some("127.0.0.1:3030".to_string()));
    assert_eq!(second_token("/connect a b"), Some("a".to_string()));
    assert_eq!(second_token("/connect"), None);
    // Two adjacent spaces make the second piece empty, as splitting on
    // every single space does.
    assert_eq!(second_token("/connect  x"), Some(String::new()));
    assert_eq!(second_token("word "), Some(String::new()));
}
