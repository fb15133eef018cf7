use authgate::text::{same_bytes, same_text};

#[test]
fn equal_byte_strings_are_the_same() {
    assert!(same_bytes(b"", b""));
    assert!(same_bytes(b"abc", b"abc"));
    assert!(same_bytes(&[0, 255, 7], &[0, 255, 7]));
}

#[test]
fn byte_strings_that_differ_are_not_the_same() {
    assert!(!same_bytes(b"abc", b"abd"));
    assert!(!same_bytes(b"abc", b"ab"));
    assert!(!same_bytes(b"", b"a"));
    assert!(!same_bytes(b"xbc", b"abc"));
}

#[test]
fn texts_are_compared_by_their_characters() {
    assert!(same_text("", ""));
    assert!(same_text("auth0|user-u", "auth0|user-u"));
    assert!(same_text("Grüße, 世界", "Grüße, 世界"));
    assert!(!same_text("auth0|user-u", "auth0|user-v"));
    assert!(!same_text("RS256", "rs256"));
    assert!(!same_text("a", "a "));
    assert!(!same_text("é", "e\u{301}"));
}
