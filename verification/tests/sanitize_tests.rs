use pyrocfl::error::ErrorKind;
use pyrocfl::sanitize::sanitize;

fn segment(identifier: &str) -> String {
    sanitize(identifier).expect("a non-empty identifier has a segment")
}

#[test]
fn plain_identifier_is_kept() {
    assert_eq!(segment("obj-123"), "obj-123");
    assert_eq!(segment("Object_42"), "Object_42");
}

#[test]
fn separators_are_escaped() {
    assert_eq!(segment("a/b"), "a%2fb");
    assert_eq!(segment("a\\b"), "a%5cb");
    assert_eq!(segment("urn:uuid:1"), "urn%3auuid%3a1");
}

#[test]
fn percent_sign_is_escaped() {
    assert_eq!(segment("100%"), "100%25");
    assert_eq!(segment("%2f"), "%252f");
}

#[test]
fn inner_dots_and_spaces_are_kept() {
    assert_eq!(segment("a.b"), "a.b");
    assert_eq!(segment("a b"), "a b");
    assert_eq!(segment("a..b"), "a..b");
}

#[test]
fn leading_and_trailing_dots_and_spaces_are_escaped() {
    assert_eq!(segment(".hidden"), "%2ehidden");
    assert_eq!(segment("trail."), "trail%2e");
    assert_eq!(segment(" x "), "%20x%20");
    assert_eq!(segment("."), "%2e");
    assert_eq!(segment(".."), "%2e%2e");
    assert_eq!(segment(" "), "%20");
}

#[test]
fn non_ascii_is_escaped_byte_by_byte() {
    assert_eq!(segment("é"), "%c3%a9");
    assert_eq!(segment("a€b"), "a%e2%82%acb");
}

#[test]
fn control_characters_are_escaped() {
    assert_eq!(segment("a\nb"), "a%0ab");
    assert_eq!(segment("a\0b"), "a%00b");
}

#[test]
fn empty_identifier_is_refused() {
    let error = sanitize("").expect_err("the empty identifier has no segment");
    assert_eq!(error.kind, ErrorKind::InvalidIdentifier);
    assert_eq!(error.message, "object identifier must not be empty");
}

#[test]
fn sanitize_is_deterministic() {
    for identifier in ["obj-123", "a/b", ".x.", "é", "100%"] {
        assert_eq!(sanitize(identifier), sanitize(identifier));
    }
    assert_eq!(sanitize(""), sanitize(""));
}

#[test]
fn different_identifiers_have_different_segments() {
    let identifiers = ["a/b", "a%2fb", "a%2Fb", "a b", "a%20b", ".a", "%2ea", "a.", "a"];
    for (i, left) in identifiers.iter().enumerate() {
        for right in identifiers.iter().skip(i + 1) {
            assert_ne!(segment(left), segment(right));
        }
    }
}

#[test]
fn segments_hold_no_separator_and_no_edge_dot() {
    for identifier in ["a/b/c", "..", " . ", "x\\y", "/", "./.", "a.b c"] {
        let s = segment(identifier);
        assert!(!s.is_empty());
        assert!(!s.contains('/'));
        assert!(!s.contains('\\'));
        assert!(!s.starts_with('.') && !s.starts_with(' '));
        assert!(!s.ends_with('.') && !s.ends_with(' '));
        assert!(s.len() >= identifier.len() && s.len() <= 3 * identifier.len());
    }
}
