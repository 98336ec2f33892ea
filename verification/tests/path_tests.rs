use server_fn::path::{path_char_allowed, validate_api_path, PathError};

#[test]
fn rejects_double_slash() {
    assert_eq!(validate_api_path("/api//x"), Err(PathError::DoubleSlash));
}

#[test]
fn rejects_traversal() {
    assert_eq!(validate_api_path("/api/../x"), Err(PathError::Traversal));
    assert_eq!(validate_api_path("/api/../../etc/passwd"), Err(PathError::Traversal));
}

#[test]
fn rejects_trailing_slash() {
    assert_eq!(validate_api_path("/api/x/"), Err(PathError::TrailingSlash));
}

#[test]
fn rejects_missing_leading_slash() {
    assert_eq!(validate_api_path("api/x"), Err(PathError::MissingLeadingSlash));
    assert_eq!(validate_api_path(""), Err(PathError::MissingLeadingSlash));
    assert_eq!(validate_api_path("x//.."), Err(PathError::MissingLeadingSlash));
}

#[test]
fn accepts_well_formed_paths() {
    assert_eq!(validate_api_path("/api/v2/greet-item_1"), Ok(()));
    assert_eq!(validate_api_path("/"), Ok(()));
    assert_eq!(validate_api_path("/api/add"), Ok(()));
}

#[test]
fn rejects_invalid_characters_and_names_the_first() {
    assert_eq!(validate_api_path("/api/a b?c"), Err(PathError::InvalidCharacter(' ')));
    assert_eq!(validate_api_path("/api/x.y"), Err(PathError::InvalidCharacter('.')));
    assert_eq!(validate_api_path("/api/caf\u{e9}"), Err(PathError::InvalidCharacter('\u{e9}')));
}

#[test]
fn earlier_rules_win() {
    // traversal is tried before the double slash and before the characters
    assert_eq!(validate_api_path("/a//b/.."), Err(PathError::Traversal));
    // the double slash is tried before the characters
    assert_eq!(validate_api_path("/a//b c"), Err(PathError::DoubleSlash));
    // the characters are tried before the trailing slash
    assert_eq!(validate_api_path("/a b/"), Err(PathError::InvalidCharacter(' ')));
}

#[test]
fn path_characters() {
    for c in ['a', 'z', 'A', 'Z', '0', '9', '-', '_', '/'] {
        assert!(path_char_allowed(c));
    }
    for c in ['.', ' ', '?', '%', '\u{e9}', '\n', '~'] {
        assert!(!path_char_allowed(c));
    }
}
