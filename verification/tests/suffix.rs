use mosaic::suffix::validate;

#[test]
fn empty_ok() {
    assert_eq!(validate("").unwrap(), "");
}

#[test]
fn normal_ok() {
    assert_eq!(validate("_sheet").unwrap(), "_sheet");
}

#[test]
fn slash_rejected() {
    assert!(validate("/").is_err());
}

#[test]
fn backslash_rejected() {
    assert!(validate("\\").is_err());
}

#[test]
fn dotdot_rejected() {
    assert!(validate("..").is_err());
}

#[test]
fn dotdot_embedded_rejected() {
    assert!(validate("x..y").is_err());
}

#[test]
fn traversal_rejected() {
    assert!(validate("../../escape").is_err());
}

#[test]
fn whitespace_only_rejected() {
    assert!(validate(" ").is_err());
    assert!(validate("\t").is_err());
}

#[test]
fn leading_trailing_space_ok() {
    assert!(validate(" _ok").is_ok());
}

#[test]
fn error_messages_quote_the_suffix() {
    assert_eq!(validate(" ").unwrap_err(), "suffix must not be whitespace-only: \" \"");
    assert_eq!(validate("a/b").unwrap_err(), "suffix must not contain path separators: \"a/b\"");
    assert_eq!(validate("x..y").unwrap_err(), "suffix must not contain '..': \"x..y\"");
}

#[test]
fn unicode_whitespace_only_rejected() {
    assert!(validate("\u{3000}\u{a0}").is_err());
    assert!(validate("._.").is_ok());
}
