use taqui::validation::{
    is_white_char, trim_chars,
    sanitize, sanitize_and_validate_message, validate_password_strength, MESSAGE_EMPTY, MESSAGE_TOO_LONG,
    PASSWORD_TOO_WEAK,
};

#[test]
fn strong_password_passes() {
    assert_eq!(validate_password_strength("Secret_pass"), Ok(()));
    assert_eq!(validate_password_strength("ÄBC$"), Ok(()));
}

#[test]
fn password_without_uppercase_fails() {
    assert_eq!(validate_password_strength("secret_pass!"), Err(PASSWORD_TOO_WEAK));
    assert_eq!(validate_password_strength(""), Err(PASSWORD_TOO_WEAK));
}

#[test]
fn password_without_special_character_fails() {
    assert_eq!(validate_password_strength("Secretpass1"), Err(PASSWORD_TOO_WEAK));
    assert_eq!(validate_password_strength("Secret pass%"), Err(PASSWORD_TOO_WEAK));
}

#[test]
fn sanitize_blanks_zero_width_and_trims() {
    assert_eq!(sanitize("  x\u{301}y  "), "x y");
    assert_eq!(sanitize("\u{301}hello\u{301}"), "hello");
    assert_eq!(sanitize("\thi there\n"), "hi there");
    assert_eq!(sanitize(""), "");
    assert_eq!(sanitize("\u{3000}\u{a0}wide\u{2028}\u{85}"), "wide");
    assert_eq!(sanitize("a\u{3000}b"), "a\u{3000}b");
}

#[test]
fn empty_messages_are_refused() {
    assert_eq!(sanitize_and_validate_message("   "), Err(MESSAGE_EMPTY));
    assert_eq!(sanitize_and_validate_message("\u{301}\u{301}"), Err(MESSAGE_EMPTY));
    assert_eq!(sanitize_and_validate_message(""), Err(MESSAGE_EMPTY));
}

#[test]
fn message_length_counts_bytes() {
    assert_eq!(sanitize_and_validate_message(&"a".repeat(1000)), Ok(()));
    assert_eq!(sanitize_and_validate_message(&"a".repeat(1001)), Err(MESSAGE_TOO_LONG));
    assert_eq!(sanitize_and_validate_message(&"é".repeat(500)), Ok(()));
    assert_eq!(sanitize_and_validate_message(&"é".repeat(501)), Err(MESSAGE_TOO_LONG));
    let padded = format!("   {}   ", "a".repeat(1000));
    assert_eq!(sanitize_and_validate_message(&padded), Ok(()));
}

#[test]
fn whitespace_is_the_unicode_list() {
    for c in ['\t', '\n', '\r', ' ', '\u{85}', '\u{a0}', '\u{1680}', '\u{2000}', '\u{200a}', '\u{2028}', '\u{3000}'] {
        assert!(is_white_char(c));
        assert!(c.is_whitespace());
    }
    for c in ['a', '\u{200b}', '\u{1f600}', '\0', '_'] {
        assert!(!is_white_char(c));
        assert!(!c.is_whitespace());
    }
}

#[test]
fn trim_chars_drops_both_ends() {
    let s: Vec<char> = "  \u{3000}a b\t\n".chars().collect();
    assert_eq!(trim_chars(&s), vec!['a', ' ', 'b']);
    assert_eq!(trim_chars(&vec![' ', ' ']), Vec::<char>::new());
    assert_eq!(trim_chars(&vec![]), Vec::<char>::new());
    assert_eq!(trim_chars(&vec!['x']), vec!['x']);
}
