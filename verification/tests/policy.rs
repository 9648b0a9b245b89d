use credential_forms::policy::{
    has_lowercase, has_number, has_uppercase, is_long, is_password_secure, PasswordError,
};

#[test]
fn short_password_fails_with_length_rule() {
    assert_eq!(is_password_secure("Ab1"), Err(PasswordError::TooShort));
    assert_eq!(is_password_secure(""), Err(PasswordError::TooShort));
    assert_eq!(is_password_secure("A1b2C3d"), Err(PasswordError::TooShort));
}

#[test]
fn short_password_fails_regardless_of_composition() {
    // Even a seven-character password with upper, lower and digit is too short.
    assert_eq!(is_password_secure("Abcde12"), Err(PasswordError::TooShort));
}

#[test]
fn no_uppercase_fails_with_uppercase_rule() {
    assert_eq!(is_password_secure("abc12345"), Err(PasswordError::MissingUppercase));
    assert_eq!(is_password_secure("lowercase1"), Err(PasswordError::MissingUppercase));
}

#[test]
fn no_lowercase_fails_with_lowercase_rule() {
    assert_eq!(is_password_secure("ABCDEFGH"), Err(PasswordError::MissingLowercase));
    assert_eq!(is_password_secure("UPPER123"), Err(PasswordError::MissingLowercase));
}

#[test]
fn no_digit_fails_with_digit_rule() {
    assert_eq!(is_password_secure("Abcdefgh"), Err(PasswordError::MissingDigit));
}

#[test]
fn strong_password_is_accepted() {
    assert_eq!(is_password_secure("Abcdefg1"), Ok(()));
    assert_eq!(is_password_secure("Sup3rSecret"), Ok(()));
}

#[test]
fn length_is_counted_in_characters() {
    // Eight characters even though the first takes two bytes.
    assert_eq!(is_password_secure("\u{c4}bcdefg1"), Ok(()));
}

#[test]
fn individual_rules() {
    assert_eq!(is_long("1234567"), Err(PasswordError::TooShort));
    assert_eq!(is_long("12345678"), Ok(()));
    assert_eq!(has_uppercase("abc"), Err(PasswordError::MissingUppercase));
    assert_eq!(has_uppercase("abC"), Ok(()));
    assert_eq!(has_lowercase("ABC"), Err(PasswordError::MissingLowercase));
    assert_eq!(has_lowercase("ABc"), Ok(()));
    assert_eq!(has_number("abc"), Err(PasswordError::MissingDigit));
    assert_eq!(has_number("ab1"), Ok(()));
}

#[test]
fn rules_accept_unicode_classes() {
    // A non-ASCII uppercase letter satisfies the uppercase rule.
    assert_eq!(has_uppercase("\u{c4}bc"), Ok(()));
    // A non-ASCII numeric character satisfies the digit rule.
    assert_eq!(has_number("ab\u{0661}"), Ok(()));
}

#[test]
fn messages_are_exact() {
    assert_eq!(
        PasswordError::TooShort.message(),
        "The password must be at least 8 characters long.\n"
    );
    assert_eq!(
        PasswordError::MissingUppercase.message(),
        "The password must include least one uppercase character.\n"
    );
    // The lowercase rule surfaces the uppercase wording, faithfully to the
    // policy as deployed.
    assert_eq!(
        PasswordError::MissingLowercase.message(),
        "The password must include least one uppercase character.\n"
    );
    assert_eq!(
        PasswordError::MissingDigit.message(),
        "The password has to contain at least one digit.\n"
    );
}
