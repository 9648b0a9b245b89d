//! The password-strength policy and the email-format check.
//!
//! A signup password must pass four rules, checked in a fixed order with the
//! first failure reported: minimum length, an uppercase character, a lowercase
//! character, and a digit. An email address must pass a standard syntax check.

use vstd::prelude::*;

verus! {

/// Why a candidate password was rejected by the strength policy.
#[derive(Clone, Copy, PartialEq, Eq, Structural, Debug)]
pub enum PasswordError {
    /// Fewer than eight characters.
    TooShort,
    /// No uppercase character anywhere in the password.
    MissingUppercase,
    /// No lowercase character anywhere in the password.
    MissingLowercase,
    /// No numeric character anywhere in the password.
    MissingDigit,
}

/// Whether `char::is_uppercase` holds of the character.
pub uninterp spec fn upper_char(c: char) -> bool;

/// Whether `char::is_lowercase` holds of the character.
pub uninterp spec fn lower_char(c: char) -> bool;

/// Whether `char::is_numeric` holds of the character.
pub uninterp spec fn numeric_char(c: char) -> bool;

/// Relies on `char::is_uppercase` from std: whether the character has the
/// Unicode `Uppercase` property, a function of the character alone.
#[verifier::external_body]
fn char_is_uppercase(c: char) -> (r: bool)
    ensures
        r == upper_char(c),
{
    c.is_uppercase()
}

/// Relies on `char::is_lowercase` from std: whether the character has the
/// Unicode `Lowercase` property, a function of the character alone.
#[verifier::external_body]
fn char_is_lowercase(c: char) -> (r: bool)
    ensures
        r == lower_char(c),
{
    c.is_lowercase()
}

/// Relies on `char::is_numeric` from std: whether the character has a Unicode
/// numeric `General_Category`, a function of the character alone.
#[verifier::external_body]
fn char_is_numeric(c: char) -> (r: bool)
    ensures
        r == numeric_char(c),
{
    c.is_numeric()
}

/// Whether `validator`'s email check accepts the string.
pub uninterp spec fn email_ok(s: Seq<char>) -> bool;

/// Relies on `validator::ValidateEmail::validate_email` for `&str`: whether
/// the string is a well-formed email address under the HTML5 email syntax,
/// a function of the characters alone.
#[verifier::external_body]
pub(crate) fn check_email(email: &str) -> (r: bool)
    ensures
        r == email_ok(email@),
{
    validator::ValidateEmail::validate_email(&email)
}

/// The password holds at least eight characters.
pub open spec fn long_enough(p: Seq<char>) -> bool {
    p.len() >= 8
}

/// Some character of the password is uppercase.
pub open spec fn contains_upper(p: Seq<char>) -> bool {
    exists|i: int| 0 <= i < p.len() && upper_char(p[i])
}

/// Some character of the password is lowercase.
pub open spec fn contains_lower(p: Seq<char>) -> bool {
    exists|i: int| 0 <= i < p.len() && lower_char(p[i])
}

/// Some character of the password is numeric.
pub open spec fn contains_digit(p: Seq<char>) -> bool {
    exists|i: int| 0 <= i < p.len() && numeric_char(p[i])
}

/// The conjunction of the four strength rules.
pub open spec fn password_secure(p: Seq<char>) -> bool {
    &&& long_enough(p)
    &&& contains_upper(p)
    &&& contains_lower(p)
    &&& contains_digit(p)
}

/// The verdict of the strength policy: the rules in their fixed order, with
/// the first violated rule reported and the later rules not consulted.
pub open spec fn password_verdict(p: Seq<char>) -> Result<(), PasswordError> {
    if !long_enough(p) {
        Err(PasswordError::TooShort)
    } else if !contains_upper(p) {
        Err(PasswordError::MissingUppercase)
    } else if !contains_lower(p) {
        Err(PasswordError::MissingLowercase)
    } else if !contains_digit(p) {
        Err(PasswordError::MissingDigit)
    } else {
        Ok(())
    }
}

/// Rule one: the password holds at least eight characters.
pub fn is_long(password: &str) -> (r: Result<(), PasswordError>)
    ensures
        r == if long_enough(password@) {
            Result::<(), PasswordError>::Ok(())
        } else {
            Result::<(), PasswordError>::Err(PasswordError::TooShort)
        },
{
    if password.unicode_len() < 8 {
        Err(PasswordError::TooShort)
    } else {
        Ok(())
    }
}

/// Rule two: the password holds an uppercase character.
pub fn has_uppercase(password: &str) -> (r: Result<(), PasswordError>)
    ensures
        r == if contains_upper(password@) {
            Result::<(), PasswordError>::Ok(())
        } else {
            Result::<(), PasswordError>::Err(PasswordError::MissingUppercase)
        },
{
    let n = password.unicode_len();
    for i in 0..n
        invariant
            n == password@.len(),
            forall|j: int| 0 <= j < i ==> !upper_char(password@[j]),
    {
        if char_is_uppercase(password.get_char(i)) {
            return Ok(());
        }
    }
    Err(PasswordError::MissingUppercase)
}

/// Rule three: the password holds a lowercase character.
pub fn has_lowercase(password: &str) -> (r: Result<(), PasswordError>)
    ensures
        r == if contains_lower(password@) {
            Result::<(), PasswordError>::Ok(())
        } else {
            Result::<(), PasswordError>::Err(PasswordError::MissingLowercase)
        },
{
    let n = password.unicode_len();
    for i in 0..n
        invariant
            n == password@.len(),
            forall|j: int| 0 <= j < i ==> !lower_char(password@[j]),
    {
        if char_is_lowercase(password.get_char(i)) {
            return Ok(());
        }
    }
    Err(PasswordError::MissingLowercase)
}

/// Rule four: the password holds a numeric character.
pub fn has_number(password: &str) -> (r: Result<(), PasswordError>)
    ensures
        r == if contains_digit(password@) {
            Result::<(), PasswordError>::Ok(())
        } else {
            Result::<(), PasswordError>::Err(PasswordError::MissingDigit)
        },
{
    let n = password.unicode_len();
    for i in 0..n
        invariant
            n == password@.len(),
            forall|j: int| 0 <= j < i ==> !numeric_char(password@[j]),
    {
        if char_is_numeric(password.get_char(i)) {
            return Ok(());
        }
    }
    Err(PasswordError::MissingDigit)
}

/// Decides whether a candidate password is acceptable for account creation:
/// the four rules in order, stopping at the first failure.
pub fn is_password_secure(password: &str) -> (r: Result<(), PasswordError>)
    ensures
        r == password_verdict(password@),
        r is Ok <==> password_secure(password@),
{
    is_long(password)?;
    has_uppercase(password)?;
    has_lowercase(password)?;
    has_number(password)?;
    Ok(())
}

/// The human-readable reason surfaced for each violated rule. The text for
/// the lowercase rule repeats the uppercase wording, faithfully to the policy
/// as deployed.
pub open spec fn message_spec(e: PasswordError) -> Seq<char> {
    match e {
        PasswordError::TooShort => "The password must be at least 8 characters long.\n"@,
        PasswordError::MissingUppercase => "The password must include least one uppercase character.\n"@,
        PasswordError::MissingLowercase => "The password must include least one uppercase character.\n"@,
        PasswordError::MissingDigit => "The password has to contain at least one digit.\n"@,
    }
}

impl PasswordError {
    /// The reason for the rejection, as shown to the end user.
    pub fn message(&self) -> (r: &'static str)
        ensures
            r@ == message_spec(*self),
    {
        match self {
            PasswordError::TooShort => "The password must be at least 8 characters long.\n",
            PasswordError::MissingUppercase => "The password must include least one uppercase character.\n",
            PasswordError::MissingLowercase => "The password must include least one uppercase character.\n",
            PasswordError::MissingDigit => "The password has to contain at least one digit.\n",
        }
    }
}

/// Law: a password of fewer than eight characters is rejected with the length
/// rule, whatever its characters.
pub proof fn lemma_short_password_rejected(p: Seq<char>)
    requires
        p.len() < 8,
    ensures
        password_verdict(p) == Result::<(), PasswordError>::Err(PasswordError::TooShort),
{
}

/// Law: a password of at least eight characters with no uppercase character
/// is rejected with the uppercase rule.
pub proof fn lemma_no_uppercase_rejected(p: Seq<char>)
    requires
        p.len() >= 8,
        !contains_upper(p),
    ensures
        password_verdict(p) == Result::<(), PasswordError>::Err(PasswordError::MissingUppercase),
{
}

/// Law: a password that passes the length, uppercase and lowercase rules but
/// holds no numeric character is rejected with the digit rule.
pub proof fn lemma_no_digit_rejected(p: Seq<char>)
    requires
        long_enough(p),
        contains_upper(p),
        contains_lower(p),
        !contains_digit(p),
    ensures
        password_verdict(p) == Result::<(), PasswordError>::Err(PasswordError::MissingDigit),
{
}

/// Law: a password of at least eight characters with an uppercase character,
/// a lowercase character and a numeric character is accepted.
pub proof fn lemma_strong_password_accepted(p: Seq<char>)
    requires
        long_enough(p),
        contains_upper(p),
        contains_lower(p),
        contains_digit(p),
    ensures
        password_verdict(p) == Result::<(), PasswordError>::Ok(()),
{
}

} // verus!
