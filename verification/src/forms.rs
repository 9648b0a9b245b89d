//! The two credential records, `Login` and `Signup`: construction, conversion
//! between the two shapes, redacted rendering, and whole-form validation.

use vstd::prelude::*;
use crate::policy::{
    PasswordError, check_email, email_ok, is_password_secure, password_secure, password_verdict,
};

verus! {

use vstd::std_specs::convert::FromSpec;

/// The mathematical content of a credential form: the email and the password
/// as character sequences.
pub ghost struct CredentialView {
    pub email: Seq<char>,
    pub password: Seq<char>,
}

/// A credential used to authenticate an existing user. The password carries
/// no strength constraint: it may have been created under a past policy.
#[derive(Eq, Hash, Clone)]
pub struct Login {
    pub email: String,
    pub(crate) password: String,
}

/// A credential used to create a new account. The password is subject to the
/// strength policy at validation time.
#[derive(Eq, Hash, Clone)]
pub struct Signup {
    pub email: String,
    pub(crate) password: String,
}

/// A per-field validation failure: which field it concerns and why.
#[derive(Clone, Copy, PartialEq, Eq, Structural, Debug)]
pub enum FieldError {
    /// The email field does not hold a well-formed address.
    InvalidEmail,
    /// The password field fails the strength policy, for the given reason.
    WeakPassword(PasswordError),
}

impl View for Login {
    type V = CredentialView;

    closed spec fn view(&self) -> CredentialView {
        CredentialView { email: self.email@, password: self.password@ }
    }
}

impl View for Signup {
    type V = CredentialView;

    closed spec fn view(&self) -> CredentialView {
        CredentialView { email: self.email@, password: self.password@ }
    }
}

impl PartialEq for Login {
    /// Structural equality over both fields, the raw password included.
    fn eq(&self, other: &Login) -> (r: bool) {
        self.email == other.email && self.password == other.password
    }
}

impl vstd::std_specs::cmp::PartialEqSpecImpl for Login {
    open spec fn obeys_eq_spec() -> bool {
        true
    }

    open spec fn eq_spec(&self, other: &Login) -> bool {
        self@ == other@
    }
}

impl PartialEq for Signup {
    /// Structural equality over both fields, the raw password included.
    fn eq(&self, other: &Signup) -> (r: bool) {
        self.email == other.email && self.password == other.password
    }
}

impl vstd::std_specs::cmp::PartialEqSpecImpl for Signup {
    open spec fn obeys_eq_spec() -> bool {
        true
    }

    open spec fn eq_spec(&self, other: &Signup) -> bool {
        self@ == other@
    }
}

impl Login {
    /// Builds the form from raw input. Construction performs no validation;
    /// validation is a separate, explicit step.
    pub fn new(email: String, password: String) -> (r: Login)
        ensures
            r@ == (CredentialView { email: email@, password: password@ }),
    {
        Login { email, password }
    }

    /// Checks the email field against the email-format rule. A login password
    /// carries no strength constraint, so the password is not examined.
    pub fn validate(&self) -> (r: Result<(), FieldError>)
        ensures
            r == if email_ok(self@.email) {
                Result::<(), FieldError>::Ok(())
            } else {
                Result::<(), FieldError>::Err(FieldError::InvalidEmail)
            },
    {
        if check_email(self.email.as_str()) {
            Ok(())
        } else {
            Err(FieldError::InvalidEmail)
        }
    }

    /// The diagnostic rendering of the form. The password is masked: the
    /// result depends on the email alone.
    pub fn debug_string(&self) -> (r: String)
        ensures
            r@ == login_render(self@.email),
    {
        let mut s = String::from_str("Login { email: \"");
        s.append(self.email.as_str());
        s.append("\", password: \"*****\" }");
        s
    }
}

impl Signup {
    /// Builds the form from raw input. Construction performs no validation;
    /// validation is a separate, explicit step.
    pub fn new(email: String, password: String) -> (r: Signup)
        ensures
            r@ == (CredentialView { email: email@, password: password@ }),
    {
        Signup { email, password }
    }

    /// Produces a `Login` copy of a borrowed signup, so that a caller holding
    /// only a read-only reference can obtain a login view without taking
    /// ownership.
    pub fn to_login(&self) -> (r: Login)
        ensures
            r@ == self@,
    {
        Login { email: self.email.clone(), password: self.password.clone() }
    }

    /// Checks both fields and collects one failure for each failing field:
    /// the email-format rule for the email, and for the password the first
    /// violated strength rule in the policy's fixed order.
    pub fn validate(&self) -> (r: Result<(), Vec<FieldError>>)
        ensures
            r is Ok <==> email_ok(self@.email) && password_secure(self@.password),
            r is Err ==> r->Err_0@ == signup_issues(self@),
    {
        let mut issues: Vec<FieldError> = Vec::new();
        if !check_email(self.email.as_str()) {
            issues.push(FieldError::InvalidEmail);
        }
        match is_password_secure(self.password.as_str()) {
            Ok(()) => {},
            Err(e) => issues.push(FieldError::WeakPassword(e)),
        }
        if issues.len() == 0 {
            Ok(())
        } else {
            proof {
                assert(issues@ =~= signup_issues(self@));
            }
            Err(issues)
        }
    }

    /// The diagnostic rendering of the form. The password is masked: the
    /// result depends on the email alone.
    pub fn debug_string(&self) -> (r: String)
        ensures
            r@ == signup_render(self@.email),
    {
        let mut s = String::from_str("Signup { email: \"");
        s.append(self.email.as_str());
        s.append("\", password: \"*****\" }");
        s
    }
}

/// The failures that validating a signup form collects, in field order:
/// at most one for the email and one for the password.
pub open spec fn signup_issues(v: CredentialView) -> Seq<FieldError> {
    (if email_ok(v.email) {
        Seq::<FieldError>::empty()
    } else {
        seq![FieldError::InvalidEmail]
    }) + (match password_verdict(v.password) {
        Ok(()) => Seq::<FieldError>::empty(),
        Err(e) => seq![FieldError::WeakPassword(e)],
    })
}

impl From<Signup> for Login {
    /// Downgrades a signup to a login, copying both fields; no information
    /// relevant to authentication is discarded.
    fn from(form: Signup) -> (r: Login) {
        Login { email: form.email, password: form.password }
    }
}

impl vstd::std_specs::convert::FromSpecImpl<Signup> for Login {
    open spec fn obeys_from_spec() -> bool {
        true
    }

    closed spec fn from_spec(form: Signup) -> Login {
        Login { email: form.email, password: form.password }
    }
}

impl From<Login> for Signup {
    /// Upgrades a login to a signup, copying both fields. The strength policy
    /// is not re-checked: the result may hold a password that would fail it.
    fn from(form: Login) -> (r: Signup) {
        Signup { email: form.email, password: form.password }
    }
}

impl vstd::std_specs::convert::FromSpecImpl<Login> for Signup {
    open spec fn obeys_from_spec() -> bool {
        true
    }

    closed spec fn from_spec(form: Login) -> Signup {
        Signup { email: form.email, password: form.password }
    }
}

/// Law: `Login::from` copies both fields of the signup form.
pub proof fn lemma_login_from_signup(form: Signup)
    ensures
        <Login as FromSpec<Signup>>::from_spec(form)@ == form@,
{
}

/// Law: `Signup::from` copies both fields of the login form.
pub proof fn lemma_signup_from_login(form: Login)
    ensures
        <Signup as FromSpec<Login>>::from_spec(form)@ == form@,
{
}

/// Law: converting a signup to a login and that login back to a signup
/// reproduces the original form, email and password exactly.
pub proof fn lemma_conversion_round_trip(form: Signup)
    ensures
        <Signup as FromSpec<Login>>::from_spec(<Login as FromSpec<Signup>>::from_spec(form))
            == form,
{
}

/// The fixed text that precedes the email in a login rendering.
pub open spec fn login_prefix() -> Seq<char> {
    "Login { email: \""@
}

/// The fixed text that precedes the email in a signup rendering.
pub open spec fn signup_prefix() -> Seq<char> {
    "Signup { email: \""@
}

/// The fixed text that follows the email in either rendering, the password
/// mask included.
pub open spec fn render_suffix() -> Seq<char> {
    "\", password: \"*****\" }"@
}

/// The rendering of a login form with the given email.
pub open spec fn login_render(email: Seq<char>) -> Seq<char> {
    login_prefix() + email + render_suffix()
}

/// The rendering of a signup form with the given email.
pub open spec fn signup_render(email: Seq<char>) -> Seq<char> {
    signup_prefix() + email + render_suffix()
}

/// Some sequence occurs as a contiguous run inside another.
pub open spec fn occurs_in(hay: Seq<char>, needle: Seq<char>) -> bool {
    exists|i: int|
        0 <= i && i + needle.len() <= hay.len() && #[trigger] hay.subrange(i, i + needle.len())
            == needle
}

proof fn lemma_concat_hides(
    prefix: Seq<char>,
    email: Seq<char>,
    suffix: Seq<char>,
    password: Seq<char>,
    k: int,
)
    requires
        0 <= k < password.len(),
        !prefix.contains(password[k]),
        !email.contains(password[k]),
        !suffix.contains(password[k]),
    ensures
        !occurs_in(prefix + email + suffix, password),
{
    let hay = prefix + email + suffix;
    if occurs_in(hay, password) {
        let i = choose|i: int|
            0 <= i && i + password.len() <= hay.len() && #[trigger] hay.subrange(
                i,
                i + password.len(),
            ) == password;
        let j = i + k;
        assert(hay.subrange(i, i + password.len())[k] == password[k]);
        assert(hay[j] == password[k]);
        if j < prefix.len() {
            assert(prefix[j] == password[k]);
            assert(prefix.contains(password[k]));
        } else if j < prefix.len() + email.len() {
            assert(email[j - prefix.len()] == password[k]);
            assert(email.contains(password[k]));
        } else {
            assert(suffix[j - prefix.len() - email.len()] == password[k]);
            assert(suffix.contains(password[k]));
        }
    }
}

/// Law: if the password's character at position `k` appears neither in the
/// email nor in the fixed rendering text, the login rendering does not
/// contain the password.
pub proof fn lemma_login_render_hides_password(email: Seq<char>, password: Seq<char>, k: int)
    requires
        0 <= k < password.len(),
        !email.contains(password[k]),
        !login_prefix().contains(password[k]),
        !render_suffix().contains(password[k]),
    ensures
        !occurs_in(login_render(email), password),
{
    lemma_concat_hides(login_prefix(), email, render_suffix(), password, k);
}

/// Law: if the password's character at position `k` appears neither in the
/// email nor in the fixed rendering text, the signup rendering does not
/// contain the password.
pub proof fn lemma_signup_render_hides_password(email: Seq<char>, password: Seq<char>, k: int)
    requires
        0 <= k < password.len(),
        !email.contains(password[k]),
        !signup_prefix().contains(password[k]),
        !render_suffix().contains(password[k]),
    ensures
        !occurs_in(signup_render(email), password),
{
    lemma_concat_hides(signup_prefix(), email, render_suffix(), password, k);
}

/// The name of the form field a validation failure concerns.
pub open spec fn field_spec(e: FieldError) -> Seq<char> {
    match e {
        FieldError::InvalidEmail => "email"@,
        FieldError::WeakPassword(_) => "password"@,
    }
}

/// The human-readable reason attached to a validation failure.
pub open spec fn field_message_spec(e: FieldError) -> Seq<char> {
    match e {
        FieldError::InvalidEmail => "invalid email"@,
        FieldError::WeakPassword(p) => crate::policy::message_spec(p),
    }
}

impl FieldError {
    /// The name of the form field the failure concerns.
    pub fn field(&self) -> (r: &'static str)
        ensures
            r@ == field_spec(*self),
    {
        match self {
            FieldError::InvalidEmail => "email",
            FieldError::WeakPassword(_) => "password",
        }
    }

    /// The reason for the failure, as shown to the end user.
    pub fn message(&self) -> (r: &'static str)
        ensures
            r@ == field_message_spec(*self),
    {
        match self {
            FieldError::InvalidEmail => "invalid email",
            FieldError::WeakPassword(e) => e.message(),
        }
    }
}

} // verus!

