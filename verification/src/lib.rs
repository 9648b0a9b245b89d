//! Credential forms for an authentication layer: the `Login` and `Signup`
//! records, the password-strength policy applied to signup passwords, and the
//! email-format check applied to both forms.

pub mod forms;
pub mod policy;
