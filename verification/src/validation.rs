//! Shape checks on what a user types in, made before any storage access.
//! Lengths are counted in bytes of UTF-8, as `str::len` counts them.

use crate::text::{contains_char, trim, trimmed};
use vstd::prelude::*;
use vstd::utf8::encode_utf8;

verus! {

/// Shortest user name, counted after trimming.
pub const MIN_USERNAME_LEN: usize = 3;

/// Shortest e-mail address.
pub const MIN_EMAIL_LEN: usize = 5;

/// Shortest password.
pub const MIN_PASSWORD_LEN: usize = 8;

/// Which shape check failed.
#[derive(Clone, Copy, Debug, PartialEq, Eq, Structural)]
pub enum ValidationError {
    /// The trimmed user name is shorter than [`MIN_USERNAME_LEN`].
    UsernameTooShort,
    /// The address lacks an `@` or is shorter than [`MIN_EMAIL_LEN`].
    InvalidEmail,
    /// The password is shorter than [`MIN_PASSWORD_LEN`].
    PasswordTooShort,
}

impl ValidationError {
    /// The message shown to the user for this failure.
    pub fn message(&self) -> (r: &'static str)
        ensures
            r@ == match *self {
                ValidationError::UsernameTooShort => "Gebruikersnaam moet minimaal 3 tekens zijn"@,
                ValidationError::InvalidEmail => "Ongeldig e-mailadres"@,
                ValidationError::PasswordTooShort => "Wachtwoord moet minimaal 8 tekens zijn"@,
            },
    {
        match self {
            ValidationError::UsernameTooShort => "Gebruikersnaam moet minimaal 3 tekens zijn",
            ValidationError::InvalidEmail => "Ongeldig e-mailadres",
            ValidationError::PasswordTooShort => "Wachtwoord moet minimaal 8 tekens zijn",
        }
    }
}

/// The length of a text in bytes of UTF-8.
pub open spec fn byte_len(s: Seq<char>) -> nat {
    encode_utf8(s).len()
}

/// A user name is acceptable if, trimmed, it has at least three bytes.
pub open spec fn username_ok(username: Seq<char>) -> bool {
    byte_len(trimmed(username)) >= MIN_USERNAME_LEN
}

/// An address is acceptable if it holds an `@` and has at least five bytes.
pub open spec fn email_ok(email: Seq<char>) -> bool {
    email.contains('@') && byte_len(email) >= MIN_EMAIL_LEN
}

/// A password is acceptable if it has at least eight bytes.
pub open spec fn password_ok(password: Seq<char>) -> bool {
    byte_len(password) >= MIN_PASSWORD_LEN
}

/// The outcome of the checks on a registration, made in the order user
/// name, address, password: the first failure is the one reported.
pub open spec fn registration_check(
    username: Seq<char>,
    email: Seq<char>,
    password: Seq<char>,
) -> Result<(), ValidationError> {
    if !username_ok(username) {
        Err(ValidationError::UsernameTooShort)
    } else if !email_ok(email) {
        Err(ValidationError::InvalidEmail)
    } else if !password_ok(password) {
        Err(ValidationError::PasswordTooShort)
    } else {
        Ok(())
    }
}

/// Checks a user name.
pub fn validate_username(username: &str) -> (r: Result<(), ValidationError>)
    ensures
        r == if username_ok(username@) {
            Ok::<(), ValidationError>(())
        } else {
            Err::<(), ValidationError>(ValidationError::UsernameTooShort)
        },
{
    if trim(username).as_bytes().len() < MIN_USERNAME_LEN {
        Err(ValidationError::UsernameTooShort)
    } else {
        Ok(())
    }
}

/// Checks an e-mail address, which is expected to be sanitised already.
pub fn validate_email(email: &str) -> (r: Result<(), ValidationError>)
    ensures
        r == if email_ok(email@) {
            Ok::<(), ValidationError>(())
        } else {
            Err::<(), ValidationError>(ValidationError::InvalidEmail)
        },
{
    if !contains_char(email, '@') || email.as_bytes().len() < MIN_EMAIL_LEN {
        Err(ValidationError::InvalidEmail)
    } else {
        Ok(())
    }
}

/// Checks a password.
pub fn validate_password(password: &str) -> (r: Result<(), ValidationError>)
    ensures
        r == if password_ok(password@) {
            Ok::<(), ValidationError>(())
        } else {
            Err::<(), ValidationError>(ValidationError::PasswordTooShort)
        },
{
    if password.as_bytes().len() < MIN_PASSWORD_LEN {
        Err(ValidationError::PasswordTooShort)
    } else {
        Ok(())
    }
}

/// Checks the three fields of a registration in their fixed order and
/// reports the first that fails.
pub fn validate_registration(username: &str, email: &str, password: &str) -> (r: Result<
    (),
    ValidationError,
>)
    ensures
        r == registration_check(username@, email@, password@),
{
    match validate_username(username) {
        Err(e) => {
            return Err(e);
        },
        Ok(()) => {},
    }
    match validate_email(email) {
        Err(e) => {
            return Err(e);
        },
        Ok(()) => {},
    }
    validate_password(password)
}

} // verus!
