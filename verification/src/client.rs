//! The decisions of the client: which screen to show, which form to refuse
//! before anything is sent, and what a reply of the server means for the
//! stored login state.

use crate::text::{contains_char, trim, trimmed};
use crate::validation::byte_len;
use vstd::prelude::*;

verus! {

/// The login state that the client keeps between runs.
#[derive(Clone, Debug)]
pub struct AuthState {
    pub token: Option<String>,
    pub user_id: Option<i32>,
    pub is_verified: bool,
}

/// Where a user who is not logged in has navigated to.
#[derive(Clone, Debug)]
pub enum NavState {
    Login,
    Register,
    ForgotPassword,
    /// The reset form, for the token of the link.
    ResetPassword(String),
    VerifyEmail,
}

/// The screens of the client.
#[derive(Clone, Copy, Debug, PartialEq, Eq, Structural)]
pub enum Screen {
    Login,
    Register,
    ForgotPassword,
    ResetPassword,
    VerifyEmail,
    Home,
}

/// Why a form was not sent.
#[derive(Clone, Copy, Debug, PartialEq, Eq, Structural)]
pub enum FormError {
    /// Address or password is blank.
    MissingCredentials,
    /// The trimmed user name has fewer than three bytes.
    UsernameTooShort,
    /// The address lacks an `@` or a dot, or has fewer than five bytes.
    InvalidEmail,
    /// The password has fewer than eight bytes.
    PasswordTooShort,
    /// The password and its repetition differ.
    PasswordMismatch,
    /// The code is blank.
    MissingCode,
}

/// What came back for a request.
#[derive(Debug)]
pub enum Reply<T> {
    /// The server was not reached.
    Unreachable,
    /// The answer could not be read.
    Unreadable,
    /// The answer: its data, and its list of error messages.
    Answer { data: Option<T>, errors: Option<Vec<String>> },
}

/// The user of a successful login or registration.
#[derive(Debug)]
pub struct SignedIn {
    pub token: String,
    pub user_id: i32,
    pub is_verified: bool,
}

/// What the client shows after a reply.
#[derive(Clone, Copy, Debug, PartialEq, Eq, Structural)]
pub enum Notice {
    /// Nothing changes.
    Nothing,
    /// The request succeeded.
    Success,
    /// The first error message of the server is shown.
    ServerMessage,
    /// The server was not reached.
    NoConnection,
    /// The answer could not be read.
    BadData,
    /// The server answered without data and without errors.
    ServerTrouble,
    /// The server declined without saying why.
    Declined,
}

impl FormError {
    /// The message shown to the user.
    pub fn message(&self) -> (r: &'static str)
        ensures
            r@ == match *self {
                FormError::MissingCredentials => "Vergeet niet je e-mail en wachtwoord in te vullen!"@,
                FormError::UsernameTooShort => "Kies een gebruikersnaam van minstens 3 tekens."@,
                FormError::InvalidEmail => "Oeps! Dat lijkt geen geldig e-mailadres te zijn."@,
                FormError::PasswordTooShort => "Maak je wachtwoord wat sterker (minstens 8 tekens)."@,
                FormError::PasswordMismatch => "De wachtwoorden komen niet overeen. Probeer het nog eens."@,
                FormError::MissingCode => "Vergeet de code niet in te vullen!"@,
            },
    {
        match self {
            FormError::MissingCredentials => "Vergeet niet je e-mail en wachtwoord in te vullen!",
            FormError::UsernameTooShort => "Kies een gebruikersnaam van minstens 3 tekens.",
            FormError::InvalidEmail => "Oeps! Dat lijkt geen geldig e-mailadres te zijn.",
            FormError::PasswordTooShort => "Maak je wachtwoord wat sterker (minstens 8 tekens).",
            FormError::PasswordMismatch => "De wachtwoorden komen niet overeen. Probeer het nog eens.",
            FormError::MissingCode => "Vergeet de code niet in te vullen!",
        }
    }
}

/// The screen for a login state and a navigation state: without a token the
/// screen navigated to, with a token the verification screen until the
/// address is verified, then the home screen.
pub open spec fn screen_for(auth: AuthState, nav: NavState) -> Screen {
    if auth.token is None {
        match nav {
            NavState::Login => Screen::Login,
            NavState::Register => Screen::Register,
            NavState::ForgotPassword => Screen::ForgotPassword,
            NavState::ResetPassword(_) => Screen::ResetPassword,
            NavState::VerifyEmail => Screen::VerifyEmail,
        }
    } else if !auth.is_verified {
        Screen::VerifyEmail
    } else {
        Screen::Home
    }
}

/// An address looks valid to the client if it holds an `@` and a dot and
/// has at least five bytes.
pub open spec fn looks_like_email(email: Seq<char>) -> bool {
    email.contains('@') && email.contains('.') && byte_len(email) >= 5
}

/// The outcome of the checks on the registration form, in their order.
pub open spec fn register_form_check(
    username: Seq<char>,
    email: Seq<char>,
    password: Seq<char>,
    confirm: Seq<char>,
) -> Result<(), FormError> {
    if byte_len(trimmed(username)) < 3 {
        Err(FormError::UsernameTooShort)
    } else if !looks_like_email(email) {
        Err(FormError::InvalidEmail)
    } else if byte_len(password) < 8 {
        Err(FormError::PasswordTooShort)
    } else if password != confirm {
        Err(FormError::PasswordMismatch)
    } else {
        Ok(())
    }
}

/// The outcome of the checks on the reset form, in their order.
pub open spec fn reset_form_check(password: Seq<char>, confirm: Seq<char>) -> Result<(), FormError> {
    if byte_len(password) < 8 {
        Err(FormError::PasswordTooShort)
    } else if password != confirm {
        Err(FormError::PasswordMismatch)
    } else {
        Ok(())
    }
}

/// What a reply to a login or a registration means.
pub open spec fn sign_in_notice(reply: Reply<Option<SignedIn>>) -> Notice {
    match reply {
        Reply::Unreachable => Notice::NoConnection,
        Reply::Unreadable => Notice::BadData,
        Reply::Answer { data: Some(Some(_)), .. } => Notice::Success,
        Reply::Answer { data: Some(None), .. } => Notice::Nothing,
        Reply::Answer { data: None, errors: Some(_) } => Notice::ServerMessage,
        Reply::Answer { data: None, errors: None } => Notice::ServerTrouble,
    }
}

/// What a reply to a request that answers yes or no means. A reply without
/// data and without errors changes nothing, unless `plain` says that the
/// request shows the server's trouble then.
pub open spec fn flag_notice(reply: Reply<bool>, plain: bool) -> Notice {
    match reply {
        Reply::Unreachable => Notice::NoConnection,
        Reply::Unreadable => Notice::BadData,
        Reply::Answer { data: Some(true), .. } => Notice::Success,
        Reply::Answer { data: Some(false), .. } => Notice::Declined,
        Reply::Answer { data: None, errors } => if plain {
            Notice::ServerTrouble
        } else if errors is Some {
            Notice::ServerMessage
        } else {
            Notice::Nothing
        },
    }
}

/// Whether two texts are the same.
fn same_text(a: &str, b: &str) -> (r: bool)
    ensures
        r == (a@ == b@),
{
    a.to_owned() == b.to_owned()
}

/// The screen to show.
pub fn current_screen(auth: &AuthState, nav: &NavState) -> (r: Screen)
    ensures
        r == screen_for(*auth, *nav),
{
    if auth.token.is_none() {
        match nav {
            NavState::Login => Screen::Login,
            NavState::Register => Screen::Register,
            NavState::ForgotPassword => Screen::ForgotPassword,
            NavState::ResetPassword(_) => Screen::ResetPassword,
            NavState::VerifyEmail => Screen::VerifyEmail,
        }
    } else if !auth.is_verified {
        Screen::VerifyEmail
    } else {
        Screen::Home
    }
}

/// Checks the login form: neither field may be blank.
pub fn check_login_form(email: &str, password: &str) -> (r: Result<(), FormError>)
    ensures
        r == if trimmed(email@).len() == 0 || trimmed(password@).len() == 0 {
            Err::<(), FormError>(FormError::MissingCredentials)
        } else {
            Ok::<(), FormError>(())
        },
{
    if trim(email).is_empty() || trim(password).is_empty() {
        Err(FormError::MissingCredentials)
    } else {
        Ok(())
    }
}

/// Checks an address as the client does.
pub fn check_email_field(email: &str) -> (r: Result<(), FormError>)
    ensures
        r == if looks_like_email(email@) {
            Ok::<(), FormError>(())
        } else {
            Err::<(), FormError>(FormError::InvalidEmail)
        },
{
    if !contains_char(email, '@') || !contains_char(email, '.') || email.as_bytes().len() < 5 {
        Err(FormError::InvalidEmail)
    } else {
        Ok(())
    }
}

/// Checks a new password and its repetition.
pub fn check_reset_form(password: &str, confirm: &str) -> (r: Result<(), FormError>)
    ensures
        r == reset_form_check(password@, confirm@),
{
    if password.as_bytes().len() < 8 {
        Err(FormError::PasswordTooShort)
    } else if !same_text(password, confirm) {
        Err(FormError::PasswordMismatch)
    } else {
        Ok(())
    }
}

/// Checks the registration form: user name, address, password and its
/// repetition, in this order.
pub fn check_register_form(username: &str, email: &str, password: &str, confirm: &str) -> (r:
    Result<(), FormError>)
    ensures
        r == register_form_check(username@, email@, password@, confirm@),
{
    if trim(username).as_bytes().len() < 3 {
        return Err(FormError::UsernameTooShort);
    }
    match check_email_field(email) {
        Err(e) => {
            return Err(e);
        },
        Ok(()) => {},
    }
    check_reset_form(password, confirm)
}

/// Checks the verification form: the code may not be blank.
pub fn check_verify_form(token: &str) -> (r: Result<(), FormError>)
    ensures
        r == if trimmed(token@).len() == 0 {
            Err::<(), FormError>(FormError::MissingCode)
        } else {
            Ok::<(), FormError>(())
        },
{
    if trim(token).is_empty() {
        Err(FormError::MissingCode)
    } else {
        Ok(())
    }
}

/// Reads the reply to a login or a registration. On success the login
/// state takes the token, the user and the verified flag of the reply;
/// otherwise it stays as it is.
pub fn read_sign_in_reply(reply: Reply<Option<SignedIn>>, auth: &mut AuthState) -> (r: Notice)
    ensures
        r == sign_in_notice(reply),
        match reply {
            Reply::Answer { data: Some(Some(user)), .. } => {
                &&& final(auth).token == Some(user.token)
                &&& final(auth).user_id == Some(user.user_id)
                &&& final(auth).is_verified == user.is_verified
            },
            _ => *final(auth) == *old(auth),
        },
{
    match reply {
        Reply::Unreachable => Notice::NoConnection,
        Reply::Unreadable => Notice::BadData,
        Reply::Answer { data: Some(Some(user)), errors: _ } => {
            auth.token = Some(user.token);
            auth.user_id = Some(user.user_id);
            auth.is_verified = user.is_verified;
            Notice::Success
        },
        Reply::Answer { data: Some(None), errors: _ } => Notice::Nothing,
        Reply::Answer { data: None, errors: Some(_) } => Notice::ServerMessage,
        Reply::Answer { data: None, errors: None } => Notice::ServerTrouble,
    }
}

/// Reads the reply to a verification of the address. On success the login
/// state, where there is one, becomes verified.
pub fn read_verify_reply(reply: &Reply<bool>, auth: &mut AuthState) -> (r: Notice)
    ensures
        r == flag_notice(*reply, false),
        final(auth).token == old(auth).token,
        final(auth).user_id == old(auth).user_id,
        final(auth).is_verified == (old(auth).is_verified || r == Notice::Success),
{
    let notice = read_flag_reply(reply, false);
    if notice == Notice::Success {
        auth.is_verified = true;
    }
    notice
}

/// Reads the reply to a request that answers yes or no: a password reset
/// (`plain` false) or a request for one (`plain` true).
pub fn read_flag_reply(reply: &Reply<bool>, plain: bool) -> (r: Notice)
    ensures
        r == flag_notice(*reply, plain),
{
    match reply {
        Reply::Unreachable => Notice::NoConnection,
        Reply::Unreadable => Notice::BadData,
        Reply::Answer { data: Some(flag), errors: _ } => {
            if *flag {
                Notice::Success
            } else {
                Notice::Declined
            }
        },
        Reply::Answer { data: None, errors } => {
            if plain {
                Notice::ServerTrouble
            } else if errors.is_some() {
                Notice::ServerMessage
            } else {
                Notice::Nothing
            }
        },
    }
}

} // verus!
