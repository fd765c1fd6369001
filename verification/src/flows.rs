//! The order of the steps of each account flow, and what each outcome of a
//! step leads to.
//!
//! A flow is a fixed script of actions against storage and the other
//! collaborators. The caller performs the action it is handed and reports
//! the outcome; [`next`] answers with the next action, with the error that
//! ends the flow (whatever the open transaction holds is then abandoned), or
//! with the end of the flow. A session or a user is committed only once the
//! bearer token for it has been minted, and an e-mail is sent only once the
//! data it speaks of is committed.

use crate::credential::{password_accepted, verify_password};
use crate::ids::{parse_uuid, uuid_parsed};
use crate::sanitization::{sanitize_email, sanitized};
use crate::tokens::TokenKind;
use crate::validation::{
    email_ok, password_ok, registration_check, validate_email, validate_password,
    validate_registration, ValidationError,
};
use vstd::prelude::*;

verus! {

/// The account flows.
#[derive(Clone, Copy, Debug, PartialEq, Eq, Structural)]
pub enum Flow {
    Register,
    Login,
    Logout,
    VerifyEmail,
    ForgotPassword,
    ResetPassword,
}

/// One step of a flow, performed by the caller.
#[derive(Clone, Copy, Debug, PartialEq, Eq, Structural)]
pub enum Action {
    /// Look the user up by e-mail address.
    LookupEmail,
    /// Check the password against the stored credential.
    VerifyCredential,
    /// Hash the password.
    HashPassword,
    /// Insert the user row.
    InsertUser,
    /// Create the storage of the user's metadata.
    CreateUserDirectory,
    /// Encrypt the user's metadata.
    EncryptMetadata,
    /// Store the encrypted metadata.
    SaveMetadata,
    /// Load the stored encrypted metadata.
    LoadMetadata,
    /// Insert a single-use token of the given kind.
    IssueToken(TokenKind),
    /// Find the unexpired token of the given kind under the given id.
    FindToken(TokenKind),
    /// Set the user's verified flag.
    MarkVerified,
    /// Store the new credential.
    StoreCredential,
    /// Remove the token that was found; for a reset, every reset token of
    /// the user.
    RemoveTokens(TokenKind),
    /// Insert the session row.
    CreateSession,
    /// Mint the bearer token for the session.
    MintToken,
    /// Remove the session row.
    DeleteSession,
    /// Commit the transaction.
    Commit,
    /// Send the e-mail that carries the token of the given kind.
    SendEmail(TokenKind),
}

/// How a step went.
#[derive(Clone, Copy, Debug, PartialEq, Eq, Structural)]
pub enum Outcome {
    /// It did what it names; a lookup found what it looked for.
    Done,
    /// A lookup found nothing.
    Missing,
    /// A check said no.
    Rejected,
    /// The collaborator failed.
    Failed,
}

/// Why a flow ended without success.
#[derive(Clone, Copy, Debug, PartialEq, Eq, Structural)]
pub enum FlowError {
    /// The input has the wrong shape.
    Validation(ValidationError),
    /// Unknown address or wrong password; which of the two is not told.
    InvalidCredentials,
    /// An account with this address exists.
    EmailTaken,
    /// The token is no UUID.
    MalformedToken,
    /// No such token of this kind, or it has expired.
    TokenInvalidOrExpired,
    /// Storage failed.
    Storage,
    /// Hashing, encryption or signing failed.
    Crypto,
}

/// What follows a step.
#[derive(Clone, Copy, Debug, PartialEq, Eq, Structural)]
pub enum Next {
    /// Perform this action, which stands at this position of the script.
    Run { position: usize, action: Action },
    /// The flow failed; nothing of it may be committed.
    Abort(FlowError),
    /// The flow is complete and reports success.
    Finish,
}

impl FlowError {
    /// The message shown to the user. Failures of collaborators share one
    /// message that tells nothing of their cause.
    pub fn message(&self) -> (r: &'static str)
        ensures
            r@ == match *self {
                FlowError::Validation(ValidationError::UsernameTooShort) => "Gebruikersnaam moet minimaal 3 tekens zijn"@,
                FlowError::Validation(ValidationError::InvalidEmail) => "Ongeldig e-mailadres"@,
                FlowError::Validation(ValidationError::PasswordTooShort) => "Wachtwoord moet minimaal 8 tekens zijn"@,
                FlowError::InvalidCredentials => "E-mailadres of wachtwoord onjuist"@,
                FlowError::EmailTaken => "Er bestaat al een account met dit e-mailadres"@,
                FlowError::MalformedToken => "Ongeldig token"@,
                FlowError::TokenInvalidOrExpired => "Token ongeldig of verlopen"@,
                _ => "Er ging iets mis, probeer het later opnieuw"@,
            },
    {
        match self {
            FlowError::Validation(e) => e.message(),
            FlowError::InvalidCredentials => "E-mailadres of wachtwoord onjuist",
            FlowError::EmailTaken => "Er bestaat al een account met dit e-mailadres",
            FlowError::MalformedToken => "Ongeldig token",
            FlowError::TokenInvalidOrExpired => "Token ongeldig of verlopen",
            _ => "Er ging iets mis, probeer het later opnieuw",
        }
    }
}

/// The script of a flow: its actions in the order in which they are run.
pub open spec fn script(flow: Flow) -> Seq<Action> {
    match flow {
        Flow::Register => seq![
            Action::LookupEmail,
            Action::HashPassword,
            Action::InsertUser,
            Action::CreateUserDirectory,
            Action::EncryptMetadata,
            Action::SaveMetadata,
            Action::IssueToken(TokenKind::Verify),
            Action::CreateSession,
            Action::MintToken,
            Action::Commit,
            Action::SendEmail(TokenKind::Verify),
        ],
        Flow::Login => seq![
            Action::LookupEmail,
            Action::VerifyCredential,
            Action::LoadMetadata,
            Action::CreateSession,
            Action::MintToken,
            Action::Commit,
        ],
        Flow::Logout => seq![Action::DeleteSession],
        Flow::VerifyEmail => seq![
            Action::FindToken(TokenKind::Verify),
            Action::MarkVerified,
            Action::RemoveTokens(TokenKind::Verify),
            Action::Commit,
        ],
        Flow::ForgotPassword => seq![
            Action::LookupEmail,
            Action::IssueToken(TokenKind::Reset),
            Action::SendEmail(TokenKind::Reset),
        ],
        Flow::ResetPassword => seq![
            Action::FindToken(TokenKind::Reset),
            Action::HashPassword,
            Action::StoreCredential,
            Action::RemoveTokens(TokenKind::Reset),
            Action::Commit,
        ],
    }
}

/// The error that the failure of a collaborator during `action` stands for.
/// (The sending of an e-mail has none: its failure ends no flow.)
pub open spec fn failure_of(action: Action) -> FlowError {
    match action {
        Action::HashPassword | Action::EncryptMetadata | Action::MintToken => FlowError::Crypto,
        _ => FlowError::Storage,
    }
}

/// What follows the step at `position` once it is done: the next action of
/// the script, or the end of the flow after the last.
pub open spec fn advance(flow: Flow, position: int) -> Next {
    if 0 <= position + 1 < script(flow).len() {
        Next::Run { position: (position + 1) as usize, action: script(flow)[position + 1] }
    } else {
        Next::Finish
    }
}

/// What follows the step at `position` of `flow`, given its outcome.
///
/// A failed step ends the flow with an error, except the sending of an
/// e-mail, whose failure is passed over. A lookup of the address that finds
/// nothing continues a registration, ends a login with the same error as a
/// wrong password, and ends a request for a reset with success, so that the
/// caller does not learn whether the address exists. Removing a session that
/// is not there is no error.
pub open spec fn transition(flow: Flow, position: int, outcome: Outcome) -> Next {
    if position < 0 || position >= script(flow).len() {
        Next::Finish
    } else {
        let action = script(flow)[position];
        match (action, outcome) {
            (Action::SendEmail(_), _) => advance(flow, position),
            (_, Outcome::Failed) => Next::Abort(failure_of(action)),
            (Action::LookupEmail, Outcome::Done) => if flow == Flow::Register {
                Next::Abort(FlowError::EmailTaken)
            } else {
                advance(flow, position)
            },
            (Action::LookupEmail, _) => match flow {
                Flow::Register => advance(flow, position),
                Flow::ForgotPassword => Next::Finish,
                _ => Next::Abort(FlowError::InvalidCredentials),
            },
            (Action::VerifyCredential, Outcome::Done) => advance(flow, position),
            (Action::VerifyCredential, _) => Next::Abort(FlowError::InvalidCredentials),
            (Action::FindToken(_), Outcome::Done) => advance(flow, position),
            (Action::FindToken(_), _) => Next::Abort(FlowError::TokenInvalidOrExpired),
            (Action::DeleteSession, _) => advance(flow, position),
            (_, Outcome::Done) => advance(flow, position),
            (_, _) => Next::Abort(failure_of(action)),
        }
    }
}

/// The first step of a flow.
pub open spec fn first_step(flow: Flow) -> Next {
    Next::Run { position: 0, action: script(flow)[0] }
}

/// The action at `position` of the script of `flow`.
pub fn action_at(flow: Flow, position: usize) -> (r: Option<Action>)
    ensures
        r == if position < script(flow).len() {
            Some(script(flow)[position as int])
        } else {
            None
        },
{
    match flow {
        Flow::Register => match position {
            0 => Some(Action::LookupEmail),
            1 => Some(Action::HashPassword),
            2 => Some(Action::InsertUser),
            3 => Some(Action::CreateUserDirectory),
            4 => Some(Action::EncryptMetadata),
            5 => Some(Action::SaveMetadata),
            6 => Some(Action::IssueToken(TokenKind::Verify)),
            7 => Some(Action::CreateSession),
            8 => Some(Action::MintToken),
            9 => Some(Action::Commit),
            10 => Some(Action::SendEmail(TokenKind::Verify)),
            _ => None,
        },
        Flow::Login => match position {
            0 => Some(Action::LookupEmail),
            1 => Some(Action::VerifyCredential),
            2 => Some(Action::LoadMetadata),
            3 => Some(Action::CreateSession),
            4 => Some(Action::MintToken),
            5 => Some(Action::Commit),
            _ => None,
        },
        Flow::Logout => match position {
            0 => Some(Action::DeleteSession),
            _ => None,
        },
        Flow::VerifyEmail => match position {
            0 => Some(Action::FindToken(TokenKind::Verify)),
            1 => Some(Action::MarkVerified),
            2 => Some(Action::RemoveTokens(TokenKind::Verify)),
            3 => Some(Action::Commit),
            _ => None,
        },
        Flow::ForgotPassword => match position {
            0 => Some(Action::LookupEmail),
            1 => Some(Action::IssueToken(TokenKind::Reset)),
            2 => Some(Action::SendEmail(TokenKind::Reset)),
            _ => None,
        },
        Flow::ResetPassword => match position {
            0 => Some(Action::FindToken(TokenKind::Reset)),
            1 => Some(Action::HashPassword),
            2 => Some(Action::StoreCredential),
            3 => Some(Action::RemoveTokens(TokenKind::Reset)),
            4 => Some(Action::Commit),
            _ => None,
        },
    }
}

/// The step after the one at `position`.
fn step_after(flow: Flow, position: usize) -> (r: Next)
    requires
        position < script(flow).len(),
    ensures
        r == advance(flow, position as int),
{
    match action_at(flow, position + 1) {
        Some(action) => Next::Run { position: position + 1, action },
        None => Next::Finish,
    }
}

/// The error for a collaborator's failure during `action`.
fn error_for(action: Action) -> (r: FlowError)
    ensures
        r == failure_of(action),
{
    match action {
        Action::HashPassword | Action::EncryptMetadata | Action::MintToken => FlowError::Crypto,
        _ => FlowError::Storage,
    }
}

/// Begins a flow: hands out its first action.
pub fn begin(flow: Flow) -> (r: Next)
    ensures
        r == first_step(flow),
{
    match action_at(flow, 0) {
        Some(action) => Next::Run { position: 0, action },
        None => Next::Finish,
    }
}

/// Decides what follows the step at `position` of `flow`, given how it
/// went.
pub fn next(flow: Flow, position: usize, outcome: Outcome) -> (r: Next)
    ensures
        r == transition(flow, position as int, outcome),
{
    let action = match action_at(flow, position) {
        Some(action) => action,
        None => {
            return Next::Finish;
        },
    };
    match (action, outcome) {
        (Action::SendEmail(_), _) => step_after(flow, position),
        (_, Outcome::Failed) => Next::Abort(error_for(action)),
        (Action::LookupEmail, Outcome::Done) => match flow {
            Flow::Register => Next::Abort(FlowError::EmailTaken),
            _ => step_after(flow, position),
        },
        (Action::LookupEmail, _) => match flow {
            Flow::Register => step_after(flow, position),
            Flow::ForgotPassword => Next::Finish,
            _ => Next::Abort(FlowError::InvalidCredentials),
        },
        (Action::VerifyCredential, Outcome::Done) => step_after(flow, position),
        (Action::VerifyCredential, _) => Next::Abort(FlowError::InvalidCredentials),
        (Action::FindToken(_), Outcome::Done) => step_after(flow, position),
        (Action::FindToken(_), _) => Next::Abort(FlowError::TokenInvalidOrExpired),
        (Action::DeleteSession, _) => step_after(flow, position),
        (_, Outcome::Done) => step_after(flow, position),
        (_, _) => Next::Abort(error_for(action)),
    }
}

/// What the checks on a registration give: the sanitised address, or the
/// first shape error in the order user name, address, password.
pub open spec fn registration_input(
    username: Seq<char>,
    email: Seq<char>,
    password: Seq<char>,
) -> Result<Seq<char>, FlowError> {
    match registration_check(username, sanitized(email), password) {
        Ok(()) => Ok(sanitized(email)),
        Err(e) => Err(FlowError::Validation(e)),
    }
}

/// Checks the input of a registration before storage is touched, and
/// returns the sanitised address under which the account is created.
pub fn check_registration(username: &str, email: &str, password: &str) -> (r: Result<
    String,
    FlowError,
>)
    ensures
        match r {
            Ok(address) => registration_input(username@, email@, password@) == Ok::<
                Seq<char>,
                FlowError,
            >(address@),
            Err(e) => registration_input(username@, email@, password@) == Err::<
                Seq<char>,
                FlowError,
            >(e),
        },
{
    let address = sanitize_email(email);
    match validate_registration(username, address.as_str(), password) {
        Ok(()) => Ok(address),
        Err(e) => Err(FlowError::Validation(e)),
    }
}

/// Checks the address of a login before storage is touched, and returns it
/// sanitised: an address without an `@` or of fewer than five bytes is
/// refused here, and never looked up.
pub fn check_login(email: &str) -> (r: Result<String, FlowError>)
    ensures
        match r {
            Ok(address) => email_ok(sanitized(email@)) && address@ == sanitized(email@),
            Err(e) => !email_ok(sanitized(email@)) && e == FlowError::Validation(
                ValidationError::InvalidEmail,
            ),
        },
{
    let address = sanitize_email(email);
    match validate_email(address.as_str()) {
        Ok(()) => Ok(address),
        Err(e) => Err(FlowError::Validation(e)),
    }
}

/// Checks the address of a request for a password reset, and returns it
/// sanitised.
pub fn check_forgot_password(email: &str) -> (r: Result<String, FlowError>)
    ensures
        match r {
            Ok(address) => email_ok(sanitized(email@)) && address@ == sanitized(email@),
            Err(e) => !email_ok(sanitized(email@)) && e == FlowError::Validation(
                ValidationError::InvalidEmail,
            ),
        },
{
    let address = sanitize_email(email);
    match validate_email(address.as_str()) {
        Ok(()) => Ok(address),
        Err(e) => Err(FlowError::Validation(e)),
    }
}

/// What the checks on a password reset give: the id of the token to
/// consume. The password is checked first, then the token's form.
pub open spec fn reset_input(token: Seq<char>, new_password: Seq<char>) -> Result<u128, FlowError> {
    if !password_ok(new_password) {
        Err(FlowError::Validation(ValidationError::PasswordTooShort))
    } else {
        token_input(token)
    }
}

/// The id that a token text stands for.
pub open spec fn token_input(token: Seq<char>) -> Result<u128, FlowError> {
    match uuid_parsed(token) {
        Some(id) => Ok(id),
        None => Err(FlowError::MalformedToken),
    }
}

/// Reads the token of an e-mail verification.
pub fn check_verify_email(token: &str) -> (r: Result<u128, FlowError>)
    ensures
        r == token_input(token@),
{
    match parse_uuid(token) {
        Some(id) => Ok(id),
        None => Err(FlowError::MalformedToken),
    }
}

/// Checks the input of a password reset before storage is touched.
pub fn check_reset_password(token: &str, new_password: &str) -> (r: Result<u128, FlowError>)
    ensures
        r == reset_input(token@, new_password@),
{
    match validate_password(new_password) {
        Ok(()) => check_verify_email(token),
        Err(e) => Err(FlowError::Validation(e)),
    }
}

/// The outcome of the credential check of a login, given the credential
/// stored for the address, if the address is known. An unknown address and a
/// wrong password give the same outcome.
pub fn check_credential(stored: Option<&str>, password: &str) -> (r: Outcome)
    ensures
        r == if stored matches Some(credential) && password_accepted(password@, credential@) {
            Outcome::Done
        } else {
            Outcome::Rejected
        },
{
    match stored {
        Some(credential) => {
            if verify_password(password, credential) {
                Outcome::Done
            } else {
                Outcome::Rejected
            }
        },
        None => Outcome::Rejected,
    }
}

/// Where a flow stands after the steps from `position` on have had the
/// given outcomes, one after the other. Outcomes that come after the end of
/// the flow are not looked at.
pub open spec fn run(flow: Flow, position: int, outcomes: Seq<Outcome>) -> Next
    decreases outcomes.len(),
{
    if position < 0 || position >= script(flow).len() {
        Next::Finish
    } else if outcomes.len() == 0 {
        Next::Run { position: position as usize, action: script(flow)[position] }
    } else {
        match transition(flow, position, outcomes[0]) {
            Next::Run { position: following, .. } => run(
                flow,
                following as int,
                outcomes.drop_first(),
            ),
            ended => ended,
        }
    }
}

/// Whether `action` is performed with the outcome `Done` when the steps
/// from `position` on have the given outcomes.
pub open spec fn completes(flow: Flow, position: int, outcomes: Seq<Outcome>, action: Action)
    -> bool
    decreases outcomes.len(),
{
    if position < 0 || position >= script(flow).len() || outcomes.len() == 0 {
        false
    } else if script(flow)[position] == action && outcomes[0] == Outcome::Done {
        true
    } else {
        match transition(flow, position, outcomes[0]) {
            Next::Run { position: following, .. } => completes(
                flow,
                following as int,
                outcomes.drop_first(),
                action,
            ),
            _ => false,
        }
    }
}

/// The position of the commit in the script of a flow that has one; the
/// length of the script otherwise.
pub open spec fn commit_position(flow: Flow) -> int {
    match flow {
        Flow::Register => 9,
        Flow::Login => 5,
        Flow::VerifyEmail => 3,
        Flow::ResetPassword => 4,
        Flow::Logout => 1,
        Flow::ForgotPassword => 3,
    }
}

proof fn lemma_no_abort_after_commit(flow: Flow, position: int, outcomes: Seq<Outcome>)
    requires
        position > commit_position(flow),
    ensures
        !(run(flow, position, outcomes) is Abort),
    decreases outcomes.len(),
{
    if 0 <= position < script(flow).len() && outcomes.len() > 0 {
        if let Next::Run { position: following, .. } = transition(flow, position, outcomes[0]) {
            lemma_no_abort_after_commit(flow, following as int, outcomes.drop_first());
        }
    }
}

proof fn lemma_abort_commits_nothing_from(flow: Flow, position: int, outcomes: Seq<Outcome>)
    requires
        0 <= position,
        run(flow, position, outcomes) is Abort,
    ensures
        !completes(flow, position, outcomes, Action::Commit),
    decreases outcomes.len(),
{
    if position < script(flow).len() && outcomes.len() > 0 {
        if script(flow)[position] == Action::Commit && outcomes[0] == Outcome::Done {
            assert(position == commit_position(flow));
            if let Next::Run { position: following, .. } = transition(flow, position, outcomes[0]) {
                lemma_no_abort_after_commit(flow, following as int, outcomes.drop_first());
            }
        } else if let Next::Run { position: following, .. } = transition(
            flow,
            position,
            outcomes[0],
        ) {
            lemma_abort_commits_nothing_from(flow, following as int, outcomes.drop_first());
        }
    }
}

proof fn lemma_commit_after_minting_from(flow: Flow, position: int, outcomes: Seq<Outcome>)
    requires
        flow == Flow::Register || flow == Flow::Login,
        0 <= position <= commit_position(flow) - 1,
        completes(flow, position, outcomes, Action::Commit),
    ensures
        completes(flow, position, outcomes, Action::MintToken),
        completes(flow, position, outcomes, Action::CreateSession) || position
            == commit_position(flow) - 1,
    decreases outcomes.len(),
{
    if position < commit_position(flow) - 1 {
        if let Next::Run { position: following, .. } = transition(flow, position, outcomes[0]) {
            lemma_commit_after_minting_from(flow, following as int, outcomes.drop_first());
        }
    }
}

/// A flow that ends with an error has committed nothing: whatever it wrote
/// before the failing step is abandoned with the transaction, so no user
/// and no session is left behind without a token.
pub proof fn lemma_aborted_flow_commits_nothing(flow: Flow, outcomes: Seq<Outcome>)
    requires
        run(flow, 0, outcomes) is Abort,
    ensures
        !completes(flow, 0, outcomes, Action::Commit),
{
    lemma_abort_commits_nothing_from(flow, 0, outcomes);
}

/// A registration or a login commits only after the session row was
/// written and the bearer token for it was minted.
pub proof fn lemma_commit_needs_minted_token(flow: Flow, outcomes: Seq<Outcome>)
    requires
        flow == Flow::Register || flow == Flow::Login,
        completes(flow, 0, outcomes, Action::Commit),
    ensures
        completes(flow, 0, outcomes, Action::CreateSession),
        completes(flow, 0, outcomes, Action::MintToken),
{
    lemma_commit_after_minting_from(flow, 0, outcomes);
}

/// An e-mail goes out only for data that is committed: a registration
/// that sends the verification e-mail has committed the account before.
pub proof fn lemma_email_needs_commit(outcomes: Seq<Outcome>)
    requires
        completes(Flow::Register, 0, outcomes, Action::SendEmail(TokenKind::Verify)),
    ensures
        completes(Flow::Register, 0, outcomes, Action::Commit),
{
    lemma_email_after_commit_from(0, outcomes);
}

proof fn lemma_email_after_commit_from(position: int, outcomes: Seq<Outcome>)
    requires
        0 <= position <= 9,
        completes(Flow::Register, position, outcomes, Action::SendEmail(TokenKind::Verify)),
    ensures
        completes(Flow::Register, position, outcomes, Action::Commit),
    decreases outcomes.len(),
{
    if position < 9 {
        if let Next::Run { position: following, .. } = transition(
            Flow::Register,
            position,
            outcomes[0],
        ) {
            lemma_email_after_commit_from(following as int, outcomes.drop_first());
        }
    } else {
        if outcomes[0] != Outcome::Done {
            assert(transition(Flow::Register, 9, outcomes[0]) is Abort);
        }
    }
}

/// Nothing is committed before the bearer token is minted: in every flow
/// that creates a session, the commit is reached only from a minted token,
/// and the token is minted right after the session row is written.
pub proof fn lemma_commit_follows_minting(flow: Flow, position: int, outcome: Outcome)
    requires
        flow == Flow::Register || flow == Flow::Login,
        transition(flow, position, outcome) matches Next::Run { action: Action::Commit, .. },
    ensures
        0 <= position < script(flow).len(),
        script(flow)[position] == Action::MintToken,
        outcome == Outcome::Done,
        script(flow)[position - 1] == Action::CreateSession,
{
}

/// A failure of any step but the sending of an e-mail ends the flow with an
/// error, so nothing that was written in the open transaction is committed.
pub proof fn lemma_failure_aborts(flow: Flow, position: int)
    requires
        0 <= position < script(flow).len(),
        !(script(flow)[position] is SendEmail),
    ensures
        transition(flow, position, Outcome::Failed) == Next::Abort(
            failure_of(script(flow)[position]),
        ),
{
}

/// An e-mail is the last step of its flow, it is sent only after the commit
/// where the flow has one, and its failure does not fail the flow.
pub proof fn lemma_email_is_best_effort(flow: Flow, position: int, outcome: Outcome)
    requires
        0 <= position < script(flow).len(),
        script(flow)[position] is SendEmail,
    ensures
        position == script(flow).len() - 1,
        transition(flow, position, outcome) == Next::Finish,
        flow == Flow::Register ==> script(flow)[position - 1] == Action::Commit,
{
}

/// A login with an unknown address fails exactly as one with a wrong
/// password does.
pub proof fn lemma_login_failures_alike()
    ensures
        transition(Flow::Login, 0, Outcome::Missing) == Next::Abort(FlowError::InvalidCredentials),
        transition(Flow::Login, 1, Outcome::Rejected) == Next::Abort(
            FlowError::InvalidCredentials,
        ),
{
}

/// A request for a password reset succeeds whether or not the address is
/// known, as long as storage works.
pub proof fn lemma_forgot_password_hides_existence(sent: Outcome)
    ensures
        transition(Flow::ForgotPassword, 0, Outcome::Missing) == Next::Finish,
        transition(Flow::ForgotPassword, 0, Outcome::Done) == (Next::Run {
            position: 1,
            action: Action::IssueToken(TokenKind::Reset),
        }),
        transition(Flow::ForgotPassword, 1, Outcome::Done) == (Next::Run {
            position: 2,
            action: Action::SendEmail(TokenKind::Reset),
        }),
        transition(Flow::ForgotPassword, 2, sent) == Next::Finish,
{
}

/// A token that is not found, of the wrong kind or expired ends a
/// verification and a reset with the same error.
pub proof fn lemma_unusable_token_aborts(flow: Flow, outcome: Outcome)
    requires
        flow == Flow::VerifyEmail || flow == Flow::ResetPassword,
        outcome == Outcome::Missing || outcome == Outcome::Rejected,
    ensures
        transition(flow, 0, outcome) == Next::Abort(FlowError::TokenInvalidOrExpired),
{
}

/// A logout succeeds whether or not the session was still stored.
pub proof fn lemma_logout_idempotent(outcome: Outcome)
    requires
        outcome == Outcome::Done || outcome == Outcome::Missing,
    ensures
        transition(Flow::Logout, 0, outcome) == Next::Finish,
{
}

} // verus!
