//! Authentication of a request from its `Authorization` header.
//!
//! A bearer token is honoured only if its signature verifies, its own expiry
//! has not passed, and the session it names is still stored and not
//! expired. The last check is what makes a logout effective.

use crate::auth::{
    claims_at, create_jwt_at, is_token_for, verification, verify_jwt_at, Claims, ClaimsView,
    IssueError, VerifyError, TOKEN_LIFETIME_SECS,
};
use crate::definitions::request::AuthUser;
use crate::ids::{
    format_uuid, lemma_parse_decimal, parse_i32, parse_uuid, parsed_i32, uuid_parsed, uuid_text,
};
use crate::sessions::{SessionRecord, SessionStore};
use crate::text::chars_of;
use vstd::prelude::*;

verus! {

/// Why a request was not authenticated.
#[derive(Clone, Copy, Debug, PartialEq, Eq, Structural)]
pub enum AuthError {
    /// The request carries no `Authorization: Bearer` header.
    NoBearerToken,
    /// The token is malformed or its signature does not verify.
    InvalidToken,
    /// The token lacks one of its claims.
    MalformedClaims,
    /// The token's own expiry has passed.
    TokenExpired,
    /// The session claim is no UUID.
    InvalidSessionId,
    /// The session has been removed: the token is revoked.
    SessionNotFound,
    /// The stored session has expired.
    SessionExpired,
    /// The subject claim is no user id.
    InvalidSubject,
}

impl AuthError {
    /// The message shown to the user: the same for every cause, so that it
    /// does not tell which check failed.
    pub fn message(&self) -> (r: &'static str)
        ensures
            r@ == "Niet ingelogd"@,
    {
        "Niet ingelogd"
    }
}

/// The token of an `Authorization` header of the form `Bearer <token>`.
pub open spec fn bearer_of(header: Seq<char>) -> Option<Seq<char>> {
    if header.len() >= 7 && header.subrange(0, 7) == "Bearer "@ {
        Some(header.subrange(7, header.len() as int))
    } else {
        None
    }
}

/// The error that stands for a refused token.
pub open spec fn auth_error_of(e: VerifyError) -> AuthError {
    match e {
        VerifyError::InvalidToken => AuthError::InvalidToken,
        VerifyError::MalformedClaims => AuthError::MalformedClaims,
        VerifyError::Expired => AuthError::TokenExpired,
    }
}

/// The claims of a request and the session that they name, as far as the
/// header, the signature and the token's own expiry decide.
pub open spec fn requested_session(
    authorization: Option<Seq<char>>,
    secret: Seq<u8>,
    now: int,
) -> Result<(ClaimsView, u128), AuthError> {
    match authorization {
        None => Err(AuthError::NoBearerToken),
        Some(header) => match bearer_of(header) {
            None => Err(AuthError::NoBearerToken),
            Some(token) => match verification(token, secret, now) {
                Err(e) => Err(auth_error_of(e)),
                Ok(claims) => match uuid_parsed(claims.sid) {
                    None => Err(AuthError::InvalidSessionId),
                    Some(session_id) => Ok((claims, session_id)),
                },
            },
        },
    }
}

/// The identity granted to verified claims, given what storage holds under
/// the session they name.
pub open spec fn authorization(
    claims: ClaimsView,
    session_id: u128,
    session: Option<SessionRecord>,
    now: int,
) -> Result<AuthUser, AuthError> {
    match session {
        None => Err(AuthError::SessionNotFound),
        Some(s) => if s.expires_at <= now {
            Err(AuthError::SessionExpired)
        } else {
            match parsed_i32(claims.sub) {
                None => Err(AuthError::InvalidSubject),
                Some(id) => Ok(AuthUser { id: id as i32, session_id }),
            }
        },
    }
}

/// What storage holds under a session id.
pub open spec fn stored_session(sessions: Map<u128, SessionRecord>, id: u128) -> Option<
    SessionRecord,
> {
    if sessions.dom().contains(id) {
        Some(sessions[id])
    } else {
        None
    }
}

/// The identity that a request is authenticated as.
pub open spec fn authentication(
    authorization_header: Option<Seq<char>>,
    secret: Seq<u8>,
    sessions: Map<u128, SessionRecord>,
    now: int,
) -> Result<AuthUser, AuthError> {
    match requested_session(authorization_header, secret, now) {
        Err(e) => Err(e),
        Ok((claims, session_id)) => authorization(
            claims,
            session_id,
            stored_session(sessions, session_id),
            now,
        ),
    }
}

/// The view of an optional header.
pub open spec fn header_view(authorization: Option<&str>) -> Option<Seq<char>> {
    match authorization {
        Some(header) => Some(header@),
        None => None,
    }
}

/// Takes the token out of an `Authorization` header of the form
/// `Bearer <token>`.
pub fn bearer_token(header: &str) -> (r: Option<&str>)
    ensures
        match r {
            Some(token) => bearer_of(header@) == Some(token@),
            None => bearer_of(header@) is None,
        },
{
    let chars = chars_of(header);
    let prefix = chars_of("Bearer ");
    proof {
        reveal_strlit("Bearer ");
    }
    if chars.len() < 7 {
        return None;
    }
    let mut i: usize = 0;
    while i < 7
        invariant
            i <= 7,
            chars@ == header@,
            chars@.len() >= 7,
            prefix@ == "Bearer "@,
            prefix@.len() == 7,
            forall|j: int| 0 <= j < i ==> chars@[j] == prefix@[j],
        decreases 7 - i,
    {
        if chars[i] != prefix[i] {
            proof {
                assert(chars@.subrange(0, 7)[i as int] == chars@[i as int]);
            }
            return None;
        }
        i += 1;
    }
    proof {
        assert(chars@.subrange(0, 7) =~= prefix@);
    }
    Some(header.substring_char(7, chars.len()))
}

/// Reads the header of a request and verifies its token at `now`: what
/// comes out are the claims and the id of the session to look up.
pub fn session_of_request(authorization: Option<&str>, secret: &[u8], now: i64) -> (r: Result<
    (Claims, u128),
    AuthError,
>)
    ensures
        match r {
            Ok((claims, session_id)) => requested_session(
                header_view(authorization),
                secret@,
                now as int,
            ) == Ok::<(ClaimsView, u128), AuthError>((claims@, session_id)),
            Err(e) => requested_session(header_view(authorization), secret@, now as int) == Err::<
                (ClaimsView, u128),
                AuthError,
            >(e),
        },
{
    let header = match authorization {
        Some(header) => header,
        None => {
            return Err(AuthError::NoBearerToken);
        },
    };
    let token = match bearer_token(header) {
        Some(token) => token,
        None => {
            return Err(AuthError::NoBearerToken);
        },
    };
    let claims = match verify_jwt_at(token, secret, now) {
        Ok(claims) => claims,
        Err(VerifyError::InvalidToken) => {
            return Err(AuthError::InvalidToken);
        },
        Err(VerifyError::MalformedClaims) => {
            return Err(AuthError::MalformedClaims);
        },
        Err(VerifyError::Expired) => {
            return Err(AuthError::TokenExpired);
        },
    };
    match parse_uuid(claims.sid.as_str()) {
        Some(session_id) => Ok((claims, session_id)),
        None => Err(AuthError::InvalidSessionId),
    }
}

/// Decides on verified claims once storage has been asked for the session
/// they name: the session must be there and not expired, and the subject
/// must be a user id.
pub fn authorize(claims: &Claims, session_id: u128, session: Option<&SessionRecord>, now: i64) -> (r:
    Result<AuthUser, AuthError>)
    ensures
        r == authorization(
            claims@,
            session_id,
            match session {
                Some(s) => Some(*s),
                None => None,
            },
            now as int,
        ),
{
    let session = match session {
        Some(session) => session,
        None => {
            return Err(AuthError::SessionNotFound);
        },
    };
    if !session.is_live(now) {
        return Err(AuthError::SessionExpired);
    }
    match parse_i32(claims.sub.as_str()) {
        Some(id) => Ok(AuthUser { id, session_id }),
        None => Err(AuthError::InvalidSubject),
    }
}

/// Authenticates a request against the stored sessions.
pub fn authenticate(
    authorization: Option<&str>,
    secret: &[u8],
    sessions: &SessionStore,
    now: i64,
) -> (r: Result<AuthUser, AuthError>)
    requires
        sessions.wf(),
    ensures
        r == authentication(header_view(authorization), secret@, sessions@, now as int),
{
    match session_of_request(authorization, secret, now) {
        Ok((claims, session_id)) => authorize(&claims, session_id, sessions.find(session_id), now),
        Err(e) => Err(e),
    }
}

/// `token` was issued under `secret` at `now` for the user and the session
/// with the given id, whose text reads back as that id.
pub open spec fn is_session_token(
    token: Seq<char>,
    secret: Seq<u8>,
    user_id: i32,
    session_id: u128,
    now: int,
) -> bool {
    &&& is_token_for(token, secret, user_id, uuid_text(session_id), now)
    &&& uuid_parsed(uuid_text(session_id)) == Some(session_id)
}

/// Mints the bearer token for a session that has just been written: the
/// session id goes into the `sid` claim as UUID text. It succeeds whenever
/// the expiry instant fits the timestamp type.
pub fn mint_session_token(user_id: i32, session_id: u128, secret: &[u8], now: i64) -> (r: Result<
    String,
    IssueError,
>)
    ensures
        r is Ok <==> now + TOKEN_LIFETIME_SECS <= i64::MAX,
        match r {
            Ok(token) => is_session_token(token@, secret@, user_id, session_id, now as int),
            Err(e) => e == IssueError::TimestampOverflow,
        },
{
    let sid = format_uuid(session_id);
    create_jwt_at(user_id, sid.as_str(), secret, now)
}

/// A request that carries the token minted for a session is authenticated
/// as the session's user, as long as the token has not expired and the
/// session is stored and has not expired.
pub proof fn lemma_session_token_authenticates(
    token: Seq<char>,
    secret: Seq<u8>,
    user_id: i32,
    session_id: u128,
    now: int,
    later: int,
    sessions: Map<u128, SessionRecord>,
)
    requires
        is_session_token(token, secret, user_id, session_id, now),
        later < now + TOKEN_LIFETIME_SECS,
        sessions.dom().contains(session_id),
        sessions[session_id].expires_at > later,
    ensures
        authentication(Some("Bearer "@ + token), secret, sessions, later) == Ok::<
            AuthUser,
            AuthError,
        >(AuthUser { id: user_id, session_id }),
{
    reveal_strlit("Bearer ");
    let header = "Bearer "@ + token;
    assert(header.subrange(0, 7) =~= "Bearer "@);
    assert(header.subrange(7, header.len() as int) =~= token);
    lemma_parse_decimal(user_id);
    assert(verification(token, secret, later) == Ok::<ClaimsView, VerifyError>(
        claims_at(user_id, uuid_text(session_id), now),
    ));
}

/// Once a session is removed, no request is authenticated through it any
/// more, whatever its token: a logout revokes a token whose signature and
/// expiry are still good.
pub proof fn lemma_revoked_session_rejected(
    authorization_header: Option<Seq<char>>,
    secret: Seq<u8>,
    sessions: Map<u128, SessionRecord>,
    session_id: u128,
    now: int,
)
    requires
        requested_session(authorization_header, secret, now) matches Ok((_, id)) && id
            == session_id,
    ensures
        authentication(authorization_header, secret, sessions.remove(session_id), now) == Err::<
            AuthUser,
            AuthError,
        >(AuthError::SessionNotFound),
{
}

/// A request is authenticated only through a stored session that has not
/// expired.
pub proof fn lemma_authenticated_has_live_session(
    authorization_header: Option<Seq<char>>,
    secret: Seq<u8>,
    sessions: Map<u128, SessionRecord>,
    now: int,
)
    requires
        authentication(authorization_header, secret, sessions, now) is Ok,
    ensures
        sessions.dom().contains(authentication(authorization_header, secret, sessions, now)->Ok_0.session_id),
        sessions[authentication(authorization_header, secret, sessions, now)->Ok_0.session_id].expires_at
            > now,
{
}

} // verus!
