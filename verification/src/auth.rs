//! Bearer tokens: HS256-signed claims that bind a user to a server-side
//! session. Signing and signature checking are those of `jsonwebtoken`; the
//! claims, their lifetime and the expiry rule are decided here.

use crate::clock::unix_now;
use crate::ids::{decimal, i32_to_decimal};
use jsonwebtoken::{decode, encode, Algorithm, DecodingKey, EncodingKey, Header, Validation};
use serde_json::Value;
use vstd::prelude::*;

verus! {

/// Lifetime of a bearer token in seconds: 365 days.
pub const TOKEN_LIFETIME_SECS: i64 = 31_536_000;

/// The claims that a bearer token carries.
#[derive(Debug)]
pub struct Claims {
    /// The user's id, in decimal.
    pub sub: String,
    /// The id of the session that the token is bound to.
    pub sid: String,
    /// When the token expires, in seconds since the Unix epoch.
    pub exp: i64,
    /// When the token was issued.
    pub iat: i64,
}

/// A set of claims as plain values.
pub struct ClaimsView {
    pub sub: Seq<char>,
    pub sid: Seq<char>,
    pub exp: int,
    pub iat: int,
}

impl View for Claims {
    type V = ClaimsView;

    open spec fn view(&self) -> ClaimsView {
        ClaimsView { sub: self.sub@, sid: self.sid@, exp: self.exp as int, iat: self.iat as int }
    }
}

/// What a token with a good signature holds of the four claims: each is
/// `None` where it is absent or of the wrong JSON type.
pub struct TokenPayload {
    pub sub: Option<String>,
    pub sid: Option<String>,
    pub exp: Option<i64>,
    pub iat: Option<i64>,
}

/// A payload as plain values: `sub`, `sid`, `exp`, `iat`.
pub type PayloadView = (Option<Seq<char>>, Option<Seq<char>>, Option<int>, Option<int>);

impl View for TokenPayload {
    type V = PayloadView;

    open spec fn view(&self) -> PayloadView {
        (
            match self.sub {
                Some(s) => Some(s@),
                None => None,
            },
            match self.sid {
                Some(s) => Some(s@),
                None => None,
            },
            match self.exp {
                Some(t) => Some(t as int),
                None => None,
            },
            match self.iat {
                Some(t) => Some(t as int),
                None => None,
            },
        )
    }
}

/// Why no token was issued.
#[derive(Clone, Copy, Debug, PartialEq, Eq, Structural)]
pub enum IssueError {
    /// The expiry instant does not fit the timestamp type.
    TimestampOverflow,
    /// The signing library refused. For HS256 under a secret it has no
    /// reason to, so no call of this library is known to return this.
    SigningFailed,
}

/// Why a token was not honoured.
#[derive(Clone, Copy, Debug, PartialEq, Eq, Structural)]
pub enum VerifyError {
    /// The token is malformed or its signature does not verify.
    InvalidToken,
    /// The signature verifies but the claims are incomplete.
    MalformedClaims,
    /// The token's own expiry instant has passed.
    Expired,
}

/// The compact token that HS256 signing under `secret` gives for the four
/// claims.
pub uninterp spec fn hs256_token(
    sub: Seq<char>,
    sid: Seq<char>,
    exp: int,
    iat: int,
    secret: Seq<u8>,
) -> Seq<char>;

/// What `token` holds of the four claims if it is well formed and its HS256
/// signature verifies under `secret`; `None` otherwise.
pub uninterp spec fn hs256_payload(token: Seq<char>, secret: Seq<u8>) -> Option<PayloadView>;

/// `jsonwebtoken::encode` with the default header (HS256) and a key made by
/// `EncodingKey::from_secret`, on a JSON object of the four claims. With
/// such a key and header it refuses nothing, and the token that comes out
/// decodes under the same secret to the same claims.
#[verifier::external_body]
fn hs256_encode(sub: &str, sid: &str, exp: i64, iat: i64, secret: &[u8]) -> (r: Option<String>)
    ensures
        r is Some,
        r matches Some(token) ==> {
            &&& token@ == hs256_token(sub@, sid@, exp as int, iat as int, secret@)
            &&& hs256_payload(token@, secret@) == Some(
                (Some(sub@), Some(sid@), Some(exp as int), Some(iat as int)),
            )
        },
{
    let mut claims = serde_json::Map::new();
    claims.insert("sub".to_owned(), Value::from(sub));
    claims.insert("sid".to_owned(), Value::from(sid));
    claims.insert("exp".to_owned(), Value::from(exp));
    claims.insert("iat".to_owned(), Value::from(iat));
    encode(&Header::default(), &claims, &EncodingKey::from_secret(secret)).ok()
}

/// `jsonwebtoken::decode` for HS256 with a key made by
/// `DecodingKey::from_secret`, with the library's own expiry check switched
/// off and no claim required, so that the outcome depends on the token and
/// the secret alone. The claims are read from the JSON object by
/// `Value::get`, `as_str` and `as_i64`.
#[verifier::external_body]
fn hs256_decode(token: &str, secret: &[u8]) -> (r: Option<TokenPayload>)
    ensures
        match r {
            Some(payload) => hs256_payload(token@, secret@) == Some(payload@),
            None => hs256_payload(token@, secret@) is None,
        },
{
    let mut validation = Validation::new(Algorithm::HS256);
    validation.validate_exp = false;
    validation.required_spec_claims.clear();
    let data = decode::<Value>(token, &DecodingKey::from_secret(secret), &validation).ok()?;
    Some(TokenPayload {
        sub: data.claims.get("sub").and_then(Value::as_str).map(str::to_owned),
        sid: data.claims.get("sid").and_then(Value::as_str).map(str::to_owned),
        exp: data.claims.get("exp").and_then(Value::as_i64),
        iat: data.claims.get("iat").and_then(Value::as_i64),
    })
}

/// The claims of a token issued at `now` for a user and a session.
pub open spec fn claims_at(user_id: i32, session_id: Seq<char>, now: int) -> ClaimsView {
    ClaimsView {
        sub: decimal(user_id as int),
        sid: session_id,
        exp: now + TOKEN_LIFETIME_SECS,
        iat: now,
    }
}

/// The payload that holds exactly the claims `c`.
pub open spec fn payload_of(c: ClaimsView) -> PayloadView {
    (Some(c.sub), Some(c.sid), Some(c.exp), Some(c.iat))
}

/// The claims of a payload, where all four are there.
pub open spec fn complete_claims(p: PayloadView) -> Option<ClaimsView> {
    match p {
        (Some(sub), Some(sid), Some(exp), Some(iat)) => Some(ClaimsView { sub, sid, exp, iat }),
        _ => None,
    }
}

/// What a payload is worth at `now`: its claims where they are complete and
/// `exp` lies after `now`.
pub open spec fn payload_verdict(p: PayloadView, now: int) -> Result<ClaimsView, VerifyError> {
    match complete_claims(p) {
        None => Err(VerifyError::MalformedClaims),
        Some(c) => if c.exp > now {
            Ok(c)
        } else {
            Err(VerifyError::Expired)
        },
    }
}

/// What verifying `token` under `secret` at `now` gives.
pub open spec fn verification(token: Seq<char>, secret: Seq<u8>, now: int) -> Result<
    ClaimsView,
    VerifyError,
> {
    match hs256_payload(token, secret) {
        None => Err(VerifyError::InvalidToken),
        Some(p) => payload_verdict(p, now),
    }
}

/// `token` was issued under `secret` at `now` for the user and the session.
pub open spec fn is_token_for(
    token: Seq<char>,
    secret: Seq<u8>,
    user_id: i32,
    session_id: Seq<char>,
    now: int,
) -> bool {
    let c = claims_at(user_id, session_id, now);
    &&& token == hs256_token(c.sub, c.sid, c.exp, c.iat, secret)
    &&& hs256_payload(token, secret) == Some(payload_of(c))
}

/// Builds the claims of a token issued at `now`; `None` where the expiry
/// instant would not fit.
pub fn session_claims(user_id: i32, session_id: &str, now: i64) -> (r: Option<Claims>)
    ensures
        match r {
            Some(c) => c@ == claims_at(user_id, session_id@, now as int),
            None => now + TOKEN_LIFETIME_SECS > i64::MAX,
        },
{
    match now.checked_add(TOKEN_LIFETIME_SECS) {
        Some(exp) => Some(
            Claims { sub: i32_to_decimal(user_id), sid: session_id.to_owned(), exp, iat: now },
        ),
        None => None,
    }
}

/// Issues a bearer token at the instant `now`: claims `sub` = the user's id,
/// `sid` = the session's id, `iat` = `now`, `exp` = `now` plus 365 days,
/// signed with HS256 under `secret`. It succeeds whenever the expiry instant
/// fits the timestamp type.
pub fn create_jwt_at(user_id: i32, session_id: &str, secret: &[u8], now: i64) -> (r: Result<
    String,
    IssueError,
>)
    ensures
        r is Ok <==> now + TOKEN_LIFETIME_SECS <= i64::MAX,
        match r {
            Ok(token) => is_token_for(token@, secret@, user_id, session_id@, now as int),
            Err(e) => e == IssueError::TimestampOverflow,
        },
{
    let claims = match session_claims(user_id, session_id, now) {
        Some(claims) => claims,
        None => {
            return Err(IssueError::TimestampOverflow);
        },
    };
    match hs256_encode(claims.sub.as_str(), claims.sid.as_str(), claims.exp, claims.iat, secret) {
        Some(token) => Ok(token),
        None => Err(IssueError::SigningFailed),
    }
}

/// `r` is what issuing a token at the instant `now` gives: a token for the
/// user and the session where the expiry instant fits, the overflow error
/// where it does not.
pub open spec fn is_issued_at(
    r: Result<String, IssueError>,
    secret: Seq<u8>,
    user_id: i32,
    session_id: Seq<char>,
    now: int,
) -> bool {
    match r {
        Ok(token) => now + TOKEN_LIFETIME_SECS <= i64::MAX && is_token_for(
            token@,
            secret,
            user_id,
            session_id,
            now,
        ),
        Err(e) => e == IssueError::TimestampOverflow && now + TOKEN_LIFETIME_SECS > i64::MAX,
    }
}

/// Issues a bearer token for a user and a session at the current time: the
/// result is what [`create_jwt_at`] gives for the instant that the clock
/// shows, so it fails only where that instant plus 365 days does not fit.
pub fn create_jwt(user_id: i32, session_id: &str, secret: &[u8]) -> (r: Result<String, IssueError>)
    ensures
        exists|now: int| #[trigger] is_issued_at(r, secret@, user_id, session_id@, now),
{
    let now = unix_now();
    let r = create_jwt_at(user_id, session_id, secret, now);
    assert(is_issued_at(r, secret@, user_id, session_id@, now as int));
    r
}

/// Judges the payload of a token whose signature is good: all four claims
/// must be there, and `exp` must lie after `now`.
pub fn check_payload(payload: TokenPayload, now: i64) -> (r: Result<Claims, VerifyError>)
    ensures
        match r {
            Ok(c) => payload_verdict(payload@, now as int) == Ok::<ClaimsView, VerifyError>(c@),
            Err(e) => payload_verdict(payload@, now as int) == Err::<ClaimsView, VerifyError>(e),
        },
{
    match (payload.sub, payload.sid, payload.exp, payload.iat) {
        (Some(sub), Some(sid), Some(exp), Some(iat)) => {
            if exp > now {
                Ok(Claims { sub, sid, exp, iat })
            } else {
                Err(VerifyError::Expired)
            }
        },
        _ => Err(VerifyError::MalformedClaims),
    }
}

/// Verifies a bearer token at the instant `now`: the signature under
/// `secret`, the presence of the claims, and `exp > now`. Whether the
/// session still exists is not looked at here.
pub fn verify_jwt_at(token: &str, secret: &[u8], now: i64) -> (r: Result<Claims, VerifyError>)
    ensures
        match r {
            Ok(c) => verification(token@, secret@, now as int) == Ok::<ClaimsView, VerifyError>(
                c@,
            ),
            Err(e) => verification(token@, secret@, now as int) == Err::<ClaimsView, VerifyError>(
                e,
            ),
        },
{
    match hs256_decode(token, secret) {
        Some(payload) => check_payload(payload, now),
        None => Err(VerifyError::InvalidToken),
    }
}

/// Verifies a bearer token at the current time.
pub fn verify_jwt(token: &str, secret: &[u8]) -> (r: Result<Claims, VerifyError>)
    ensures
        exists|now: int|
            match r {
                Ok(c) => #[trigger] verification(token@, secret@, now) == Ok::<
                    ClaimsView,
                    VerifyError,
                >(c@),
                Err(e) => verification(token@, secret@, now) == Err::<ClaimsView, VerifyError>(e),
            },
{
    let now = unix_now();
    verify_jwt_at(token, secret, now)
}

/// A token issued at `now` verifies at any `later` instant before its
/// expiry, with the claims it was issued for, and is refused as expired from
/// its expiry on.
pub proof fn lemma_issued_token_verifies(
    token: Seq<char>,
    secret: Seq<u8>,
    user_id: i32,
    session_id: Seq<char>,
    now: int,
    later: int,
)
    requires
        is_token_for(token, secret, user_id, session_id, now),
    ensures
        later < now + TOKEN_LIFETIME_SECS ==> verification(token, secret, later) == Ok::<
            ClaimsView,
            VerifyError,
        >(claims_at(user_id, session_id, now)),
        later >= now + TOKEN_LIFETIME_SECS ==> verification(token, secret, later) == Err::<
            ClaimsView,
            VerifyError,
        >(VerifyError::Expired),
{
}

} // verus!
