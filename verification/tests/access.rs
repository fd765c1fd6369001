use bier_core::access::{
    authenticate, authorize, bearer_token, mint_session_token, session_of_request, AuthError,
};
use bier_core::auth::{create_jwt_at, session_claims, IssueError, TOKEN_LIFETIME_SECS};
use bier_core::definitions::request::AuthUser;
use bier_core::sessions::{
    session_expiry, SessionError, SessionRecord, SessionStore, SESSION_LIFETIME_SECS,
};

const SECRET: &[u8] = b"signing secret";
const NOW: i64 = 1_700_000_000;
const SESSION: u128 = 0x550e8400e29b41d4a716446655440000;

fn bearer(token: &str) -> String {
    format!("Bearer {}", token)
}

#[test]
fn bearer_prefix_is_exact() {
    assert_eq!(bearer_token("Bearer abc"), Some("abc"));
    assert_eq!(bearer_token("Bearer "), Some(""));
    assert_eq!(bearer_token("Bearer  x"), Some(" x"));
    assert_eq!(bearer_token("Bearer \u{e9}\u{1f37b}"), Some("\u{e9}\u{1f37b}"));
    assert_eq!(bearer_token("bearer abc"), None);
    assert_eq!(bearer_token("Bearer"), None);
    assert_eq!(bearer_token("Basic abc"), None);
    assert_eq!(bearer_token(""), None);
    assert_eq!(bearer_token(" Bearer abc"), None);
}

#[test]
fn session_store_create_find_revoke() {
    let mut store = SessionStore::new();
    assert!(store.find(1).is_none());
    assert_eq!(store.create(1, 7, Some("agent".to_string()), NOW), Ok(1));
    assert_eq!(store.create(2, 8, None, NOW + 1), Ok(2));
    let first = store.find(1).unwrap();
    assert_eq!(first.id, 1);
    assert_eq!(first.user_id, 7);
    assert_eq!(first.user_agent.as_deref(), Some("agent"));
    assert_eq!(first.created_at, NOW);
    assert_eq!(first.expires_at, NOW + 31_536_000);
    assert!(first.is_live(NOW + 31_535_999));
    assert!(!first.is_live(NOW + 31_536_000));
    assert_eq!(store.find(2).unwrap().user_agent, None);
    assert!(store.revoke(1));
    assert!(store.find(1).is_none());
    assert!(store.find(2).is_some());
    // Removing it again is no error and changes nothing.
    assert!(!store.revoke(1));
    assert!(store.find(2).is_some());
}

#[test]
fn session_store_refusals() {
    let mut store = SessionStore::new();
    store.create(1, 7, None, NOW).unwrap();
    assert_eq!(store.create(1, 8, None, NOW), Err(SessionError::IdInUse));
    assert_eq!(store.create(2, 8, None, i64::MAX), Err(SessionError::TimestampOverflow));
    assert_eq!(store.find(1).unwrap().user_id, 7);
    assert!(store.find(2).is_none());
    assert_eq!(SESSION_LIFETIME_SECS, 365 * 86_400);
    assert_eq!(session_expiry(0), Some(31_536_000));
    assert_eq!(session_expiry(i64::MAX - 31_536_000), Some(i64::MAX));
    assert_eq!(session_expiry(i64::MAX - 31_535_999), None);
}

#[test]
fn minted_token_authenticates() {
    let mut sessions = SessionStore::new();
    sessions.create(SESSION, 42, None, NOW).unwrap();
    let token = mint_session_token(42, SESSION, SECRET, NOW).unwrap();
    let header = bearer(&token);
    assert_eq!(
        authenticate(Some(&header), SECRET, &sessions, NOW + 100),
        Ok(AuthUser { id: 42, session_id: SESSION })
    );
    assert_eq!(
        authenticate(Some(&header), SECRET, &sessions, NOW + TOKEN_LIFETIME_SECS - 1),
        Ok(AuthUser { id: 42, session_id: SESSION })
    );
    assert_eq!(
        mint_session_token(42, SESSION, SECRET, i64::MAX),
        Err(IssueError::TimestampOverflow)
    );
}

#[test]
fn logout_revokes_a_valid_token() {
    let mut sessions = SessionStore::new();
    sessions.create(SESSION, 42, None, NOW).unwrap();
    sessions.create(SESSION + 1, 42, None, NOW).unwrap();
    let token = mint_session_token(42, SESSION, SECRET, NOW).unwrap();
    let other = mint_session_token(42, SESSION + 1, SECRET, NOW).unwrap();
    let header = bearer(&token);
    assert!(authenticate(Some(&header), SECRET, &sessions, NOW + 1).is_ok());
    sessions.revoke(SESSION);
    // Signature and expiry of the token are as good as before.
    assert!(session_of_request(Some(&header), SECRET, NOW + 1).is_ok());
    assert_eq!(
        authenticate(Some(&header), SECRET, &sessions, NOW + 1),
        Err(AuthError::SessionNotFound)
    );
    // The other session of the same user is untouched.
    assert!(authenticate(Some(&bearer(&other)), SECRET, &sessions, NOW + 1).is_ok());
}

#[test]
fn each_refusal_of_a_request() {
    let mut sessions = SessionStore::new();
    sessions.create(SESSION, 42, None, NOW).unwrap();
    let good = mint_session_token(42, SESSION, SECRET, NOW).unwrap();
    assert_eq!(authenticate(None, SECRET, &sessions, NOW), Err(AuthError::NoBearerToken));
    assert_eq!(authenticate(Some(&good), SECRET, &sessions, NOW), Err(AuthError::NoBearerToken));
    assert_eq!(
        authenticate(Some("Bearer nonsense"), SECRET, &sessions, NOW),
        Err(AuthError::InvalidToken)
    );
    assert_eq!(
        authenticate(Some(&bearer(&good)), b"wrong", &sessions, NOW),
        Err(AuthError::InvalidToken)
    );
    assert_eq!(
        authenticate(Some(&bearer(&good)), SECRET, &sessions, NOW + TOKEN_LIFETIME_SECS),
        Err(AuthError::TokenExpired)
    );
    let no_uuid = create_jwt_at(42, "not-a-uuid", SECRET, NOW).unwrap();
    assert_eq!(
        authenticate(Some(&bearer(&no_uuid)), SECRET, &sessions, NOW),
        Err(AuthError::InvalidSessionId)
    );
    let unknown = mint_session_token(42, SESSION + 9, SECRET, NOW).unwrap();
    assert_eq!(
        authenticate(Some(&bearer(&unknown)), SECRET, &sessions, NOW),
        Err(AuthError::SessionNotFound)
    );
    let partial = jsonwebtoken::encode(
        &jsonwebtoken::Header::default(),
        &{
            let mut map = serde_json::Map::new();
            map.insert("sub".to_string(), "42".into());
            map
        },
        &jsonwebtoken::EncodingKey::from_secret(SECRET),
    )
    .unwrap();
    assert_eq!(
        authenticate(Some(&bearer(&partial)), SECRET, &sessions, NOW),
        Err(AuthError::MalformedClaims)
    );
}

#[test]
fn expired_session_is_refused_though_token_is_good() {
    let mut sessions = SessionStore::new();
    // The session was created a year and a day before the token was issued.
    sessions.create(SESSION, 42, None, NOW - SESSION_LIFETIME_SECS - 86_400).unwrap();
    let token = mint_session_token(42, SESSION, SECRET, NOW).unwrap();
    assert_eq!(
        authenticate(Some(&bearer(&token)), SECRET, &sessions, NOW),
        Err(AuthError::SessionExpired)
    );
}

#[test]
fn subject_must_be_a_user_id() {
    let mut sessions = SessionStore::new();
    sessions.create(SESSION, 42, None, NOW).unwrap();
    let session = sessions.find(SESSION);
    let mut claims = session_claims(42, "x", NOW).unwrap();
    assert_eq!(
        authorize(&claims, SESSION, session, NOW),
        Ok(AuthUser { id: 42, session_id: SESSION })
    );
    claims.sub = "forty-two".to_string();
    assert_eq!(authorize(&claims, SESSION, session, NOW), Err(AuthError::InvalidSubject));
    claims.sub = "4294967296".to_string();
    assert_eq!(authorize(&claims, SESSION, session, NOW), Err(AuthError::InvalidSubject));
    claims.sub = "-1".to_string();
    assert_eq!(
        authorize(&claims, SESSION, session, NOW),
        Ok(AuthUser { id: -1, session_id: SESSION })
    );
    assert_eq!(authorize(&claims, SESSION, None, NOW), Err(AuthError::SessionNotFound));
}

#[test]
fn authorize_checks_session_before_subject() {
    let expired = SessionRecord {
        id: SESSION,
        user_id: 1,
        user_agent: None,
        expires_at: NOW,
        created_at: 0,
    };
    let mut claims = session_claims(1, "x", NOW).unwrap();
    claims.sub = "?".to_string();
    assert_eq!(authorize(&claims, SESSION, Some(&expired), NOW), Err(AuthError::SessionExpired));
    assert_eq!(authorize(&claims, SESSION, Some(&expired), NOW - 1), Err(AuthError::InvalidSubject));
}

#[test]
fn auth_errors_share_one_message() {
    for e in [
        AuthError::NoBearerToken,
        AuthError::InvalidToken,
        AuthError::MalformedClaims,
        AuthError::TokenExpired,
        AuthError::InvalidSessionId,
        AuthError::SessionNotFound,
        AuthError::SessionExpired,
        AuthError::InvalidSubject,
    ] {
        assert_eq!(e.message(), "Niet ingelogd");
    }
}

#[test]
fn session_id_of_request_is_read_in_any_uuid_form() {
    let token = create_jwt_at(1, "urn:uuid:550e8400-e29b-41d4-a716-446655440000", SECRET, NOW).unwrap();
    let (claims, id) = session_of_request(Some(&bearer(&token)), SECRET, NOW).unwrap();
    assert_eq!(id, SESSION);
    assert_eq!(claims.sub, "1");
}
