use bier_core::tokens::{
    ConsumeError, ExpiringToken, IssueTokenError, TokenKind, TokenStore, RESET_TTL_SECS,
    VERIFY_TTL_SECS,
};

const NOW: i64 = 1_700_000_000;

#[test]
fn lifetimes_by_kind() {
    assert_eq!(VERIFY_TTL_SECS, 24 * 60 * 60);
    assert_eq!(RESET_TTL_SECS, 60 * 60);
    assert_eq!(TokenKind::Verify.ttl_secs(), 86_400);
    assert_eq!(TokenKind::Reset.ttl_secs(), 3_600);
    assert!(TokenKind::Verify.ttl_secs() > TokenKind::Reset.ttl_secs());
    assert_eq!(TokenKind::Verify.label(), "VERIFY");
    assert_eq!(TokenKind::Reset.label(), "RESET");
}

#[test]
fn issue_stores_token_with_expiry() {
    let mut store = TokenStore::new();
    assert_eq!(store.len(), 0);
    assert_eq!(store.issue(10, 1, TokenKind::Verify, NOW), Ok(10));
    assert_eq!(store.issue(11, 1, TokenKind::Reset, NOW), Ok(11));
    assert_eq!(store.len(), 2);
    assert_eq!(
        store.get(10),
        Some(ExpiringToken { id: 10, user_id: 1, kind: TokenKind::Verify, expires_at: NOW + 86_400 })
    );
    assert_eq!(
        store.get(11),
        Some(ExpiringToken { id: 11, user_id: 1, kind: TokenKind::Reset, expires_at: NOW + 3_600 })
    );
    assert_eq!(store.get(12), None);
}

#[test]
fn issue_refuses_used_id_and_overflow() {
    let mut store = TokenStore::new();
    store.issue(10, 1, TokenKind::Verify, NOW).unwrap();
    assert_eq!(store.issue(10, 2, TokenKind::Reset, NOW), Err(IssueTokenError::IdInUse));
    assert_eq!(store.issue(10, 2, TokenKind::Reset, i64::MAX), Err(IssueTokenError::IdInUse));
    assert_eq!(
        store.issue(11, 2, TokenKind::Reset, i64::MAX),
        Err(IssueTokenError::TimestampOverflow)
    );
    assert_eq!(
        store.issue(11, 2, TokenKind::Reset, i64::MAX - 3_599),
        Err(IssueTokenError::TimestampOverflow)
    );
    assert_eq!(store.issue(11, 2, TokenKind::Reset, i64::MAX - 3_600), Ok(11));
    assert_eq!(store.len(), 2);
    assert_eq!(store.get(10).unwrap().user_id, 1);
}

#[test]
fn consume_returns_user_and_removes_token() {
    let mut store = TokenStore::new();
    store.issue(10, 7, TokenKind::Verify, NOW).unwrap();
    assert_eq!(store.consume(10, TokenKind::Verify, NOW + 5), Ok(7));
    assert_eq!(store.get(10), None);
    assert_eq!(store.len(), 0);
}

#[test]
fn token_is_single_use() {
    let mut store = TokenStore::new();
    store.issue(10, 7, TokenKind::Verify, NOW).unwrap();
    store.issue(20, 7, TokenKind::Reset, NOW).unwrap();
    let first = store.consume(10, TokenKind::Verify, NOW);
    let second = store.consume(10, TokenKind::Verify, NOW);
    assert_eq!(first, Ok(7));
    assert_eq!(second, Err(ConsumeError::TokenInvalidOrExpired));
    assert_eq!(store.consume(20, TokenKind::Reset, NOW), Ok(7));
    assert_eq!(store.consume(20, TokenKind::Reset, NOW), Err(ConsumeError::TokenInvalidOrExpired));
    assert_eq!(store.consume(20, TokenKind::Verify, NOW), Err(ConsumeError::TokenInvalidOrExpired));
}

#[test]
fn kinds_are_not_confused() {
    let mut store = TokenStore::new();
    store.issue(10, 7, TokenKind::Reset, NOW).unwrap();
    store.issue(11, 7, TokenKind::Verify, NOW).unwrap();
    assert_eq!(store.consume(10, TokenKind::Verify, NOW), Err(ConsumeError::TokenInvalidOrExpired));
    assert_eq!(store.consume(11, TokenKind::Reset, NOW), Err(ConsumeError::TokenInvalidOrExpired));
    // A refused attempt leaves the tokens usable for their own kind.
    assert_eq!(store.len(), 2);
    assert_eq!(store.consume(10, TokenKind::Reset, NOW), Ok(7));
    assert_eq!(store.consume(11, TokenKind::Verify, NOW), Ok(7));
}

#[test]
fn expiry_boundary() {
    let mut store = TokenStore::new();
    store.issue(10, 7, TokenKind::Reset, NOW).unwrap();
    let expires_at = NOW + RESET_TTL_SECS;
    // One second past the expiry, and at the expiry itself: refused.
    assert_eq!(
        store.consume(10, TokenKind::Reset, expires_at + 1),
        Err(ConsumeError::TokenInvalidOrExpired)
    );
    assert_eq!(
        store.consume(10, TokenKind::Reset, expires_at),
        Err(ConsumeError::TokenInvalidOrExpired)
    );
    assert_eq!(store.len(), 1);
    // One second before the expiry: accepted.
    assert_eq!(store.consume(10, TokenKind::Reset, expires_at - 1), Ok(7));
}

#[test]
fn usable_rule_on_one_token() {
    let token = ExpiringToken { id: 5, user_id: 1, kind: TokenKind::Verify, expires_at: 100 };
    assert!(token.is_usable(5, TokenKind::Verify, 99));
    assert!(!token.is_usable(5, TokenKind::Verify, 100));
    assert!(!token.is_usable(5, TokenKind::Verify, 101));
    assert!(!token.is_usable(5, TokenKind::Reset, 99));
    assert!(!token.is_usable(6, TokenKind::Verify, 99));
}

#[test]
fn reset_removes_all_reset_tokens_of_the_user() {
    let mut store = TokenStore::new();
    store.issue(1, 7, TokenKind::Reset, NOW).unwrap();
    store.issue(2, 7, TokenKind::Reset, NOW + 10).unwrap();
    store.issue(3, 7, TokenKind::Verify, NOW).unwrap();
    store.issue(4, 8, TokenKind::Reset, NOW).unwrap();
    store.issue(5, 7, TokenKind::Reset, NOW - 10_000).unwrap();
    assert_eq!(store.consume(2, TokenKind::Reset, NOW + 20), Ok(7));
    // The stale reset links of the user are gone, the expired one too.
    assert_eq!(store.get(1), None);
    assert_eq!(store.get(2), None);
    assert_eq!(store.get(5), None);
    assert_eq!(store.consume(1, TokenKind::Reset, NOW), Err(ConsumeError::TokenInvalidOrExpired));
    // The verification token and the other user's token stay.
    assert!(store.get(3).is_some());
    assert!(store.get(4).is_some());
    assert_eq!(store.len(), 2);
    assert_eq!(store.consume(4, TokenKind::Reset, NOW), Ok(8));
}

#[test]
fn verify_removes_only_the_token_itself() {
    let mut store = TokenStore::new();
    store.issue(1, 7, TokenKind::Verify, NOW).unwrap();
    store.issue(2, 7, TokenKind::Verify, NOW).unwrap();
    store.issue(3, 7, TokenKind::Reset, NOW).unwrap();
    assert_eq!(store.consume(1, TokenKind::Verify, NOW), Ok(7));
    assert_eq!(store.len(), 2);
    assert!(store.get(2).is_some());
    assert!(store.get(3).is_some());
}

#[test]
fn removing_reset_tokens_directly() {
    let mut store = TokenStore::new();
    store.remove_reset_tokens(1);
    assert_eq!(store.len(), 0);
    store.issue(1, 1, TokenKind::Reset, NOW).unwrap();
    store.issue(2, 2, TokenKind::Reset, NOW).unwrap();
    store.issue(3, 1, TokenKind::Reset, NOW).unwrap();
    store.issue(4, 1, TokenKind::Verify, NOW).unwrap();
    store.remove_reset_tokens(1);
    assert_eq!(store.len(), 2);
    assert!(store.get(2).is_some());
    assert!(store.get(4).is_some());
    store.remove_reset_tokens(1);
    assert_eq!(store.len(), 2);
}

#[test]
fn unknown_token_is_refused() {
    let mut store = TokenStore::new();
    assert_eq!(store.consume(1, TokenKind::Verify, NOW), Err(ConsumeError::TokenInvalidOrExpired));
    store.issue(1, 1, TokenKind::Verify, NOW).unwrap();
    assert_eq!(store.consume(2, TokenKind::Verify, NOW), Err(ConsumeError::TokenInvalidOrExpired));
    assert_eq!(store.len(), 1);
}
