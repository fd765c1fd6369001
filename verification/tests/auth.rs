use bier_core::auth::{
    check_payload, create_jwt, create_jwt_at, session_claims, verify_jwt, verify_jwt_at,
    IssueError, TokenPayload, VerifyError, TOKEN_LIFETIME_SECS,
};

const SECRET: &[u8] = b"test-secret";
const SID: &str = "550e8400-e29b-41d4-a716-446655440000";
const NOW: i64 = 1_700_000_000;

fn sign(claims: serde_json::Map<String, serde_json::Value>) -> String {
    jsonwebtoken::encode(
        &jsonwebtoken::Header::default(),
        &claims,
        &jsonwebtoken::EncodingKey::from_secret(SECRET),
    )
    .unwrap()
}

fn claims_map(entries: Vec<(&str, serde_json::Value)>) -> serde_json::Map<String, serde_json::Value> {
    let mut map = serde_json::Map::new();
    for (key, value) in entries {
        map.insert(key.to_string(), value);
    }
    map
}

#[test]
fn lifetime_is_one_year() {
    assert_eq!(TOKEN_LIFETIME_SECS, 365 * 24 * 60 * 60);
}

#[test]
fn claims_of_a_new_token() {
    let claims = session_claims(42, SID, NOW).unwrap();
    assert_eq!(claims.sub, "42");
    assert_eq!(claims.sid, SID);
    assert_eq!(claims.iat, NOW);
    assert_eq!(claims.exp, NOW + 31_536_000);
    assert!(session_claims(-3, "", 0).unwrap().sub == "-3");
    assert!(session_claims(1, SID, i64::MAX).is_none());
    assert!(session_claims(1, SID, i64::MAX - 31_536_000).is_some());
    assert!(session_claims(1, SID, i64::MAX - 31_535_999).is_none());
}

#[test]
fn issued_token_verifies_with_its_claims() {
    let token = create_jwt_at(42, SID, SECRET, NOW).unwrap();
    assert_eq!(token.split('.').count(), 3);
    let claims = verify_jwt_at(&token, SECRET, NOW + 10).unwrap();
    assert_eq!(claims.sub, "42");
    assert_eq!(claims.sid, SID);
    assert_eq!(claims.iat, NOW);
    assert_eq!(claims.exp, NOW + TOKEN_LIFETIME_SECS);
}

#[test]
fn token_is_a_standard_hs256_jwt() {
    let token = create_jwt_at(42, SID, SECRET, NOW).unwrap();
    let mut validation = jsonwebtoken::Validation::new(jsonwebtoken::Algorithm::HS256);
    validation.validate_exp = false;
    let data = jsonwebtoken::decode::<serde_json::Value>(
        &token,
        &jsonwebtoken::DecodingKey::from_secret(SECRET),
        &validation,
    )
    .unwrap();
    assert_eq!(data.header.alg, jsonwebtoken::Algorithm::HS256);
    assert_eq!(data.claims["sub"], "42");
    assert_eq!(data.claims["sid"], SID);
    assert_eq!(data.claims["iat"], NOW);
    assert_eq!(data.claims["exp"], NOW + TOKEN_LIFETIME_SECS);
}

#[test]
fn expiry_is_exclusive() {
    let token = create_jwt_at(1, SID, SECRET, NOW).unwrap();
    let exp = NOW + TOKEN_LIFETIME_SECS;
    assert!(verify_jwt_at(&token, SECRET, exp - 1).is_ok());
    assert_eq!(verify_jwt_at(&token, SECRET, exp).unwrap_err(), VerifyError::Expired);
    assert_eq!(verify_jwt_at(&token, SECRET, exp + 1).unwrap_err(), VerifyError::Expired);
    assert!(verify_jwt_at(&token, SECRET, i64::MIN).is_ok());
}

#[test]
fn wrong_secret_is_refused() {
    let token = create_jwt_at(1, SID, SECRET, NOW).unwrap();
    assert_eq!(verify_jwt_at(&token, b"other", NOW).unwrap_err(), VerifyError::InvalidToken);
    assert_eq!(verify_jwt_at(&token, b"", NOW).unwrap_err(), VerifyError::InvalidToken);
}

#[test]
fn altered_token_is_refused() {
    let token = create_jwt_at(1, SID, SECRET, NOW).unwrap();
    let parts: Vec<&str> = token.split('.').collect();
    let forged = sign(claims_map(vec![
        ("sub", "2".into()),
        ("sid", SID.into()),
        ("exp", (NOW + 10).into()),
        ("iat", NOW.into()),
    ]));
    let forged_parts: Vec<&str> = forged.split('.').collect();
    // The payload of another token under the signature of this one.
    let mixed = format!("{}.{}.{}", parts[0], forged_parts[1], parts[2]);
    assert_eq!(verify_jwt_at(&mixed, SECRET, NOW).unwrap_err(), VerifyError::InvalidToken);
    for garbage in ["", "a.b.c", "abc", "..", &token[1..], &token[..token.len() - 1]] {
        assert_eq!(verify_jwt_at(garbage, SECRET, NOW).unwrap_err(), VerifyError::InvalidToken);
    }
}

#[test]
fn other_algorithm_is_refused() {
    let mut header = jsonwebtoken::Header::default();
    header.alg = jsonwebtoken::Algorithm::HS512;
    let token = jsonwebtoken::encode(
        &header,
        &claims_map(vec![
            ("sub", "1".into()),
            ("sid", SID.into()),
            ("exp", (NOW + 10).into()),
            ("iat", NOW.into()),
        ]),
        &jsonwebtoken::EncodingKey::from_secret(SECRET),
    )
    .unwrap();
    assert_eq!(verify_jwt_at(&token, SECRET, NOW).unwrap_err(), VerifyError::InvalidToken);
}

#[test]
fn incomplete_claims_are_refused() {
    let all: Vec<(&str, serde_json::Value)> = vec![
        ("sub", "1".into()),
        ("sid", SID.into()),
        ("exp", (NOW + 10).into()),
        ("iat", NOW.into()),
    ];
    assert!(verify_jwt_at(&sign(claims_map(all.clone())), SECRET, NOW).is_ok());
    for missing in 0..4 {
        let mut entries = all.clone();
        entries.remove(missing);
        let token = sign(claims_map(entries));
        assert_eq!(
            verify_jwt_at(&token, SECRET, NOW).unwrap_err(),
            VerifyError::MalformedClaims
        );
    }
    // A claim of the wrong type counts as missing.
    let mut entries = all.clone();
    entries[0] = ("sub", 1.into());
    assert_eq!(
        verify_jwt_at(&sign(claims_map(entries)), SECRET, NOW).unwrap_err(),
        VerifyError::MalformedClaims
    );
    let mut entries = all;
    entries[2] = ("exp", "soon".into());
    assert_eq!(
        verify_jwt_at(&sign(claims_map(entries)), SECRET, NOW).unwrap_err(),
        VerifyError::MalformedClaims
    );
}

#[test]
fn incomplete_claims_are_reported_before_expiry() {
    let token = sign(claims_map(vec![("sub", "1".into()), ("exp", 5.into())]));
    assert_eq!(
        verify_jwt_at(&token, SECRET, NOW).unwrap_err(),
        VerifyError::MalformedClaims
    );
}

#[test]
fn payload_judgement() {
    let payload = |exp: Option<i64>| TokenPayload {
        sub: Some("9".to_string()),
        sid: Some(SID.to_string()),
        exp,
        iat: Some(1),
    };
    let claims = check_payload(payload(Some(100)), 99).unwrap();
    assert_eq!((claims.sub.as_str(), claims.exp, claims.iat), ("9", 100, 1));
    assert_eq!(check_payload(payload(Some(100)), 100).unwrap_err(), VerifyError::Expired);
    assert_eq!(check_payload(payload(None), 0).unwrap_err(), VerifyError::MalformedClaims);
    let no_sub = TokenPayload { sub: None, sid: Some(SID.to_string()), exp: Some(1), iat: Some(1) };
    assert_eq!(check_payload(no_sub, 0).unwrap_err(), VerifyError::MalformedClaims);
    let no_sid = TokenPayload { sub: Some("1".into()), sid: None, exp: Some(1), iat: Some(1) };
    assert_eq!(check_payload(no_sid, 0).unwrap_err(), VerifyError::MalformedClaims);
    let no_iat = TokenPayload { sub: Some("1".into()), sid: Some(SID.into()), exp: Some(1), iat: None };
    assert_eq!(check_payload(no_iat, 0).unwrap_err(), VerifyError::MalformedClaims);
}

#[test]
fn timestamp_overflow_is_reported() {
    assert_eq!(create_jwt_at(1, SID, SECRET, i64::MAX).unwrap_err(), IssueError::TimestampOverflow);
    assert_eq!(
        create_jwt_at(1, SID, SECRET, i64::MAX - TOKEN_LIFETIME_SECS + 1).unwrap_err(),
        IssueError::TimestampOverflow
    );
    assert!(create_jwt_at(1, SID, SECRET, i64::MAX - TOKEN_LIFETIME_SECS).is_ok());
}

#[test]
fn negative_timestamps_round_trip() {
    let token = create_jwt_at(-5, "s", SECRET, -40_000_000).unwrap();
    let claims = verify_jwt_at(&token, SECRET, -40_000_000).unwrap();
    assert_eq!(claims.sub, "-5");
    assert_eq!(claims.exp, -40_000_000 + TOKEN_LIFETIME_SECS);
    assert_eq!(claims.iat, -40_000_000);
}

#[test]
fn session_id_needs_no_escaping_by_the_caller() {
    let sid = "quote\" backslash\\ newline\n \u{1f37b}";
    let token = create_jwt_at(1, sid, SECRET, NOW).unwrap();
    assert_eq!(verify_jwt_at(&token, SECRET, NOW).unwrap().sid, sid);
}

#[test]
fn tokens_at_the_current_time() {
    let token = create_jwt(7, SID, SECRET).unwrap();
    let claims = verify_jwt(&token, SECRET).unwrap();
    assert_eq!(claims.sub, "7");
    assert_eq!(claims.exp - claims.iat, TOKEN_LIFETIME_SECS);
    assert!(claims.iat > 1_600_000_000);
    let old = create_jwt_at(7, SID, SECRET, 0).unwrap();
    assert_eq!(verify_jwt(&old, SECRET).unwrap_err(), VerifyError::Expired);
}

#[test]
fn issuing_succeeds_whenever_the_expiry_fits() {
    for now in [i64::MIN, -1, 0, 1, NOW, i64::MAX - TOKEN_LIFETIME_SECS] {
        for secret in [&b""[..], &b"k"[..], &[0u8; 200][..]] {
            let token = create_jwt_at(i32::MIN, "", secret, now).unwrap();
            let claims = verify_jwt_at(&token, secret, now).unwrap();
            assert_eq!(claims.sub, "-2147483648");
            assert_eq!(claims.iat, now);
            assert_eq!(claims.exp, now + TOKEN_LIFETIME_SECS);
        }
    }
    assert!(create_jwt(1, SID, b"").is_ok());
}
