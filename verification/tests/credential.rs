use bier_core::credential::{hash_password, verdict_accepts, verify_password};

#[test]
fn hashed_password_verifies() {
    let credential = hash_password("password123").unwrap();
    assert!(credential.starts_with("$argon2id$v=19$m=19456,t=2,p=1$"));
    assert!(verify_password("password123", &credential));
}

#[test]
fn wrong_password_is_refused() {
    let credential = hash_password("password123").unwrap();
    assert!(!verify_password("password124", &credential));
    assert!(!verify_password("", &credential));
    assert!(!verify_password("PASSWORD123", &credential));
}

#[test]
fn salts_differ_between_calls() {
    let a = hash_password("same password").unwrap();
    let b = hash_password("same password").unwrap();
    assert_ne!(a, b);
    assert!(verify_password("same password", &a));
    assert!(verify_password("same password", &b));
}

#[test]
fn empty_and_long_passwords_hash() {
    let empty = hash_password("").unwrap();
    assert!(verify_password("", &empty));
    assert!(!verify_password("x", &empty));
    let long = "x".repeat(10_000);
    let credential = hash_password(&long).unwrap();
    assert!(verify_password(&long, &credential));
}

#[test]
fn malformed_credential_is_refused() {
    for stored in ["", "password123", "$argon2id$", "$argon2id$v=19$m=19456,t=2,p=1$", "not a hash"] {
        assert!(!verify_password("password123", stored));
        assert!(!verify_password("", stored));
    }
}

#[test]
fn known_credential_verifies() {
    // A credential made by the Argon2 reference parameters of this library.
    let credential = hash_password("hunter22").unwrap();
    let copy = credential.clone();
    assert!(verify_password("hunter22", &copy));
    // A credential cut short no longer verifies.
    assert!(!verify_password("hunter22", &credential[..credential.len() - 2]));
}

#[test]
fn verdicts() {
    assert!(verdict_accepts(Some(true)));
    assert!(!verdict_accepts(Some(false)));
    assert!(!verdict_accepts(None));
}

#[test]
fn hashing_does_not_depend_on_the_content() {
    for password in ["", " ", "\u{1f37b}\u{e9}\u{0}", "pass\nword", "$argon2id$v=19$", "\u{10ffff}"] {
        let credential = hash_password(password).unwrap();
        assert!(credential.starts_with("$argon2id$"));
        assert_eq!(credential.matches('$').count(), 5);
        assert!(verify_password(password, &credential));
    }
}
