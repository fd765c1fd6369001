use bier_core::validation::{
    validate_email, validate_password, validate_registration, validate_username, ValidationError,
};

#[test]
fn username_needs_three_bytes_after_trim() {
    assert_eq!(validate_username("abc"), Ok(()));
    assert_eq!(validate_username("  ab  "), Err(ValidationError::UsernameTooShort));
    assert_eq!(validate_username(""), Err(ValidationError::UsernameTooShort));
    // Two characters of two bytes each count as four bytes.
    assert_eq!(validate_username("\u{e9}\u{e9}"), Ok(()));
}

#[test]
fn email_needs_at_and_five_bytes() {
    assert_eq!(validate_email("a@b.c"), Ok(()));
    assert_eq!(validate_email("a@bc"), Err(ValidationError::InvalidEmail));
    assert_eq!(validate_email("abcdef"), Err(ValidationError::InvalidEmail));
    assert_eq!(validate_email("@@@@@"), Ok(()));
}

#[test]
fn password_needs_eight_bytes() {
    assert_eq!(validate_password("1234567"), Err(ValidationError::PasswordTooShort));
    assert_eq!(validate_password("12345678"), Ok(()));
}

#[test]
fn registration_reports_first_failure() {
    assert_eq!(validate_registration("alice", "alice@x.com", "password123"), Ok(()));
    assert_eq!(
        validate_registration("al", "bad", "short"),
        Err(ValidationError::UsernameTooShort)
    );
    assert_eq!(
        validate_registration("alice", "bad", "short"),
        Err(ValidationError::InvalidEmail)
    );
    assert_eq!(
        validate_registration("alice", "alice@x.com", "short"),
        Err(ValidationError::PasswordTooShort)
    );
}

#[test]
fn validation_messages() {
    assert_eq!(
        ValidationError::UsernameTooShort.message(),
        "Gebruikersnaam moet minimaal 3 tekens zijn"
    );
    assert_eq!(ValidationError::InvalidEmail.message(), "Ongeldig e-mailadres");
    assert_eq!(
        ValidationError::PasswordTooShort.message(),
        "Wachtwoord moet minimaal 8 tekens zijn"
    );
}
