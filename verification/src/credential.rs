//! Password credentials: Argon2 hashes in the self-describing PHC string
//! format, made with a fresh random salt and checked by re-derivation.

use crate::error::CryptoError;
use crate::random::os_random_bytes;
use argon2::password_hash::{PasswordHash, PasswordHasher, PasswordVerifier, SaltString};
use argon2::Argon2;
use vstd::prelude::*;
use vstd::utf8::encode_utf8;

verus! {

/// Length in bytes of the random salt of a new credential.
pub const SALT_LEN: usize = 16;

/// The PHC string that Argon2, with its default parameters, derives from a
/// password and a salt.
pub uninterp spec fn argon2_phc(password: Seq<u8>, salt: Seq<u8>) -> Seq<char>;

/// How Argon2 judges a password against a stored credential: `None` where
/// the credential is no PHC string, else whether the re-derived digest is the
/// stored one.
pub uninterp spec fn argon2_verdict(password: Seq<u8>, credential: Seq<char>) -> Option<bool>;

/// `Argon2::default().hash_password` of `argon2`, with the salt handed over
/// through `SaltString::encode_b64`, rendered by `PasswordHash::to_string`.
/// With a salt of sixteen bytes the derivation refuses a password of more
/// than `u32::MAX` bytes and nothing else. Where it gives a credential,
/// verifying the same password against that credential succeeds.
#[verifier::external_body]
fn argon2_derive(password: &[u8], salt: &[u8]) -> (r: Option<String>)
    requires
        salt@.len() == SALT_LEN,
    ensures
        r is Some <==> password@.len() <= u32::MAX,
        r matches Some(credential) ==> {
            &&& credential@ == argon2_phc(password@, salt@)
            &&& argon2_verdict(password@, credential@) == Some(true)
        },
{
    let salt = SaltString::encode_b64(salt).ok()?;
    Argon2::default().hash_password(password, &salt).ok().map(|hash| hash.to_string())
}

/// `PasswordHash::new` of `password-hash` followed, where it parses, by
/// `Argon2::default().verify_password` of `argon2`.
#[verifier::external_body]
fn argon2_check(password: &[u8], credential: &str) -> (r: Option<bool>)
    ensures
        r == argon2_verdict(password@, credential@),
{
    match PasswordHash::new(credential) {
        Ok(parsed) => Some(Argon2::default().verify_password(password, &parsed).is_ok()),
        Err(_) => None,
    }
}

/// `credential` was derived from `password` and some salt of [`SALT_LEN`]
/// bytes.
pub open spec fn is_credential_of(credential: Seq<char>, password: Seq<char>) -> bool {
    exists|salt: Seq<u8>|
        salt.len() == SALT_LEN && credential == #[trigger] argon2_phc(encode_utf8(password), salt)
}

/// Whether `password` is accepted for the stored `credential`.
pub open spec fn password_accepted(password: Seq<char>, credential: Seq<char>) -> bool {
    argon2_verdict(encode_utf8(password), credential) == Some(true)
}

/// Whether a verdict of Argon2 lets the password through: only a match
/// does, a credential that could not be read never.
pub fn verdict_accepts(verdict: Option<bool>) -> (r: bool)
    ensures
        r == (verdict == Some(true)),
{
    match verdict {
        Some(matched) => matched,
        None => false,
    }
}

/// Derives the credential of `password` under the given salt of sixteen
/// bytes. Only a password of more than `u32::MAX` bytes is refused.
fn hash_password_with_salt(password: &str, salt: &[u8]) -> (r: Result<String, CryptoError>)
    requires
        salt@.len() == SALT_LEN,
    ensures
        r is Ok <==> encode_utf8(password@).len() <= u32::MAX,
        match r {
            Ok(credential) => {
                &&& credential@ == argon2_phc(encode_utf8(password@), salt@)
                &&& password_accepted(password@, credential@)
            },
            Err(e) => e == CryptoError::HashingFailed,
        },
{
    match argon2_derive(password.as_bytes(), salt) {
        Some(credential) => Ok(credential),
        None => Err(CryptoError::HashingFailed),
    }
}

/// Hashes a password for storage, under a fresh random salt. The result
/// verifies against the same password. Whatever the password holds, the
/// call fails only where the operating system gives no randomness, or on a
/// password of more than `u32::MAX` bytes.
pub fn hash_password(password: &str) -> (r: Result<String, CryptoError>)
    ensures
        match r {
            Ok(credential) => {
                &&& encode_utf8(password@).len() <= u32::MAX
                &&& is_credential_of(credential@, password@)
                &&& password_accepted(password@, credential@)
            },
            Err(e) => e == CryptoError::RandomSource || (e == CryptoError::HashingFailed
                && encode_utf8(password@).len() > u32::MAX),
        },
{
    match os_random_bytes(SALT_LEN) {
        Some(salt) => hash_password_with_salt(password, salt.as_slice()),
        None => Err(CryptoError::RandomSource),
    }
}

/// Checks a password against a stored credential. A credential that is no
/// well-formed PHC string is never accepted.
pub fn verify_password(password: &str, hash: &str) -> (r: bool)
    ensures
        r == password_accepted(password@, hash@),
{
    verdict_accepts(argon2_check(password.as_bytes(), hash))
}

/// A stored credential that cannot be read is accepted for no password.
pub proof fn lemma_malformed_credential_rejected(password: Seq<char>, credential: Seq<char>)
    requires
        argon2_verdict(encode_utf8(password), credential) is None,
    ensures
        !password_accepted(password, credential),
{
}

} // verus!
