//! Error values shared by the cryptographic components.

use vstd::prelude::*;

verus! {

/// Why a cryptographic operation was refused.
#[derive(Clone, Copy, Debug, PartialEq, Eq, Structural)]
pub enum CryptoError {
    /// The key is not written as hexadecimal text.
    InvalidKeyHex,
    /// The key is not 32 bytes long.
    InvalidKey,
    /// The nonce is not 12 bytes long.
    InvalidNonce,
    /// The plaintext is longer than AES-GCM accepts.
    PlaintextTooLong,
    /// The operating system gave no randomness for the nonce.
    RandomSource,
    /// The stored blob is not written as hexadecimal text.
    InvalidBlobHex,
    /// The blob is shorter than a nonce.
    BlobTooShort,
    /// The blob was not produced under this key, or was altered since.
    AuthenticationFailed,
    /// The decrypted bytes are no UTF-8 text.
    InvalidText,
    /// Argon2 refused to derive a credential.
    HashingFailed,
}

impl CryptoError {
    /// A short description for logs; it holds nothing of the key or the data.
    pub fn message(&self) -> (r: &'static str)
        ensures
            r@ == match *self {
                CryptoError::InvalidKeyHex => "Invalid hex in ENCRYPTION_KEY"@,
                CryptoError::InvalidKey => "Invalid key"@,
                CryptoError::InvalidNonce => "Invalid nonce"@,
                CryptoError::PlaintextTooLong => "Encryption failed"@,
                CryptoError::RandomSource => "No randomness available"@,
                CryptoError::InvalidBlobHex => "Invalid hex in metadata"@,
                CryptoError::BlobTooShort => "Invalid metadata"@,
                CryptoError::AuthenticationFailed => "Decryption failed"@,
                CryptoError::InvalidText => "Decrypted data is not text"@,
                CryptoError::HashingFailed => "Password hashing failed"@,
            },
    {
        match self {
            CryptoError::InvalidKeyHex => "Invalid hex in ENCRYPTION_KEY",
            CryptoError::InvalidKey => "Invalid key",
            CryptoError::InvalidNonce => "Invalid nonce",
            CryptoError::PlaintextTooLong => "Encryption failed",
            CryptoError::RandomSource => "No randomness available",
            CryptoError::InvalidBlobHex => "Invalid hex in metadata",
            CryptoError::BlobTooShort => "Invalid metadata",
            CryptoError::AuthenticationFailed => "Decryption failed",
            CryptoError::InvalidText => "Decrypted data is not text",
            CryptoError::HashingFailed => "Password hashing failed",
        }
    }
}

} // verus!
