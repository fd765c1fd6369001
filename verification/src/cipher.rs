//! Authenticated encryption of stored blobs (AES-256-GCM).
//!
//! A blob is a 12-byte nonce followed by the ciphertext with its 16-byte tag;
//! in storage it is written as hexadecimal text. The nonce is drawn inside
//! [`encrypt`], so no caller can use one twice.

use crate::encoding::{hex_decode, hex_decoding, hex_encode, hex_encoding, is_hex, lemma_hex_round_trip};
use crate::error::CryptoError;
use crate::random::os_random_bytes;
use aes_gcm::aead::{Aead, KeyInit};
use aes_gcm::{Aes256Gcm, Key, Nonce};
use vstd::prelude::*;
use vstd::slice::{slice_subrange, slice_to_vec};
use vstd::utf8::{
    decode_utf8, decode_utf8_encode_utf8, encode_utf8, encode_utf8_decode_utf8,
    encode_utf8_valid_utf8, valid_utf8,
};

verus! {

/// Length of an AES-256 key in bytes.
pub const KEY_LEN: usize = 32;

/// Length of the nonce at the head of a blob.
pub const NONCE_LEN: usize = 12;

/// Length of the authentication tag at the end of a blob.
pub const TAG_LEN: usize = 16;

/// The longest plaintext that AES-GCM encrypts, in bytes.
pub const MAX_PLAINTEXT_LEN: u64 = 0x10_0000_0000;

/// The ciphertext, tag included, that AES-256-GCM gives for a plaintext
/// under a key and a nonce, without associated data.
pub uninterp spec fn aes256gcm_sealed(key: Seq<u8>, nonce: Seq<u8>, plaintext: Seq<u8>) -> Seq<u8>;

/// The plaintext that AES-256-GCM recovers from a ciphertext under a key and
/// a nonce, or `None` where the tag does not authenticate it.
pub uninterp spec fn aes256gcm_opened(key: Seq<u8>, nonce: Seq<u8>, ciphertext: Seq<u8>) -> Option<
    Seq<u8>,
>;

/// `Aes256Gcm::encrypt` of `aes-gcm`, on a cipher made from `key`. It fails
/// exactly on a plaintext of more than 2^36 bytes. The ciphertext is the
/// plaintext's length plus the tag, and decrypting it under the same key and
/// nonce gives the plaintext back.
#[verifier::external_body]
fn aead_seal(key: &[u8], nonce: &[u8], plaintext: &[u8]) -> (r: Option<Vec<u8>>)
    requires
        key@.len() == KEY_LEN,
        nonce@.len() == NONCE_LEN,
    ensures
        match r {
            Some(ciphertext) => {
                &&& plaintext@.len() <= MAX_PLAINTEXT_LEN
                &&& ciphertext@ == aes256gcm_sealed(key@, nonce@, plaintext@)
                &&& ciphertext@.len() == plaintext@.len() + TAG_LEN
                &&& aes256gcm_opened(key@, nonce@, ciphertext@) == Some(plaintext@)
            },
            None => plaintext@.len() > MAX_PLAINTEXT_LEN,
        },
{
    let cipher = Aes256Gcm::new(Key::<Aes256Gcm>::from_slice(key));
    cipher.encrypt(Nonce::from_slice(nonce), plaintext).ok()
}

/// `Aes256Gcm::decrypt` of `aes-gcm`, on a cipher made from `key`. It fails
/// where the tag does not authenticate the ciphertext; a plaintext that comes
/// out is the ciphertext's length less the tag.
#[verifier::external_body]
fn aead_open(key: &[u8], nonce: &[u8], ciphertext: &[u8]) -> (r: Option<Vec<u8>>)
    requires
        key@.len() == KEY_LEN,
        nonce@.len() == NONCE_LEN,
    ensures
        match r {
            Some(plaintext) => {
                &&& aes256gcm_opened(key@, nonce@, ciphertext@) == Some(plaintext@)
                &&& ciphertext@.len() == plaintext@.len() + TAG_LEN
            },
            None => aes256gcm_opened(key@, nonce@, ciphertext@) is None,
        },
{
    let cipher = Aes256Gcm::new(Key::<Aes256Gcm>::from_slice(key));
    cipher.decrypt(Nonce::from_slice(nonce), ciphertext).ok()
}

/// `String::from_utf8` of std: the text that the bytes encode, or `None`
/// where they are not UTF-8.
#[verifier::external_body]
fn string_from_utf8(bytes: Vec<u8>) -> (r: Option<String>)
    ensures
        match r {
            Some(text) => valid_utf8(bytes@) && text@ == decode_utf8(bytes@),
            None => !valid_utf8(bytes@),
        },
{
    String::from_utf8(bytes).ok()
}

/// The nonce at the head of a blob.
pub open spec fn blob_nonce(blob: Seq<u8>) -> Seq<u8> {
    blob.subrange(0, NONCE_LEN as int)
}

/// What follows the nonce in a blob: ciphertext and tag.
pub open spec fn blob_ciphertext(blob: Seq<u8>) -> Seq<u8> {
    blob.subrange(NONCE_LEN as int, blob.len() as int)
}

/// `blob` is a nonce followed by the encryption of `plaintext` under `key`
/// and that nonce.
pub open spec fn is_encryption_of(blob: Seq<u8>, key: Seq<u8>, plaintext: Seq<u8>) -> bool {
    &&& blob.len() == NONCE_LEN + plaintext.len() + TAG_LEN
    &&& blob_ciphertext(blob) == aes256gcm_sealed(key, blob_nonce(blob), plaintext)
    &&& aes256gcm_opened(key, blob_nonce(blob), blob_ciphertext(blob)) == Some(plaintext)
}

/// What decrypting `blob` under `key` gives.
pub open spec fn decryption(blob: Seq<u8>, key: Seq<u8>) -> Result<Seq<u8>, CryptoError> {
    if blob.len() < NONCE_LEN {
        Err(CryptoError::BlobTooShort)
    } else if key.len() != KEY_LEN {
        Err(CryptoError::InvalidKey)
    } else {
        match aes256gcm_opened(key, blob_nonce(blob), blob_ciphertext(blob)) {
            Some(plaintext) => Ok(plaintext),
            None => Err(CryptoError::AuthenticationFailed),
        }
    }
}

/// The bytes that a hexadecimal text stands for.
pub open spec fn bytes_of_hex(text: Seq<char>) -> Seq<u8> {
    hex_decoding(encode_utf8(text))
}

/// What decrypting the hexadecimal blob `blob_hex` under the hexadecimal key
/// `key_hex` gives.
pub open spec fn hex_decryption(blob_hex: Seq<char>, key_hex: Seq<char>) -> Result<
    Seq<u8>,
    CryptoError,
> {
    if !is_hex(encode_utf8(blob_hex)) {
        Err(CryptoError::InvalidBlobHex)
    } else if bytes_of_hex(blob_hex).len() < NONCE_LEN {
        Err(CryptoError::BlobTooShort)
    } else if !is_hex(encode_utf8(key_hex)) {
        Err(CryptoError::InvalidKeyHex)
    } else {
        decryption(bytes_of_hex(blob_hex), bytes_of_hex(key_hex))
    }
}

/// What decrypting a hexadecimal blob to text gives.
pub open spec fn text_decryption(blob_hex: Seq<char>, key_hex: Seq<char>) -> Result<
    Seq<char>,
    CryptoError,
> {
    match hex_decryption(blob_hex, key_hex) {
        Ok(bytes) => if valid_utf8(bytes) {
            Ok(decode_utf8(bytes))
        } else {
            Err(CryptoError::InvalidText)
        },
        Err(e) => Err(e),
    }
}

/// Puts a nonce in front of a ciphertext.
pub fn assemble_blob(nonce: &[u8], ciphertext: &[u8]) -> (blob: Vec<u8>)
    ensures
        blob@ == nonce@ + ciphertext@,
{
    let mut blob = slice_to_vec(nonce);
    let mut rest = slice_to_vec(ciphertext);
    blob.append(&mut rest);
    blob
}

/// What encrypting `plaintext` under `key` and a given nonce gives: the
/// nonce followed by the sealed plaintext, unless the key is not 32 bytes,
/// the nonce not 12 bytes or the plaintext longer than AES-GCM accepts.
pub open spec fn encryption_with(plaintext: Seq<u8>, key: Seq<u8>, nonce: Seq<u8>) -> Result<
    Seq<u8>,
    CryptoError,
> {
    if key.len() != KEY_LEN {
        Err(CryptoError::InvalidKey)
    } else if nonce.len() != NONCE_LEN {
        Err(CryptoError::InvalidNonce)
    } else if plaintext.len() > MAX_PLAINTEXT_LEN {
        Err(CryptoError::PlaintextTooLong)
    } else {
        Ok(nonce + aes256gcm_sealed(key, nonce, plaintext))
    }
}

/// Encrypts `plaintext` under `key` and the given nonce, and returns the
/// nonce followed by the ciphertext and its tag.
///
/// A nonce must never be used twice under one key. [`encrypt`] draws a
/// fresh one for every call and is the function to use; this one is for a
/// caller that has a nonce that is certain to be new.
pub fn encrypt_with_nonce(plaintext: &[u8], key: &[u8], nonce: &[u8]) -> (r: Result<
    Vec<u8>,
    CryptoError,
>)
    ensures
        match r {
            Ok(blob) => {
                &&& encryption_with(plaintext@, key@, nonce@) == Ok::<Seq<u8>, CryptoError>(blob@)
                &&& blob_nonce(blob@) == nonce@
                &&& is_encryption_of(blob@, key@, plaintext@)
            },
            Err(e) => encryption_with(plaintext@, key@, nonce@) == Err::<Seq<u8>, CryptoError>(e),
        },
{
    if key.len() != KEY_LEN {
        return Err(CryptoError::InvalidKey);
    }
    if nonce.len() != NONCE_LEN {
        return Err(CryptoError::InvalidNonce);
    }
    match aead_seal(key, nonce, plaintext) {
        Some(ciphertext) => {
            let blob = assemble_blob(nonce, ciphertext.as_slice());
            proof {
                assert(blob_nonce(blob@) =~= nonce@);
                assert(blob_ciphertext(blob@) =~= ciphertext@);
            }
            Ok(blob)
        },
        None => Err(CryptoError::PlaintextTooLong),
    }
}

/// Encrypts `plaintext` under the 32-byte `key` with a fresh random nonce,
/// and returns the nonce followed by the ciphertext and its tag.
///
/// A key of another length is refused as `InvalidKey`. With a good key the
/// call fails only where the operating system gives no randomness
/// (`RandomSource`) or the plaintext exceeds 2^36 bytes (`PlaintextTooLong`).
pub fn encrypt(plaintext: &[u8], key: &[u8]) -> (r: Result<Vec<u8>, CryptoError>)
    ensures
        match r {
            Ok(blob) => {
                &&& key@.len() == KEY_LEN
                &&& plaintext@.len() <= MAX_PLAINTEXT_LEN
                &&& is_encryption_of(blob@, key@, plaintext@)
            },
            Err(e) => {
                ||| e == CryptoError::InvalidKey && key@.len() != KEY_LEN
                ||| e == CryptoError::RandomSource && key@.len() == KEY_LEN
                ||| e == CryptoError::PlaintextTooLong && key@.len() == KEY_LEN && plaintext@.len()
                    > MAX_PLAINTEXT_LEN
            },
        },
{
    if key.len() != KEY_LEN {
        return Err(CryptoError::InvalidKey);
    }
    match os_random_bytes(NONCE_LEN) {
        Some(nonce) => encrypt_with_nonce(plaintext, key, nonce.as_slice()),
        None => Err(CryptoError::RandomSource),
    }
}

/// Decrypts a blob made by [`encrypt`]: splits off the nonce, authenticates
/// the rest under `key` and returns the plaintext. A blob shorter than a
/// nonce, a key of the wrong length and a blob that does not authenticate are
/// each refused; no part of an unauthenticated plaintext is returned.
pub fn decrypt(blob: &[u8], key: &[u8]) -> (r: Result<Vec<u8>, CryptoError>)
    ensures
        match r {
            Ok(plaintext) => {
                &&& decryption(blob@, key@) == Ok::<Seq<u8>, CryptoError>(plaintext@)
                &&& blob@.len() == NONCE_LEN + plaintext@.len() + TAG_LEN
            },
            Err(e) => decryption(blob@, key@) == Err::<Seq<u8>, CryptoError>(e),
        },
{
    if blob.len() < NONCE_LEN {
        return Err(CryptoError::BlobTooShort);
    }
    if key.len() != KEY_LEN {
        return Err(CryptoError::InvalidKey);
    }
    let nonce = slice_subrange(blob, 0, NONCE_LEN);
    let ciphertext = slice_subrange(blob, NONCE_LEN, blob.len());
    match aead_open(key, nonce, ciphertext) {
        Some(plaintext) => Ok(plaintext),
        None => Err(CryptoError::AuthenticationFailed),
    }
}

/// Encrypts a text under a key given as hexadecimal text and returns the
/// blob as hexadecimal text, the form in which it is stored.
pub fn encrypt_string(text: &str, key_hex: &str) -> (r: Result<String, CryptoError>)
    ensures
        match r {
            Ok(blob_hex) => {
                &&& is_hex(encode_utf8(key_hex@))
                &&& bytes_of_hex(key_hex@).len() == KEY_LEN
                &&& blob_hex@ == hex_encoding(bytes_of_hex(blob_hex@))
                &&& is_encryption_of(
                    bytes_of_hex(blob_hex@),
                    bytes_of_hex(key_hex@),
                    encode_utf8(text@),
                )
            },
            Err(e) => {
                ||| e == CryptoError::InvalidKeyHex && !is_hex(encode_utf8(key_hex@))
                ||| e == CryptoError::InvalidKey && is_hex(encode_utf8(key_hex@)) && bytes_of_hex(
                    key_hex@,
                ).len() != KEY_LEN
                ||| e == CryptoError::RandomSource && is_hex(encode_utf8(key_hex@)) && bytes_of_hex(
                    key_hex@,
                ).len() == KEY_LEN
                ||| e == CryptoError::PlaintextTooLong && is_hex(encode_utf8(key_hex@))
                    && bytes_of_hex(key_hex@).len() == KEY_LEN && encode_utf8(text@).len()
                    > MAX_PLAINTEXT_LEN
            },
        },
{
    let key = match hex_decode(key_hex.as_bytes()) {
        Some(key) => key,
        None => {
            return Err(CryptoError::InvalidKeyHex);
        },
    };
    match encrypt(text.as_bytes(), key.as_slice()) {
        Ok(blob) => {
            let blob_hex = hex_encode(blob.as_slice());
            proof {
                lemma_hex_round_trip(blob@);
            }
            Ok(blob_hex)
        },
        Err(e) => Err(e),
    }
}

/// Encrypts the serialised metadata of a user under a key given as
/// hexadecimal text; the result is the hexadecimal blob that is stored for
/// the user and handed to the client.
pub fn encrypt_metadata(metadata_json: &str, key_hex: &str) -> (r: Result<String, CryptoError>)
    ensures
        match r {
            Ok(blob_hex) => {
                &&& is_hex(encode_utf8(key_hex@))
                &&& bytes_of_hex(key_hex@).len() == KEY_LEN
                &&& blob_hex@ == hex_encoding(bytes_of_hex(blob_hex@))
                &&& is_encryption_of(
                    bytes_of_hex(blob_hex@),
                    bytes_of_hex(key_hex@),
                    encode_utf8(metadata_json@),
                )
            },
            Err(e) => {
                ||| e == CryptoError::InvalidKeyHex && !is_hex(encode_utf8(key_hex@))
                ||| e == CryptoError::InvalidKey && is_hex(encode_utf8(key_hex@)) && bytes_of_hex(
                    key_hex@,
                ).len() != KEY_LEN
                ||| e == CryptoError::RandomSource && is_hex(encode_utf8(key_hex@)) && bytes_of_hex(
                    key_hex@,
                ).len() == KEY_LEN
                ||| e == CryptoError::PlaintextTooLong && is_hex(encode_utf8(key_hex@))
                    && bytes_of_hex(key_hex@).len() == KEY_LEN && encode_utf8(
                    metadata_json@,
                ).len() > MAX_PLAINTEXT_LEN
            },
        },
{
    encrypt_string(metadata_json, key_hex)
}

/// Decrypts a blob stored as hexadecimal text under a key given as
/// hexadecimal text. The checks come in this order: the blob's text, its
/// length, the key's text, the key's length, the authentication.
pub fn decrypt_metadata(blob_hex: &str, key_hex: &str) -> (r: Result<Vec<u8>, CryptoError>)
    ensures
        match r {
            Ok(plaintext) => {
                &&& hex_decryption(blob_hex@, key_hex@) == Ok::<Seq<u8>, CryptoError>(plaintext@)
                &&& bytes_of_hex(blob_hex@).len() == NONCE_LEN + plaintext@.len() + TAG_LEN
            },
            Err(e) => hex_decryption(blob_hex@, key_hex@) == Err::<Seq<u8>, CryptoError>(e),
        },
{
    let blob = match hex_decode(blob_hex.as_bytes()) {
        Some(blob) => blob,
        None => {
            return Err(CryptoError::InvalidBlobHex);
        },
    };
    if blob.len() < NONCE_LEN {
        return Err(CryptoError::BlobTooShort);
    }
    let key = match hex_decode(key_hex.as_bytes()) {
        Some(key) => key,
        None => {
            return Err(CryptoError::InvalidKeyHex);
        },
    };
    decrypt(blob.as_slice(), key.as_slice())
}

/// Decrypts a blob stored as hexadecimal text to the text it holds.
pub fn decrypt_string(blob_hex: &str, key_hex: &str) -> (r: Result<String, CryptoError>)
    ensures
        match r {
            Ok(text) => {
                &&& text_decryption(blob_hex@, key_hex@) == Ok::<Seq<char>, CryptoError>(text@)
                &&& bytes_of_hex(blob_hex@).len() == NONCE_LEN + encode_utf8(text@).len()
                    + TAG_LEN
            },
            Err(e) => text_decryption(blob_hex@, key_hex@) == Err::<Seq<char>, CryptoError>(e),
        },
{
    match decrypt_metadata(blob_hex, key_hex) {
        Ok(bytes) => {
            proof {
                if valid_utf8(bytes@) {
                    decode_utf8_encode_utf8(bytes@);
                }
            }
            match string_from_utf8(bytes) {
                Some(text) => Ok(text),
                None => Err(CryptoError::InvalidText),
            }
        },
        Err(e) => Err(e),
    }
}

/// Decrypting what [`encrypt`] returned, under the same key, gives the
/// plaintext back.
pub proof fn lemma_decrypt_inverts_encrypt(blob: Seq<u8>, key: Seq<u8>, plaintext: Seq<u8>)
    requires
        key.len() == KEY_LEN,
        is_encryption_of(blob, key, plaintext),
    ensures
        decryption(blob, key) == Ok::<Seq<u8>, CryptoError>(plaintext),
{
}

/// Two encryptions of one plaintext under one key with different nonces
/// both succeed and give different blobs, each beginning with its nonce.
pub proof fn lemma_distinct_nonces_distinct_blobs(
    plaintext: Seq<u8>,
    key: Seq<u8>,
    first_nonce: Seq<u8>,
    second_nonce: Seq<u8>,
)
    requires
        key.len() == KEY_LEN,
        plaintext.len() <= MAX_PLAINTEXT_LEN,
        first_nonce.len() == NONCE_LEN,
        second_nonce.len() == NONCE_LEN,
        first_nonce != second_nonce,
    ensures
        encryption_with(plaintext, key, first_nonce) is Ok,
        encryption_with(plaintext, key, second_nonce) is Ok,
        encryption_with(plaintext, key, first_nonce) != encryption_with(
            plaintext,
            key,
            second_nonce,
        ),
        blob_nonce(encryption_with(plaintext, key, first_nonce)->Ok_0) == first_nonce,
        blob_nonce(encryption_with(plaintext, key, second_nonce)->Ok_0) == second_nonce,
{
    let first = first_nonce + aes256gcm_sealed(key, first_nonce, plaintext);
    let second = second_nonce + aes256gcm_sealed(key, second_nonce, plaintext);
    assert(blob_nonce(first) =~= first_nonce);
    assert(blob_nonce(second) =~= second_nonce);
}

/// Decrypting the text that [`encrypt_string`] returned, under the same key,
/// gives the text back.
pub proof fn lemma_decrypt_string_inverts_encrypt_string(
    blob_hex: Seq<char>,
    key_hex: Seq<char>,
    text: Seq<char>,
)
    requires
        is_hex(encode_utf8(key_hex)),
        bytes_of_hex(key_hex).len() == KEY_LEN,
        blob_hex == hex_encoding(bytes_of_hex(blob_hex)),
        is_encryption_of(bytes_of_hex(blob_hex), bytes_of_hex(key_hex), encode_utf8(text)),
    ensures
        text_decryption(blob_hex, key_hex) == Ok::<Seq<char>, CryptoError>(text),
{
    lemma_hex_round_trip(bytes_of_hex(blob_hex));
    encode_utf8_valid_utf8(text);
    encode_utf8_decode_utf8(text);
}

} // verus!
