use bier_core::cipher::{
    assemble_blob, decrypt, decrypt_metadata, decrypt_string, encrypt, encrypt_metadata,
    encrypt_string, encrypt_with_nonce, KEY_LEN, NONCE_LEN, TAG_LEN,
};
use bier_core::error::CryptoError;

const KEY_HEX: &str = "000102030405060708090a0b0c0d0e0f101112131415161718191a1b1c1d1e1f";
const OTHER_KEY_HEX: &str = "ff0102030405060708090a0b0c0d0e0f101112131415161718191a1b1c1d1e1f";

fn key() -> Vec<u8> {
    (0u8..32).collect()
}

#[test]
fn encrypt_then_decrypt_gives_plaintext() {
    for plaintext in [&b""[..], &b"a"[..], &b"hello world"[..], &[0u8; 1000][..]] {
        let blob = encrypt(plaintext, &key()).unwrap();
        assert_eq!(blob.len(), NONCE_LEN + plaintext.len() + TAG_LEN);
        assert_eq!(decrypt(&blob, &key()).unwrap(), plaintext);
    }
}

#[test]
fn ciphertext_is_not_the_plaintext() {
    let plaintext = b"sixteen byte msg";
    let blob = encrypt(plaintext, &key()).unwrap();
    assert_ne!(&blob[NONCE_LEN..NONCE_LEN + plaintext.len()], &plaintext[..]);
}

#[test]
fn known_answer_for_aes_256_gcm() {
    // AES-256-GCM with an all-zero key and nonce and an empty plaintext has
    // the tag 530f8afbc74536b9a963b4f1c4cb738b.
    let mut blob = vec![0u8; 12];
    blob.extend_from_slice(&hex::decode("530f8afbc74536b9a963b4f1c4cb738b").unwrap());
    assert_eq!(decrypt(&blob, &[0u8; 32]).unwrap(), Vec::<u8>::new());
    // One block of zeros under the same key and nonce.
    let mut blob = vec![0u8; 12];
    blob.extend_from_slice(
        &hex::decode("cea7403d4d606b6e074ec5d3baf39d18d0d1c8a799996bf0265b98b5d48ab919").unwrap(),
    );
    assert_eq!(decrypt(&blob, &[0u8; 32]).unwrap(), vec![0u8; 16]);
}

#[test]
fn flipping_any_bit_is_detected() {
    let plaintext = b"tamper me";
    let blob = encrypt(plaintext, &key()).unwrap();
    for byte in 0..blob.len() {
        for bit in 0..8 {
            let mut altered = blob.clone();
            altered[byte] ^= 1 << bit;
            assert_eq!(decrypt(&altered, &key()), Err(CryptoError::AuthenticationFailed));
        }
    }
}

#[test]
fn truncation_is_detected() {
    let blob = encrypt(b"some payload", &key()).unwrap();
    for len in 0..blob.len() {
        let expected = if len < NONCE_LEN {
            CryptoError::BlobTooShort
        } else {
            CryptoError::AuthenticationFailed
        };
        assert_eq!(decrypt(&blob[..len], &key()), Err(expected));
    }
}

#[test]
fn nonces_differ_between_calls() {
    let a = encrypt(b"same", &key()).unwrap();
    let b = encrypt(b"same", &key()).unwrap();
    assert_ne!(a, b);
    assert_ne!(a[..NONCE_LEN], b[..NONCE_LEN]);
}

#[test]
fn wrong_key_fails() {
    let blob = encrypt(b"secret", &key()).unwrap();
    let mut other = key();
    other[0] ^= 1;
    assert_eq!(decrypt(&blob, &other), Err(CryptoError::AuthenticationFailed));
}

#[test]
fn key_length_is_checked() {
    assert_eq!(KEY_LEN, 32);
    assert_eq!(encrypt(b"x", &[0u8; 31]), Err(CryptoError::InvalidKey));
    assert_eq!(encrypt(b"x", &[0u8; 33]), Err(CryptoError::InvalidKey));
    assert_eq!(encrypt(b"x", &[]), Err(CryptoError::InvalidKey));
    let blob = encrypt(b"x", &key()).unwrap();
    assert_eq!(decrypt(&blob, &[0u8; 16]), Err(CryptoError::InvalidKey));
}

#[test]
fn short_blob_is_reported_before_bad_key() {
    assert_eq!(decrypt(&[0u8; 11], &[0u8; 5]), Err(CryptoError::BlobTooShort));
    assert_eq!(decrypt(&[0u8; 12], &[0u8; 5]), Err(CryptoError::InvalidKey));
    assert_eq!(decrypt(&[0u8; 12], &key()), Err(CryptoError::AuthenticationFailed));
}

#[test]
fn assemble_puts_nonce_first() {
    assert_eq!(assemble_blob(&[1, 2], &[3, 4, 5]), vec![1, 2, 3, 4, 5]);
    assert_eq!(assemble_blob(&[], &[]), Vec::<u8>::new());
}

#[test]
fn metadata_round_trip_in_hex() {
    let json = "{\"id\":7,\"email\":\"alice@x.com\"}";
    let stored = encrypt_metadata(json, KEY_HEX).unwrap();
    assert_eq!(stored.len(), 2 * (NONCE_LEN + json.len() + TAG_LEN));
    assert!(stored.bytes().all(|b| b.is_ascii_digit() || (b'a'..=b'f').contains(&b)));
    assert_eq!(decrypt_metadata(&stored, KEY_HEX).unwrap(), json.as_bytes());
    // Upper-case hexadecimal is read as well.
    assert_eq!(decrypt_metadata(&stored.to_uppercase(), KEY_HEX).unwrap(), json.as_bytes());
}

#[test]
fn string_round_trip_in_hex() {
    let text = "Proost! \u{1f37b}";
    let stored = encrypt_string(text, KEY_HEX).unwrap();
    assert_eq!(decrypt_string(&stored, KEY_HEX).unwrap(), text);
    assert_eq!(hex::decode(&stored).unwrap().len(), NONCE_LEN + text.len() + TAG_LEN);
}

#[test]
fn hex_layer_errors() {
    let stored = encrypt_string("hi", KEY_HEX).unwrap();
    assert_eq!(encrypt_string("hi", "zz"), Err(CryptoError::InvalidKeyHex));
    assert_eq!(encrypt_string("hi", "abc"), Err(CryptoError::InvalidKeyHex));
    assert_eq!(encrypt_string("hi", "abcd"), Err(CryptoError::InvalidKey));
    assert_eq!(encrypt_metadata("hi", ""), Err(CryptoError::InvalidKey));
    assert_eq!(decrypt_string("xyz", KEY_HEX), Err(CryptoError::InvalidBlobHex));
    assert_eq!(decrypt_string("abc", KEY_HEX), Err(CryptoError::InvalidBlobHex));
    assert_eq!(decrypt_string("", KEY_HEX), Err(CryptoError::BlobTooShort));
    assert_eq!(decrypt_string("00112233445566778899aa", KEY_HEX), Err(CryptoError::BlobTooShort));
    assert_eq!(decrypt_string(&stored, "nothex"), Err(CryptoError::InvalidKeyHex));
    assert_eq!(decrypt_string(&stored, "00"), Err(CryptoError::InvalidKey));
    assert_eq!(decrypt_string(&stored, OTHER_KEY_HEX), Err(CryptoError::AuthenticationFailed));
    assert_eq!(decrypt_metadata(&stored[2..], KEY_HEX), Err(CryptoError::AuthenticationFailed));
}

#[test]
fn error_order_of_hex_decryption() {
    // The blob's text is looked at first, then its length, then the key.
    assert_eq!(decrypt_metadata("zz", "zz"), Err(CryptoError::InvalidBlobHex));
    assert_eq!(decrypt_metadata("00", "zz"), Err(CryptoError::BlobTooShort));
    assert_eq!(decrypt_metadata(&"00".repeat(12), "zz"), Err(CryptoError::InvalidKeyHex));
    assert_eq!(decrypt_metadata(&"00".repeat(12), "00"), Err(CryptoError::InvalidKey));
}

#[test]
fn decrypted_bytes_that_are_no_text() {
    let blob = encrypt(&[0xff, 0xfe, 0x00], &key()).unwrap();
    let stored = hex::encode(blob);
    assert_eq!(decrypt_metadata(&stored, KEY_HEX).unwrap(), vec![0xff, 0xfe, 0x00]);
    assert_eq!(decrypt_string(&stored, KEY_HEX), Err(CryptoError::InvalidText));
}

#[test]
fn crypto_error_messages() {
    assert_eq!(CryptoError::InvalidKeyHex.message(), "Invalid hex in ENCRYPTION_KEY");
    assert_eq!(CryptoError::InvalidBlobHex.message(), "Invalid hex in metadata");
    assert_eq!(CryptoError::BlobTooShort.message(), "Invalid metadata");
    assert_eq!(CryptoError::AuthenticationFailed.message(), "Decryption failed");
    assert_eq!(CryptoError::HashingFailed.message(), "Password hashing failed");
}

#[test]
fn known_answer_with_given_nonce() {
    // AES-256-GCM with an all-zero key and nonce.
    assert_eq!(
        hex::encode(encrypt_with_nonce(b"", &[0u8; 32], &[0u8; 12]).unwrap()),
        "000000000000000000000000530f8afbc74536b9a963b4f1c4cb738b"
    );
    assert_eq!(
        hex::encode(encrypt_with_nonce(&[0u8; 16], &[0u8; 32], &[0u8; 12]).unwrap()),
        "000000000000000000000000cea7403d4d606b6e074ec5d3baf39d18d0d1c8a799996bf0265b98b5d48ab919"
    );
}

#[test]
fn blob_begins_with_the_given_nonce() {
    let nonce: Vec<u8> = (100u8..112).collect();
    let blob = encrypt_with_nonce(b"payload", &key(), &nonce).unwrap();
    assert_eq!(&blob[..NONCE_LEN], &nonce[..]);
    assert_eq!(blob.len(), NONCE_LEN + 7 + TAG_LEN);
    assert_eq!(decrypt(&blob, &key()).unwrap(), b"payload");
    // The same nonce gives the same blob; another nonce another blob.
    assert_eq!(encrypt_with_nonce(b"payload", &key(), &nonce).unwrap(), blob);
    let other: Vec<u8> = (101u8..113).collect();
    let second = encrypt_with_nonce(b"payload", &key(), &other).unwrap();
    assert_ne!(second, blob);
    assert_ne!(second[NONCE_LEN..], blob[NONCE_LEN..]);
}

#[test]
fn given_nonce_and_key_are_checked() {
    assert_eq!(encrypt_with_nonce(b"x", &[0u8; 31], &[0u8; 12]), Err(CryptoError::InvalidKey));
    assert_eq!(encrypt_with_nonce(b"x", &[0u8; 31], &[0u8; 11]), Err(CryptoError::InvalidKey));
    assert_eq!(encrypt_with_nonce(b"x", &[0u8; 32], &[0u8; 11]), Err(CryptoError::InvalidNonce));
    assert_eq!(encrypt_with_nonce(b"x", &[0u8; 32], &[0u8; 13]), Err(CryptoError::InvalidNonce));
    assert_eq!(encrypt_with_nonce(b"x", &[0u8; 32], &[]), Err(CryptoError::InvalidNonce));
    assert_eq!(CryptoError::InvalidNonce.message(), "Invalid nonce");
}

#[test]
fn stored_blob_is_longer_than_its_plaintext_by_nonce_and_tag() {
    for text in ["", "a", "Proost \u{1f37b}"] {
        let stored = encrypt_string(text, KEY_HEX).unwrap();
        let plain = decrypt_metadata(&stored, KEY_HEX).unwrap();
        assert_eq!(stored.len() / 2, NONCE_LEN + plain.len() + TAG_LEN);
        let shown = decrypt_string(&stored, KEY_HEX).unwrap();
        assert_eq!(stored.len() / 2, NONCE_LEN + shown.len() + TAG_LEN);
    }
    // Nothing shorter than a nonce and a tag decrypts.
    for bytes in 12..28 {
        assert_eq!(
            decrypt_metadata(&"00".repeat(bytes), KEY_HEX),
            Err(CryptoError::AuthenticationFailed)
        );
    }
}
