//! End-to-end tests of the envelope codec, run against the real outside
//! crates: base64, aes-gcm and the OS random source.
use aes_gcm::aead::{Aead, KeyInit};
use aes_gcm::{Aes256Gcm, Nonce};
use base64::engine::general_purpose;
use base64::Engine;

use rust_crypto::{decrypt, encrypt, generate_key, CryptoError};

#[test]
fn generated_key_is_44_chars_of_base64_for_32_bytes() {
    let key = generate_key();
    assert_eq!(key.len(), 44);
    let decoded = general_purpose::STANDARD.decode(&key).unwrap();
    assert_eq!(decoded.len(), 32);
}

#[test]
fn generated_keys_differ() {
    assert_ne!(generate_key(), generate_key());
}

#[test]
fn round_trip_hello_world() {
    let key = generate_key();
    let envelope = encrypt("hello world", &key).unwrap();
    let raw = general_purpose::STANDARD.decode(&envelope).unwrap();
    // nonce (12) + plaintext (11) + tag (16)
    assert_eq!(raw.len(), 39);
    assert_eq!(decrypt(&envelope, &key).unwrap(), "hello world");
}

#[test]
fn round_trip_empty_plaintext() {
    let key = generate_key();
    let envelope = encrypt("", &key).unwrap();
    let raw = general_purpose::STANDARD.decode(&envelope).unwrap();
    // nonce (12) + tag (16)
    assert_eq!(raw.len(), 28);
    assert_eq!(decrypt(&envelope, &key).unwrap(), "");
}

#[test]
fn round_trip_multibyte_plaintext() {
    let key = generate_key();
    let plaintext = "héllo ☃ γειά σου 你好";
    let envelope = encrypt(plaintext, &key).unwrap();
    assert_eq!(decrypt(&envelope, &key).unwrap(), plaintext);
}

#[test]
fn encryption_is_randomized() {
    let key = generate_key();
    let first = encrypt("same message", &key).unwrap();
    let second = encrypt("same message", &key).unwrap();
    assert_ne!(first, second);
    // Both still decrypt to the same plaintext.
    assert_eq!(decrypt(&first, &key).unwrap(), "same message");
    assert_eq!(decrypt(&second, &key).unwrap(), "same message");
}

#[test]
fn flipping_any_single_byte_fails_decryption() {
    let key = generate_key();
    let envelope = encrypt("tamper target", &key).unwrap();
    let raw = general_purpose::STANDARD.decode(&envelope).unwrap();
    for i in 0..raw.len() {
        let mut tampered = raw.clone();
        tampered[i] ^= 0x01;
        let tampered_envelope = general_purpose::STANDARD.encode(&tampered);
        assert_eq!(
            decrypt(&tampered_envelope, &key),
            Err(CryptoError::DecryptionFailed),
            "byte {i} should have been caught",
        );
    }
}

#[test]
fn truncated_ciphertext_fails_decryption() {
    let key = generate_key();
    let envelope = encrypt("soon to be cut short", &key).unwrap();
    let mut raw = general_purpose::STANDARD.decode(&envelope).unwrap();
    raw.pop();
    let truncated = general_purpose::STANDARD.encode(&raw);
    assert_eq!(decrypt(&truncated, &key), Err(CryptoError::DecryptionFailed));
}

#[test]
fn wrong_key_fails_decryption() {
    let key = generate_key();
    let other_key = generate_key();
    let envelope = encrypt("for the right key only", &key).unwrap();
    assert_eq!(
        decrypt(&envelope, &other_key),
        Err(CryptoError::DecryptionFailed)
    );
}

#[test]
fn key_of_wrong_length_is_rejected() {
    for n in [0usize, 16, 31, 33, 64] {
        let short_key = general_purpose::STANDARD.encode(vec![0u8; n]);
        assert_eq!(
            encrypt("payload", &short_key),
            Err(CryptoError::InvalidKeyLength),
            "encrypt accepted a {n}-byte key",
        );
        let envelope = encrypt("payload", &generate_key()).unwrap();
        assert_eq!(
            decrypt(&envelope, &short_key),
            Err(CryptoError::InvalidKeyLength),
            "decrypt accepted a {n}-byte key",
        );
    }
}

#[test]
fn envelope_shorter_than_nonce_is_rejected() {
    let key = generate_key();
    for n in [0usize, 1, 11] {
        let short_envelope = general_purpose::STANDARD.encode(vec![0u8; n]);
        assert_eq!(
            decrypt(&short_envelope, &key),
            Err(CryptoError::EncryptedDataTooShort),
            "decrypt accepted a {n}-byte envelope",
        );
    }
}

#[test]
fn malformed_base64_key_is_rejected() {
    assert_eq!(
        encrypt("payload", "not base64!!!"),
        Err(CryptoError::InvalidKeyFormat)
    );
    let key = generate_key();
    let envelope = encrypt("payload", &key).unwrap();
    assert_eq!(
        decrypt(&envelope, "not base64!!!"),
        Err(CryptoError::InvalidKeyFormat)
    );
}

#[test]
fn malformed_base64_envelope_is_rejected() {
    let key = generate_key();
    assert_eq!(
        decrypt("definitely %%% not base64", &key),
        Err(CryptoError::InvalidEncryptedData)
    );
}

#[test]
fn key_format_is_checked_before_the_envelope() {
    assert_eq!(
        decrypt("also *** not base64", "not base64!!!"),
        Err(CryptoError::InvalidKeyFormat)
    );
}

#[test]
fn envelope_length_is_checked_before_key_length() {
    let short_key = general_purpose::STANDARD.encode([0u8; 16]);
    let short_envelope = general_purpose::STANDARD.encode([0u8; 4]);
    assert_eq!(
        decrypt(&short_envelope, &short_key),
        Err(CryptoError::EncryptedDataTooShort)
    );
}

#[test]
fn non_utf8_plaintext_is_reported() {
    // Seal bytes that are not valid UTF-8, exactly as encrypt would frame
    // them, and feed the envelope to decrypt.
    let key_bytes = [7u8; 32];
    let nonce_bytes = [9u8; 12];
    let cipher = Aes256Gcm::new_from_slice(&key_bytes).unwrap();
    let nonce = Nonce::from_slice(&nonce_bytes);
    let sealed = cipher.encrypt(nonce, &[0xffu8, 0xfe, 0x01][..]).unwrap();
    let mut raw = nonce_bytes.to_vec();
    raw.extend(sealed);
    let envelope = general_purpose::STANDARD.encode(&raw);
    let key = general_purpose::STANDARD.encode(key_bytes);
    assert_eq!(
        decrypt(&envelope, &key),
        Err(CryptoError::InvalidUtf8Plaintext)
    );
}

#[test]
fn externally_sealed_utf8_envelope_decrypts() {
    // An envelope framed byte-for-byte by the outside cipher, not by encrypt,
    // must decrypt to the sealed text.
    let key_bytes = [42u8; 32];
    let nonce_bytes = [3u8; 12];
    let cipher = Aes256Gcm::new_from_slice(&key_bytes).unwrap();
    let nonce = Nonce::from_slice(&nonce_bytes);
    let sealed = cipher.encrypt(nonce, "framed outside".as_bytes()).unwrap();
    let mut raw = nonce_bytes.to_vec();
    raw.extend(sealed);
    let envelope = general_purpose::STANDARD.encode(&raw);
    let key = general_purpose::STANDARD.encode(key_bytes);
    assert_eq!(decrypt(&envelope, &key).unwrap(), "framed outside");
}

#[test]
fn error_messages_match_the_taxonomy() {
    assert_eq!(CryptoError::InvalidKeyFormat.message(), "Invalid key format");
    assert_eq!(CryptoError::InvalidKeyLength.message(), "Invalid key length");
    assert_eq!(
        CryptoError::InvalidEncryptedData.message(),
        "Invalid encrypted data"
    );
    assert_eq!(
        CryptoError::EncryptedDataTooShort.message(),
        "Encrypted data too short"
    );
    assert_eq!(CryptoError::EncryptionFailed.message(), "Encryption failed");
    assert_eq!(CryptoError::DecryptionFailed.message(), "Decryption failed");
    assert_eq!(
        CryptoError::InvalidUtf8Plaintext.message(),
        "Invalid UTF-8 plaintext"
    );
}
