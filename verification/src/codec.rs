//! The envelope codec: key generation, authenticated encryption, and
//! decryption of the transportable envelope.
//!
//! An envelope is `nonce (12 bytes) || ciphertext-with-tag`, base64-encoded
//! with the standard padded alphabet.  Keys are 32 raw bytes, carried as
//! base64 text.  The round-trip law is stated on `decrypt`: every envelope
//! that `encrypt` can produce under a key decrypts, under that key, to the
//! exact plaintext that was sealed.
use vstd::prelude::*;

use vstd::slice::slice_to_vec;
use vstd::utf8::decode_utf8;
use vstd::utf8::encode_utf8;
use vstd::utf8::valid_utf8;

use crate::primitives::aead_decrypt;
use crate::primitives::aead_decrypt_post;
use crate::primitives::aead_encrypt;
use crate::primitives::aead_open;
use crate::primitives::aead_seal;
use crate::primitives::b64_decode;
use crate::primitives::b64_encode;
use crate::primitives::b64_len;
use crate::primitives::b64_of;
use crate::primitives::b64_parse;
use crate::primitives::random_bytes;
use crate::primitives::utf8_to_string;

verus! {

/// The error taxonomy of the codec.  Every failure is recoverable by the
/// caller; no partial result accompanies any of these.
#[derive(Clone, Copy, Debug, PartialEq, Eq, Structural)]
pub enum CryptoError {
    /// The key text is not valid base64.
    InvalidKeyFormat,
    /// The decoded key is not exactly 32 bytes.
    InvalidKeyLength,
    /// The envelope text is not valid base64.
    InvalidEncryptedData,
    /// The decoded envelope is shorter than the 12-byte nonce.
    EncryptedDataTooShort,
    /// The cipher refused the plaintext (its length exceeds the mode's bound).
    EncryptionFailed,
    /// The authentication tag did not verify: tampering, truncation, or a
    /// wrong key.  Deliberately not distinguished further.
    DecryptionFailed,
    /// The decrypted bytes are not valid UTF-8.
    InvalidUtf8Plaintext,
}

impl CryptoError {
    /// The caller-facing text of this error.
    pub open spec fn message_spec(self) -> Seq<char> {
        match self {
            CryptoError::InvalidKeyFormat => "Invalid key format"@,
            CryptoError::InvalidKeyLength => "Invalid key length"@,
            CryptoError::InvalidEncryptedData => "Invalid encrypted data"@,
            CryptoError::EncryptedDataTooShort => "Encrypted data too short"@,
            CryptoError::EncryptionFailed => "Encryption failed"@,
            CryptoError::DecryptionFailed => "Decryption failed"@,
            CryptoError::InvalidUtf8Plaintext => "Invalid UTF-8 plaintext"@,
        }
    }

    /// Returns the caller-facing text of this error.
    pub fn message(&self) -> (result: String)
        ensures
            result@ == self.message_spec(),
    {
        match self {
            CryptoError::InvalidKeyFormat => "Invalid key format".to_owned(),
            CryptoError::InvalidKeyLength => "Invalid key length".to_owned(),
            CryptoError::InvalidEncryptedData => "Invalid encrypted data".to_owned(),
            CryptoError::EncryptedDataTooShort => "Encrypted data too short".to_owned(),
            CryptoError::EncryptionFailed => "Encryption failed".to_owned(),
            CryptoError::DecryptionFailed => "Decryption failed".to_owned(),
            CryptoError::InvalidUtf8Plaintext => "Invalid UTF-8 plaintext".to_owned(),
        }
    }
}

/// The text is base64 that decodes to exactly 32 bytes: a well-formed key.
pub open spec fn valid_key_text(text: Seq<char>) -> bool {
    b64_parse(text) is Some && key_bytes(text).len() == 32
}

/// The bytes a parse produced, or the empty sequence where it refused.
pub open spec fn bytes_or_empty(parsed: Option<Seq<u8>>) -> Seq<u8> {
    match parsed {
        Some(b) => b,
        None => Seq::<u8>::empty(),
    }
}

/// The bytes an authenticated decryption handed back, or the empty sequence
/// where it refused.
pub open spec fn some_bytes(opened: Option<Vec<u8>>) -> Seq<u8> {
    match opened {
        Some(p) => p@,
        None => Seq::<u8>::empty(),
    }
}

/// The characters of a successful result, or the empty sequence of a failed
/// one.
pub open spec fn ok_chars(result: Result<String, CryptoError>) -> Seq<char> {
    match result {
        Ok(s) => s@,
        Err(_) => Seq::<char>::empty(),
    }
}

/// The decoded key bytes of a key text (meaningful when the text parses).
pub open spec fn key_bytes(key_text: Seq<char>) -> Seq<u8> {
    bytes_or_empty(b64_parse(key_text))
}

/// The decoded envelope bytes of an envelope text (meaningful when it parses).
pub open spec fn env_bytes(env_text: Seq<char>) -> Seq<u8> {
    bytes_or_empty(b64_parse(env_text))
}

/// The nonce of a decoded envelope: its first 12 bytes.
pub open spec fn env_nonce(env_text: Seq<char>) -> Seq<u8> {
    env_bytes(env_text).take(12)
}

/// The ciphertext-with-tag of a decoded envelope: everything past the nonce.
pub open spec fn env_ct(env_text: Seq<char>) -> Seq<u8> {
    env_bytes(env_text).skip(12)
}

/// Both inputs of a decryption pass their structural checks: the key text is
/// well formed and the envelope text decodes to at least a nonce.
pub open spec fn wellformed_inputs(env_text: Seq<char>, key_text: Seq<char>) -> bool {
    &&& valid_key_text(key_text)
    &&& b64_parse(env_text) is Some
    &&& env_bytes(env_text).len() >= 12
}

/// What authenticated decryption makes of a well-formed envelope under a
/// well-formed key.
pub open spec fn opened_of(env_text: Seq<char>, key_text: Seq<char>) -> Option<Seq<u8>> {
    aead_open(key_bytes(key_text), env_nonce(env_text), env_ct(env_text))
}

/// `env` is the envelope text that sealing `plaintext` under `key` with this
/// `nonce` produces: the base64 encoding of `nonce || ciphertext-with-tag`.
pub open spec fn envelope_for(
    env: Seq<char>,
    key: Seq<u8>,
    nonce: Seq<u8>,
    plaintext: Seq<char>,
) -> bool {
    &&& nonce.len() == 12
    &&& encode_utf8(plaintext).len() <= 0x10_0000_0000
    &&& env == b64_of(nonce + aead_seal(key, nonce, encode_utf8(plaintext)))
}

/// Generates a random 32-byte key for AES-256 and returns it as base64 text:
/// always 44 characters of standard padded base64, decoding to exactly the 32
/// bytes that were drawn.
pub fn generate_key() -> (result: String)
    ensures
        result@.len() == 44,
        valid_key_text(result@),
        result@ == b64_of(key_bytes(result@)),
{
    let key = random_bytes(32);
    b64_encode(&key)
}

/// Packs a nonce and the outcome of the sealing call into the transportable
/// envelope text; a refused sealing becomes `EncryptionFailed`.
pub fn assemble_envelope(nonce: Vec<u8>, sealed: Option<Vec<u8>>) -> (result: Result<
    String,
    CryptoError,
>)
    requires
        sealed is Some ==> b64_len(nonce@.len() + some_bytes(sealed).len()) <= usize::MAX,
    ensures
        sealed is None ==> result == Err::<String, CryptoError>(CryptoError::EncryptionFailed),
        sealed is Some ==> result is Ok,
        sealed is Some ==> ok_chars(result) == b64_of(nonce@ + some_bytes(sealed)),
        sealed is Some ==> b64_parse(ok_chars(result)) == Some(nonce@ + some_bytes(sealed)),
        sealed is Some ==> ok_chars(result).len() == b64_len(
            nonce@.len() + some_bytes(sealed).len(),
        ),
{
    match sealed {
        None => Err(CryptoError::EncryptionFailed),
        Some(mut c) => {
            let mut env_bytes = nonce;
            env_bytes.append(&mut c);
            Ok(b64_encode(&env_bytes))
        },
    }
}

/// Encrypts a message using AES-256-GCM under a fresh random 12-byte nonce
/// and returns the base64 envelope `nonce || ciphertext-with-tag`.
///
/// The errors are exact: `InvalidKeyFormat` exactly on key text that is not
/// base64, `InvalidKeyLength` exactly on a decoded key that is not 32 bytes,
/// and `EncryptionFailed` exactly on a plaintext beyond the cipher's length
/// bound; on every other input the call succeeds and its output is an
/// envelope of the plaintext under the decoded key (the witness that
/// `decrypt`'s round-trip clause consumes).  The precondition only rules out
/// envelope text too long for `usize`, which the base64 encoder could not
/// represent.
pub fn encrypt(plaintext: &str, key_b64: &str) -> (result: Result<String, CryptoError>)
    requires
        b64_len(encode_utf8(plaintext@).len() + 28) <= usize::MAX,
    ensures
        result == Err::<String, CryptoError>(CryptoError::InvalidKeyFormat) <==> b64_parse(
            key_b64@,
        ) is None,
        b64_parse(key_b64@) is Some ==> (result == Err::<String, CryptoError>(
            CryptoError::InvalidKeyLength,
        ) <==> key_bytes(key_b64@).len() != 32),
        valid_key_text(key_b64@) ==> (result == Err::<String, CryptoError>(
            CryptoError::EncryptionFailed,
        ) <==> encode_utf8(plaintext@).len() > 0x10_0000_0000),
        result is Ok <==> valid_key_text(key_b64@) && encode_utf8(plaintext@).len()
            <= 0x10_0000_0000,
        result is Ok ==> exists|nonce: Seq<u8>|
            #[trigger] envelope_for(ok_chars(result), key_bytes(key_b64@), nonce, plaintext@),
{
    let key = match b64_decode(key_b64) {
        Some(v) => v,
        None => { return Err(CryptoError::InvalidKeyFormat) },
    };
    if key.len() != 32 {
        return Err(CryptoError::InvalidKeyLength);
    }
    let nonce = random_bytes(12);
    let ghost nonce_view = nonce@;
    let pt = slice_to_vec(plaintext.as_bytes());
    let sealed = aead_encrypt(&key, &nonce, &pt);
    let ghost sealed_is_some = sealed is Some;
    let result = assemble_envelope(nonce, sealed);
    proof {
        if sealed_is_some {
            assert(envelope_for(ok_chars(result), key_bytes(key_b64@), nonce_view, plaintext@));
        }
    }
    result
}

/// Turns the outcome of authenticated decryption into the caller's result: a
/// refused ciphertext becomes `DecryptionFailed`, accepted bytes become the
/// plaintext string exactly when they are valid UTF-8, and
/// `InvalidUtf8Plaintext` otherwise.
pub fn plaintext_from_opened(opened: Option<Vec<u8>>) -> (result: Result<String, CryptoError>)
    ensures
        opened is None ==> result == Err::<String, CryptoError>(CryptoError::DecryptionFailed),
        opened is Some && valid_utf8(some_bytes(opened)) ==> result is Ok && ok_chars(result)
            == decode_utf8(some_bytes(opened)),
        opened is Some && !valid_utf8(some_bytes(opened)) ==> result == Err::<
            String,
            CryptoError,
        >(CryptoError::InvalidUtf8Plaintext),
{
    match opened {
        None => Err(CryptoError::DecryptionFailed),
        Some(p) => match utf8_to_string(p) {
            Some(s) => Ok(s),
            None => Err(CryptoError::InvalidUtf8Plaintext),
        },
    }
}

/// Decrypts a base64 envelope using AES-256-GCM under the given base64 key.
///
/// The errors are exact and checked in this order: `InvalidKeyFormat` on key
/// text that is not base64, `InvalidEncryptedData` on envelope text that is
/// not base64, `EncryptedDataTooShort` on a decoded envelope of fewer than 12
/// bytes, `InvalidKeyLength` on a decoded key that is not 32 bytes,
/// `DecryptionFailed` exactly when the cipher rejects the ciphertext (its tag
/// does not verify), and `InvalidUtf8Plaintext` exactly when the recovered
/// bytes are not UTF-8.
///
/// Two laws are part of the contract.  Authenticity: a returned plaintext is
/// never silently corrupted — whatever string comes back, the envelope's
/// ciphertext is exactly that string's sealing under this key and the
/// envelope's own nonce.  Round trip: every envelope that sealing a plaintext
/// under this key can produce decrypts to exactly that plaintext.
pub fn decrypt(encrypted_b64: &str, key_b64: &str) -> (result: Result<String, CryptoError>)
    ensures
        result == Err::<String, CryptoError>(CryptoError::InvalidKeyFormat) <==> b64_parse(
            key_b64@,
        ) is None,
        b64_parse(key_b64@) is Some ==> (result == Err::<String, CryptoError>(
            CryptoError::InvalidEncryptedData,
        ) <==> b64_parse(encrypted_b64@) is None),
        b64_parse(key_b64@) is Some && b64_parse(encrypted_b64@) is Some ==> (result == Err::<
            String,
            CryptoError,
        >(CryptoError::EncryptedDataTooShort) <==> env_bytes(encrypted_b64@).len() < 12),
        b64_parse(key_b64@) is Some && b64_parse(encrypted_b64@) is Some && env_bytes(
            encrypted_b64@,
        ).len() >= 12 ==> (result == Err::<String, CryptoError>(CryptoError::InvalidKeyLength)
            <==> key_bytes(key_b64@).len() != 32),
        wellformed_inputs(encrypted_b64@, key_b64@) ==> (result == Err::<String, CryptoError>(
            CryptoError::DecryptionFailed,
        ) <==> opened_of(encrypted_b64@, key_b64@) is None),
        wellformed_inputs(encrypted_b64@, key_b64@) ==> (result == Err::<String, CryptoError>(
            CryptoError::InvalidUtf8Plaintext,
        ) <==> opened_of(encrypted_b64@, key_b64@) is Some && !valid_utf8(
            bytes_or_empty(opened_of(encrypted_b64@, key_b64@)),
        )),
        wellformed_inputs(encrypted_b64@, key_b64@) ==> (result is Ok <==> opened_of(
            encrypted_b64@,
            key_b64@,
        ) is Some && valid_utf8(bytes_or_empty(opened_of(encrypted_b64@, key_b64@)))),
        wellformed_inputs(encrypted_b64@, key_b64@) && result is Ok ==> ok_chars(result)
            == decode_utf8(bytes_or_empty(opened_of(encrypted_b64@, key_b64@))),
        result is Ok ==> wellformed_inputs(encrypted_b64@, key_b64@) && env_ct(encrypted_b64@)
            == aead_seal(
            key_bytes(key_b64@),
            env_nonce(encrypted_b64@),
            encode_utf8(ok_chars(result)),
        ),
        forall|k: Seq<u8>, nonce: Seq<u8>, pt: Seq<char>|
            b64_parse(key_b64@) == Some(k) && k.len() == 32 && #[trigger] envelope_for(
                encrypted_b64@,
                k,
                nonce,
                pt,
            ) ==> result is Ok && ok_chars(result) == pt,
{
    let key = match b64_decode(key_b64) {
        Some(v) => v,
        None => { return Err(CryptoError::InvalidKeyFormat) },
    };
    let mut data = match b64_decode(encrypted_b64) {
        Some(v) => v,
        None => { return Err(CryptoError::InvalidEncryptedData) },
    };
    if data.len() < 12 {
        return Err(CryptoError::EncryptedDataTooShort);
    }
    if key.len() != 32 {
        return Err(CryptoError::InvalidKeyLength);
    }
    let ghost data_view = data@;
    proof {
        assert forall|bytes: Seq<u8>|
            encrypted_b64@ == #[trigger] b64_of(bytes) implies bytes == data_view by {}
    }
    let ciphertext = data.split_off(12);
    let nonce = data;
    let opened = aead_decrypt(&key, &nonce, &ciphertext);
    let ghost opened_view = opened;
    let result = plaintext_from_opened(opened);
    proof {
        lemma_decrypt_post(
            encrypted_b64@,
            key_b64@,
            key@,
            data_view,
            nonce@,
            ciphertext@,
            opened_view,
            result,
        );
    }
    result
}

/// Discharges the interesting clauses of `decrypt`'s contract on the path
/// where both inputs pass their structural checks: ties the split of the
/// decoded envelope to `env_nonce`/`env_ct`, carries the authenticity fact
/// through the UTF-8 decoding, and proves the round-trip clause.
proof fn lemma_decrypt_post(
    env_text: Seq<char>,
    key_text: Seq<char>,
    key: Seq<u8>,
    data: Seq<u8>,
    nonce: Seq<u8>,
    ciphertext: Seq<u8>,
    opened: Option<Vec<u8>>,
    result: Result<String, CryptoError>,
)
    requires
        b64_parse(key_text) == Some(key),
        key.len() == 32,
        b64_parse(env_text) == Some(data),
        forall|bytes: Seq<u8>| env_text == #[trigger] b64_of(bytes) ==> bytes == data,
        data.len() >= 12,
        nonce == data.take(12),
        ciphertext == data.skip(12),
        aead_decrypt_post(key, nonce, ciphertext, opened),
        opened is None ==> result == Err::<String, CryptoError>(CryptoError::DecryptionFailed),
        opened is Some && valid_utf8(some_bytes(opened)) ==> result is Ok && ok_chars(result)
            == decode_utf8(some_bytes(opened)),
        opened is Some && !valid_utf8(some_bytes(opened)) ==> result == Err::<
            String,
            CryptoError,
        >(CryptoError::InvalidUtf8Plaintext),
    ensures
        result == Err::<String, CryptoError>(CryptoError::DecryptionFailed) <==> opened_of(
            env_text,
            key_text,
        ) is None,
        result == Err::<String, CryptoError>(CryptoError::InvalidUtf8Plaintext) <==> opened_of(
            env_text,
            key_text,
        ) is Some && !valid_utf8(bytes_or_empty(opened_of(env_text, key_text))),
        result is Ok <==> opened_of(env_text, key_text) is Some && valid_utf8(
            bytes_or_empty(opened_of(env_text, key_text)),
        ),
        result is Ok ==> ok_chars(result) == decode_utf8(
            bytes_or_empty(opened_of(env_text, key_text)),
        ),
        result is Ok ==> env_ct(env_text) == aead_seal(
            key_bytes(key_text),
            env_nonce(env_text),
            encode_utf8(ok_chars(result)),
        ),
        forall|k: Seq<u8>, n: Seq<u8>, pt: Seq<char>|
            b64_parse(key_text) == Some(k) && k.len() == 32 && #[trigger] envelope_for(
                env_text,
                k,
                n,
                pt,
            ) ==> result is Ok && ok_chars(result) == pt,
{
    assert(env_nonce(env_text) == nonce);
    assert(env_ct(env_text) == ciphertext);
    match opened {
        Some(p) => {
            if valid_utf8(p@) {
                vstd::utf8::decode_utf8_encode_utf8(p@);
            }
        },
        None => {},
    }
    assert forall|k: Seq<u8>, n: Seq<u8>, pt: Seq<char>|
        b64_parse(key_text) == Some(k) && k.len() == 32 && #[trigger] envelope_for(
            env_text,
            k,
            n,
            pt,
        ) implies result is Ok && ok_chars(result) == pt by {
        assert(k == key);
        assert(data == n + aead_seal(k, n, encode_utf8(pt)));
        assert(data.take(12) =~= n);
        assert(data.skip(12) =~= aead_seal(k, n, encode_utf8(pt)));
        assert(opened is Some && some_bytes(opened) == encode_utf8(pt));
        vstd::utf8::encode_utf8_valid_utf8(pt);
        vstd::utf8::encode_utf8_decode_utf8(pt);
    }
}

} // verus!
