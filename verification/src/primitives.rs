//! The trusted boundary of the library.
//!
//! Every function here carries `#[verifier::external_body]`: its body makes a
//! single call into an outside crate (or into a part of std that vstd leaves
//! unspecified) and its contract states what that crate's source promises of
//! the call.  The four uninterpreted spec functions name results that are
//! functions of their arguments alone but whose exact value the library never
//! states: base64 text, and AES-256-GCM sealing and opening.
use vstd::prelude::*;

use aes_gcm::aead::{Aead, KeyInit};
use aes_gcm::{Aes256Gcm, Nonce};
use base64::engine::general_purpose;
use base64::Engine;
use rand::rngs::OsRng;
use rand::RngCore;

verus! {

/// The text that base64's standard padded engine produces for a byte sequence.
pub uninterp spec fn b64_of(bytes: Seq<u8>) -> Seq<char>;

/// The bytes that base64's standard padded engine recovers from a text, or
/// `None` on text that the engine rejects.
pub uninterp spec fn b64_parse(text: Seq<char>) -> Option<Seq<u8>>;

/// The ciphertext-with-tag that AES-256-GCM produces for a plaintext under a
/// 32-byte key and a 12-byte nonce.
pub uninterp spec fn aead_seal(key: Seq<u8>, nonce: Seq<u8>, plaintext: Seq<u8>) -> Seq<u8>;

/// The plaintext that AES-256-GCM authenticated decryption recovers from a
/// ciphertext-with-tag, or `None` when the tag does not verify.
pub uninterp spec fn aead_open(key: Seq<u8>, nonce: Seq<u8>, ciphertext: Seq<u8>) -> Option<
    Seq<u8>,
>;

/// The length of the base64 text (standard alphabet, padded) that encodes `n`
/// bytes: four output characters for every complete or partial group of three
/// input bytes.
pub open spec fn b64_len(n: nat) -> nat {
    if n % 3 == 0 {
        (n / 3) * 4
    } else {
        (n / 3) * 4 + 4
    }
}

/// Relies on `base64::engine::general_purpose::STANDARD`'s `Engine::encode`:
/// the output is a pure function of the input bytes, it is `b64_len` characters
/// long, and decoding it with the same engine gives the input back (the
/// encoding is lossless).  `encode` panics only when the output length
/// overflows `usize`, which the precondition rules out.
#[verifier::external_body]
pub(crate) fn b64_encode(bytes: &Vec<u8>) -> (result: String)
    requires
        b64_len(bytes@.len()) <= usize::MAX,
    ensures
        result@ == b64_of(bytes@),
        result@.len() == b64_len(bytes@.len()),
        b64_parse(result@) == Some(bytes@),
{
    general_purpose::STANDARD.encode(bytes.as_slice())
}

/// Everything `b64_decode` states of its result: the outcome mirrors
/// `b64_parse`, and on text that is the encoding of some byte sequence the
/// decoder recovers exactly those bytes.
pub open spec fn b64_decode_post(text: Seq<char>, result: Option<Vec<u8>>) -> bool {
    &&& (result is None <==> b64_parse(text) is None)
    &&& (result matches Some(v) ==> b64_parse(text) == Some(v@))
    &&& forall|bytes: Seq<u8>|
        text == #[trigger] b64_of(bytes) ==> (result matches Some(v) && v@ == bytes)
}

/// Relies on `base64::engine::general_purpose::STANDARD`'s `Engine::decode`:
/// the outcome is a pure function of the input text, and the engine accepts
/// its own canonical padded output, recovering the encoded bytes exactly.
#[verifier::external_body]
pub(crate) fn b64_decode(text: &str) -> (result: Option<Vec<u8>>)
    ensures
        b64_decode_post(text@, result),
{
    match general_purpose::STANDARD.decode(text) {
        Ok(v) => Some(v),
        Err(_) => None,
    }
}

/// Relies on `rand::rngs::OsRng`'s `RngCore::fill_bytes`: it fills the whole
/// buffer from the operating system's secure random source.  Nothing is stated
/// of the bytes themselves; no two calls are related.
#[verifier::external_body]
pub(crate) fn random_bytes(n: usize) -> (result: Vec<u8>)
    ensures
        result@.len() == n,
{
    let mut buf = vec![0u8; n];
    OsRng.fill_bytes(&mut buf);
    buf
}

/// Relies on `aes_gcm::Aes256Gcm`: `KeyInit::new_from_slice` accepts every
/// 32-byte key, and `Aead::encrypt` (with no associated data) returns the
/// plaintext's length-preserving encryption with the 16-byte tag appended,
/// failing exactly when the plaintext is longer than the mode's `P_MAX` of
/// 2^36 bytes.  The result is a pure function of key, nonce and plaintext.
#[verifier::external_body]
pub(crate) fn aead_encrypt(key: &Vec<u8>, nonce: &Vec<u8>, plaintext: &Vec<u8>) -> (result:
    Option<Vec<u8>>)
    requires
        key@.len() == 32,
        nonce@.len() == 12,
    ensures
        result matches Some(c) ==> c@ == aead_seal(key@, nonce@, plaintext@) && c@.len()
            == plaintext@.len() + 16,
        result is Some <==> plaintext@.len() <= 0x10_0000_0000,
{
    let cipher = match Aes256Gcm::new_from_slice(key.as_slice()) {
        Ok(c) => c,
        Err(_) => return None,
    };
    cipher.encrypt(Nonce::from_slice(nonce.as_slice()), plaintext.as_slice()).ok()
}

/// Everything `aead_decrypt` states of its result: the outcome mirrors
/// `aead_open`; an accepted ciphertext is the sealing of the returned
/// plaintext (authenticity — acceptance never yields bytes that do not seal
/// back to the input); and every genuine sealing of a plaintext within the
/// mode's length bound is accepted and returns that plaintext.
pub open spec fn aead_decrypt_post(
    key: Seq<u8>,
    nonce: Seq<u8>,
    ciphertext: Seq<u8>,
    result: Option<Vec<u8>>,
) -> bool {
    &&& (result is Some <==> aead_open(key, nonce, ciphertext) is Some)
    &&& (result matches Some(p) ==> aead_open(key, nonce, ciphertext) == Some(p@))
    &&& (result matches Some(p) ==> ciphertext == aead_seal(key, nonce, p@))
    &&& forall|pt: Seq<u8>|
        ciphertext == #[trigger] aead_seal(key, nonce, pt) && pt.len() <= 0x10_0000_0000 ==> (
        result matches Some(p) && p@ == pt)
}

/// Relies on `aes_gcm::Aes256Gcm`: `KeyInit::new_from_slice` accepts every
/// 32-byte key, and `Aead::decrypt` (with no associated data) inverts
/// `Aead::encrypt` — it succeeds on every genuine ciphertext-with-tag of a
/// plaintext within the mode's length bound and returns that plaintext, and
/// whatever it returns is the unique plaintext whose sealing under this key
/// and nonce is the input.  The outcome is a pure function of key, nonce and
/// ciphertext.
#[verifier::external_body]
pub(crate) fn aead_decrypt(key: &Vec<u8>, nonce: &Vec<u8>, ciphertext: &Vec<u8>) -> (result:
    Option<Vec<u8>>)
    requires
        key@.len() == 32,
        nonce@.len() == 12,
    ensures
        result is Some <==> aead_open(key@, nonce@, ciphertext@) is Some,
        aead_decrypt_post(key@, nonce@, ciphertext@, result),
{
    let cipher = match Aes256Gcm::new_from_slice(key.as_slice()) {
        Ok(c) => c,
        Err(_) => return None,
    };
    cipher.decrypt(Nonce::from_slice(nonce.as_slice()), ciphertext.as_slice()).ok()
}

/// Relies on `String::from_utf8`: it succeeds exactly on byte sequences that
/// are valid UTF-8 (vstd's `valid_utf8`) and returns their decoding.
#[verifier::external_body]
pub(crate) fn utf8_to_string(bytes: Vec<u8>) -> (result: Option<String>)
    ensures
        result is Some <==> vstd::utf8::valid_utf8(bytes@),
        result matches Some(s) ==> s@ == vstd::utf8::decode_utf8(bytes@),
{
    String::from_utf8(bytes).ok()
}

} // verus!
