//! Authenticated symmetric encryption for short text payloads.
//!
//! The library generates 256-bit keys, encrypts UTF-8 plaintext under
//! AES-256-GCM with a fresh random nonce, and packs the result into a
//! transportable envelope: `nonce (12 bytes) || ciphertext-with-tag`,
//! base64-encoded with the standard padded alphabet.
pub mod codec;
pub mod primitives;

pub use codec::decrypt;
pub use codec::encrypt;
pub use codec::generate_key;
pub use codec::CryptoError;
