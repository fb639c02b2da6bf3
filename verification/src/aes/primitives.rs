//! The cryptographic building blocks, taken from audited crates.
//!
//! Nothing in this file is proved. Each item states what the rest of the
//! library relies on: the outside function is named, and what is claimed
//! of it is said in words.

use aes_gcm::aead::{Aead, KeyInit};
use vstd::prelude::*;

verus! {

/// The longest plaintext, in bytes, that AES-GCM seals (`aes_gcm::P_MAX`).
pub const MAX_PLAINTEXT_LEN: u64 = 68_719_476_736;

/// Number of bytes of the authentication tag behind a sealed payload.
pub const TAG_LEN: usize = 16;

/// The error of the `aead` traits, as `aes_gcm` hands it on. It carries no
/// information on purpose.
#[verifier::external_type_specification]
#[verifier::external_body]
pub struct ExAeadError(aes_gcm::Error);

/// The error of `getrandom`: an operating-system or internal error code.
#[verifier::external_type_specification]
#[verifier::external_body]
pub struct ExGetrandomError(getrandom::Error);

/// The 32 bytes that PBKDF2 with HMAC-SHA256 derives from a password, a
/// salt and a number of rounds.
pub uninterp spec fn pbkdf2_hmac_sha256_key(password: Seq<u8>, salt: Seq<u8>, rounds: u32) -> Seq<u8>;

/// The bytes that AES-256-GCM, without associated data, produces for a
/// plaintext under a key and a nonce: the encrypted payload followed by its
/// tag.
pub uninterp spec fn aes256_gcm_sealed(key: Seq<u8>, nonce: Seq<u8>, plaintext: Seq<u8>) -> Seq<u8>;

/// The plaintext that AES-256-GCM, without associated data, recovers from a
/// ciphertext under a key and a nonce, or `None` where it refuses the
/// ciphertext.
pub uninterp spec fn aes256_gcm_opened(key: Seq<u8>, nonce: Seq<u8>, ciphertext: Seq<u8>) -> Option<Seq<u8>>;

/// `getrandom::getrandom`: asks the operating system to fill `dest` with
/// random bytes. Nothing is claimed of the bytes, nor of whether the call
/// succeeds; a slice keeps its length.
pub assume_specification[ getrandom::getrandom ](dest: &mut [u8]) -> (filled: Result<
    (),
    getrandom::Error,
>)
    ensures
        final(dest)@.len() == old(dest)@.len(),
;

/// `pbkdf2::pbkdf2_hmac` with SHA-256: overwrites `res` with the derived
/// key. The outcome depends on password, salt and rounds alone, not on what
/// `res` held; the call does not fail.
#[verifier::external_body]
pub(crate) fn pbkdf2_hmac_sha256(password: &[u8], salt: &[u8], rounds: u32, res: &mut [u8; 32])
    ensures
        final(res)@ == pbkdf2_hmac_sha256_key(password@, salt@, rounds),
{
    pbkdf2::pbkdf2_hmac::<sha2::Sha256>(password, salt, rounds, res)
}

/// `Aes256Gcm::encrypt` of the `aead::Aead` trait, on a cipher made from
/// `key` with `KeyInit::new`.
///
/// The call fails exactly when the plaintext is longer than the
/// construction allows. Otherwise the ciphertext is the plaintext's length
/// plus a 16-byte tag, it is determined by key, nonce and plaintext, and
/// opening it under the same key and nonce gives the plaintext back.
#[verifier::external_body]
pub(crate) fn aes256_gcm_encrypt(key: &[u8; 32], nonce: &[u8; 12], plaintext: &[u8]) -> (sealed:
    Result<Vec<u8>, aes_gcm::Error>)
    ensures
        sealed is Err <==> plaintext@.len() > MAX_PLAINTEXT_LEN,
        sealed matches Ok(ciphertext) ==> {
            &&& ciphertext@ == aes256_gcm_sealed(key@, nonce@, plaintext@)
            &&& ciphertext@.len() == plaintext@.len() + TAG_LEN
            &&& aes256_gcm_opened(key@, nonce@, ciphertext@) == Some(plaintext@)
        },
{
    aes_gcm::Aes256Gcm::new(key.into()).encrypt(nonce.into(), plaintext)
}

/// `Aes256Gcm::decrypt` of the `aead::Aead` trait, on a cipher made from
/// `key` with `KeyInit::new`.
///
/// Whether the ciphertext is accepted, and the plaintext if it is, are
/// determined by key, nonce and ciphertext. An accepted ciphertext is 16
/// bytes longer than its plaintext.
#[verifier::external_body]
pub(crate) fn aes256_gcm_decrypt(key: &[u8; 32], nonce: &[u8; 12], ciphertext: &[u8]) -> (opened:
    Result<Vec<u8>, aes_gcm::Error>)
    ensures
        match opened {
            Ok(plaintext) => {
                &&& aes256_gcm_opened(key@, nonce@, ciphertext@) == Some(plaintext@)
                &&& plaintext@.len() + TAG_LEN == ciphertext@.len()
            },
            Err(_) => aes256_gcm_opened(key@, nonce@, ciphertext@) is None,
        },
{
    aes_gcm::Aes256Gcm::new(key.into()).decrypt(nonce.into(), ciphertext)
}

} // verus!
