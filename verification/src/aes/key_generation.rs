//! Keys from passphrases, and fresh salts.

use crate::aes::primitives::{pbkdf2_hmac_sha256, pbkdf2_hmac_sha256_key};
use crate::error::CryptoError;
use vstd::prelude::*;

verus! {

/// Rounds of PBKDF2. Encryption and decryption must agree on it: it is part
/// of the envelope format, though no envelope records it.
pub const ITERATIONS: u32 = 600_000;

/// The key that a passphrase and a salt stand for.
pub open spec fn derived_key(pass: Seq<u8>, salt: Seq<u8>) -> Seq<u8> {
    pbkdf2_hmac_sha256_key(pass, salt, ITERATIONS)
}

/// Stretches a passphrase and a salt into a 256-bit key.
///
/// The same passphrase and salt always give the same key.
pub fn derive_key_from_passphrase(pass: &[u8], salt: &[u8]) -> (key: [u8; 32])
    ensures
        key@ == derived_key(pass@, salt@),
{
    let mut key_buffer = [0u8; 32];
    pbkdf2_hmac_sha256(pass, salt, ITERATIONS, &mut key_buffer);
    key_buffer
}

/// What a request for `N` random bytes amounts to: the filled buffer where
/// the random source delivered, `EntropyUnavailable` where it did not.
pub fn random_outcome<const N: usize>(filled: Result<(), getrandom::Error>, buffer: [u8; N]) -> (outcome:
    Result<[u8; N], CryptoError>)
    ensures
        outcome == match filled {
            Ok(_) => Ok::<[u8; N], CryptoError>(buffer),
            Err(_) => Err::<[u8; N], CryptoError>(CryptoError::EntropyUnavailable),
        },
{
    match filled {
        Ok(_) => Ok(buffer),
        Err(_) => Err(CryptoError::EntropyUnavailable),
    }
}

/// Draws a fresh 16-byte salt from the system's secure random source.
///
/// Where the source fails, so does this function: no weaker source is
/// substituted.
pub fn generate_salt() -> (salt: Result<[u8; 16], CryptoError>)
    ensures
        salt matches Err(e) ==> e == CryptoError::EntropyUnavailable,
{
    let mut buffer = [0u8; 16];
    let filled = getrandom::getrandom(&mut buffer);
    random_outcome(filled, buffer)
}

} // verus!
