//! Passphrase-based authenticated encryption of byte buffers.
//!
//! A passphrase and a random salt are stretched into a 256-bit key with
//! PBKDF2-HMAC-SHA256; the payload is sealed with AES-256-GCM under a random
//! nonce; nonce, salt and ciphertext travel together as one flat envelope.

pub mod aes;
pub mod error;

pub use aes::aes_encryption::{decrypt, encrypt, EncryptedData};
pub use error::CryptoError;

use vstd::prelude::*;

verus! {

/// The bytes an operation produced, with the time it took.
pub struct EncryptionResult {
    data: Vec<u8>,
    duration: u128,
}

impl EncryptionResult {
    /// The bytes held.
    pub closed spec fn bytes(&self) -> Seq<u8> {
        self.data@
    }

    /// The time held, in milliseconds.
    pub closed spec fn millis(&self) -> u128 {
        self.duration
    }

    /// Puts bytes and the milliseconds spent on them together.
    pub fn new(data: Vec<u8>, duration: u128) -> (result: EncryptionResult)
        ensures
            result.bytes() == data@,
            result.millis() == duration,
    {
        EncryptionResult { data, duration }
    }

    /// A copy of the bytes.
    pub fn data(&self) -> (data: Vec<u8>)
        ensures
            data@ == self.bytes(),
    {
        self.data.clone()
    }

    /// The milliseconds spent.
    pub fn duration(&self) -> (duration: u128)
        ensures
            duration == self.millis(),
    {
        self.duration
    }
}

} // verus!
