//! AES-256-GCM envelopes keyed by a passphrase.

pub mod aes_encryption;
pub mod key_generation;
pub mod primitives;
