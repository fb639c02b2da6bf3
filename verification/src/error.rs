//! The ways in which encryption and decryption can fail.

use vstd::prelude::*;

verus! {

/// Why an operation did not produce a result.
///
/// Every failure is reported to the caller as one of these values; none is
/// retried or replaced by a default result.
#[derive(Debug, Clone, Copy, PartialEq, Eq, Structural)]
pub enum CryptoError {
    /// The system's secure random source could not supply bytes for a salt
    /// or a nonce.
    EntropyUnavailable,
    /// The buffer is too short to hold the nonce and the salt of an envelope.
    Format,
    /// The authentication tag did not verify: the passphrase is wrong or the
    /// envelope was altered. The two cases are deliberately not told apart.
    Authentication,
    /// The plaintext is longer than the cipher construction allows.
    CipherConstraint,
}

} // verus!
