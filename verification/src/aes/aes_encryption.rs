//! The encrypted envelope, its flat wire layout, and the two operations
//! that produce and consume it.

use crate::aes::key_generation::{derive_key_from_passphrase, derived_key, generate_salt, random_outcome};
use crate::aes::primitives::{
    aes256_gcm_decrypt, aes256_gcm_encrypt, aes256_gcm_opened, aes256_gcm_sealed,
    MAX_PLAINTEXT_LEN, TAG_LEN,
};
use crate::error::CryptoError;
use vstd::prelude::*;
use vstd::slice::slice_to_vec;
use vstd::string::StringSliceAdditionalSpecFns;

verus! {

/// Number of bytes of the nonce at the start of an envelope.
pub const NONCE_LEN: usize = 12;

/// Number of bytes of the salt that follows the nonce.
pub const SALT_LEN: usize = 16;

/// Number of bytes before the ciphertext: nonce and salt together.
pub const HEADER_LEN: usize = 28;

/// The mathematical content of an envelope: three byte strings.
pub struct Envelope {
    pub nonce: Seq<u8>,
    pub salt: Seq<u8>,
    pub ciphertext: Seq<u8>,
}

impl Envelope {
    /// The nonce and the salt have their fixed lengths, so the boundaries
    /// inside the flat layout are known.
    pub open spec fn wf(self) -> bool {
        self.nonce.len() == NONCE_LEN && self.salt.len() == SALT_LEN
    }

    /// The wire layout: nonce, then salt, then ciphertext, with nothing in
    /// between and nothing around.
    pub open spec fn bytes(self) -> Seq<u8> {
        self.nonce + self.salt + self.ciphertext
    }

    /// Reading the wire layout back: the first 12 bytes are the nonce, the
    /// next 16 the salt, everything behind them the ciphertext. A buffer
    /// that cannot hold nonce and salt has no reading.
    pub open spec fn parse(bytes: Seq<u8>) -> Option<Envelope> {
        if bytes.len() < HEADER_LEN {
            None
        } else {
            Some(
                Envelope {
                    nonce: bytes.subrange(0, NONCE_LEN as int),
                    salt: bytes.subrange(NONCE_LEN as int, HEADER_LEN as int),
                    ciphertext: bytes.subrange(HEADER_LEN as int, bytes.len() as int),
                },
            )
        }
    }

    /// The envelope that sealing `data` under `key` and `nonce` gives; the
    /// salt travels with it so that the key can be derived again.
    pub open spec fn seal(key: Seq<u8>, salt: Seq<u8>, nonce: Seq<u8>, data: Seq<u8>) -> Envelope {
        Envelope { nonce, salt, ciphertext: aes256_gcm_sealed(key, nonce, data) }
    }

    /// What opening the envelope under `key` gives: the plaintext, or an
    /// authentication failure where the cipher refuses the ciphertext.
    pub open spec fn open(self, key: Seq<u8>) -> Result<Seq<u8>, CryptoError> {
        match aes256_gcm_opened(key, self.nonce, self.ciphertext) {
            Some(plaintext) => Ok(plaintext),
            None => Err(CryptoError::Authentication),
        }
    }
}

/// The flat envelope for `data` under a passphrase, once salt and nonce are
/// chosen.
pub open spec fn encrypted(data: Seq<u8>, pass: Seq<u8>, salt: Seq<u8>, nonce: Seq<u8>) -> Seq<u8> {
    Envelope::seal(derived_key(pass, salt), salt, nonce, data).bytes()
}

/// What decrypting a buffer under a passphrase gives: the buffer is read as
/// an envelope, the key is derived from the salt found in it, and the
/// envelope is opened.
pub open spec fn decrypted(bytes: Seq<u8>, pass: Seq<u8>) -> Result<Seq<u8>, CryptoError> {
    match Envelope::parse(bytes) {
        None => Err(CryptoError::Format),
        Some(envelope) => envelope.open(derived_key(pass, envelope.salt)),
    }
}

/// What one encryption produces and one decryption consumes.
#[derive(Debug, Clone, PartialEq)]
pub struct EncryptedData {
    /// 12 bytes, fresh for every encryption.
    pub nonce: Vec<u8>,
    /// Fresh for every encryption; the key is derived from it.
    pub salt: [u8; 16],
    /// The sealed payload followed by its 16-byte authentication tag.
    pub ciphertext: Vec<u8>,
}

impl View for EncryptedData {
    type V = Envelope;

    open spec fn view(&self) -> Envelope {
        Envelope { nonce: self.nonce@, salt: self.salt@, ciphertext: self.ciphertext@ }
    }
}

impl EncryptedData {
    /// The nonce has the length the cipher and the wire layout expect.
    pub open spec fn wf(&self) -> bool {
        self@.wf()
    }

    /// Lays the envelope out as one flat buffer.
    pub fn as_bytes(self) -> (bytes: Vec<u8>)
        ensures
            bytes@ == self@.bytes(),
    {
        let ghost model = self@;
        let EncryptedData { nonce, salt, ciphertext } = self;
        let mut nonce = nonce;
        let mut ciphertext = ciphertext;
        let mut bytes: Vec<u8> = Vec::new();
        bytes.append(&mut nonce);
        let mut i: usize = 0;
        while i < SALT_LEN
            invariant
                i <= SALT_LEN,
                salt@ == model.salt,
                bytes@ == model.nonce + model.salt.subrange(0, i as int),
            decreases SALT_LEN - i,
        {
            bytes.push(salt[i]);
            i += 1;
        }
        assert(model.salt.subrange(0, SALT_LEN as int) == model.salt);
        bytes.append(&mut ciphertext);
        bytes
    }

    /// Reads an envelope from its flat layout.
    ///
    /// A buffer of fewer than 28 bytes is rejected: nothing is padded and
    /// nothing is cut short.
    pub fn from_bytes(bytes: Vec<u8>) -> (parsed: Result<EncryptedData, CryptoError>)
        ensures
            bytes@.len() < HEADER_LEN <==> parsed is Err,
            match parsed {
                Ok(data) => Envelope::parse(bytes@) == Some(data@) && data.wf(),
                Err(e) => Envelope::parse(bytes@) is None && e == CryptoError::Format,
            },
    {
        if bytes.len() < HEADER_LEN {
            return Err(CryptoError::Format);
        }
        let mut header = bytes;
        let ciphertext = header.split_off(HEADER_LEN);
        let mut nonce: Vec<u8> = Vec::new();
        let mut i: usize = 0;
        while i < NONCE_LEN
            invariant
                i <= NONCE_LEN,
                header@.len() == HEADER_LEN,
                nonce@ == header@.subrange(0, i as int),
            decreases NONCE_LEN - i,
        {
            nonce.push(header[i]);
            i += 1;
        }
        let mut salt = [0u8; 16];
        let mut salt_counter: usize = 0;
        while salt_counter < SALT_LEN
            invariant
                salt_counter <= SALT_LEN,
                header@.len() == HEADER_LEN,
                salt@.subrange(0, salt_counter as int) == header@.subrange(
                    NONCE_LEN as int,
                    NONCE_LEN + salt_counter,
                ),
            decreases SALT_LEN - salt_counter,
        {
            salt[salt_counter] = header[NONCE_LEN + salt_counter];
            salt_counter += 1;
        }
        assert(salt@.subrange(0, SALT_LEN as int) == salt@);
        assert(header@.subrange(0, NONCE_LEN as int) == bytes@.subrange(0, NONCE_LEN as int));
        assert(header@.subrange(NONCE_LEN as int, HEADER_LEN as int) == bytes@.subrange(
            NONCE_LEN as int,
            HEADER_LEN as int,
        ));
        Ok(EncryptedData { nonce, salt, ciphertext })
    }
}

/// Draws a fresh 12-byte nonce from the system's secure random source.
pub fn generate_nonce() -> (nonce: Result<[u8; 12], CryptoError>)
    ensures
        nonce matches Err(e) ==> e == CryptoError::EntropyUnavailable,
{
    let mut buffer = [0u8; 12];
    let filled = getrandom::getrandom(&mut buffer);
    random_outcome(filled, buffer)
}

/// Seals `data` under a key that is already derived.
///
/// Fails exactly when `data` is longer than the cipher allows.
pub fn seal_with_key(key: &[u8; 32], salt: [u8; 16], nonce: [u8; 12], data: &[u8]) -> (sealed: Result<
    EncryptedData,
    CryptoError,
>)
    ensures
        match sealed {
            Ok(envelope) => {
                &&& data@.len() <= MAX_PLAINTEXT_LEN
                &&& envelope@ == Envelope::seal(key@, salt@, nonce@, data@)
                &&& envelope.wf()
                &&& envelope.ciphertext@.len() == data@.len() + TAG_LEN
                &&& envelope@.open(key@) == Ok::<Seq<u8>, CryptoError>(data@)
            },
            Err(e) => e == CryptoError::CipherConstraint && data@.len() > MAX_PLAINTEXT_LEN,
        },
{
    match aes256_gcm_encrypt(key, &nonce, data) {
        Ok(ciphertext) => Ok(EncryptedData { nonce: slice_to_vec(nonce.as_slice()), salt, ciphertext }),
        Err(_) => Err(CryptoError::CipherConstraint),
    }
}

/// Opens an envelope under a key that is already derived.
///
/// Either the whole plaintext is returned or none of it.
pub fn open_with_key(key: &[u8; 32], envelope: &EncryptedData) -> (opened: Result<Vec<u8>, CryptoError>)
    requires
        envelope.wf(),
    ensures
        match opened {
            Ok(plaintext) => envelope@.open(key@) == Ok::<Seq<u8>, CryptoError>(plaintext@),
            Err(e) => envelope@.open(key@) == Err::<Seq<u8>, CryptoError>(e),
        },
{
    let mut nonce = [0u8; 12];
    let mut i: usize = 0;
    while i < NONCE_LEN
        invariant
            i <= NONCE_LEN,
            envelope.nonce@.len() == NONCE_LEN,
            nonce@.subrange(0, i as int) == envelope.nonce@.subrange(0, i as int),
        decreases NONCE_LEN - i,
    {
        nonce[i] = envelope.nonce[i];
        i += 1;
    }
    assert(nonce@ == envelope.nonce@) by {
        assert(nonce@.subrange(0, NONCE_LEN as int) == nonce@);
        assert(envelope.nonce@.subrange(0, NONCE_LEN as int) == envelope.nonce@);
    }
    match aes256_gcm_decrypt(key, &nonce, envelope.ciphertext.as_slice()) {
        Ok(plaintext) => Ok(plaintext),
        Err(_) => Err(CryptoError::Authentication),
    }
}

/// Encrypts `data` under `passphrase` with the given salt and nonce.
///
/// This is encryption with the random choices made by the caller: the same
/// four arguments always give the same envelope. A nonce must never serve
/// twice under one key, so a caller other than [`encrypt`] has to see to
/// fresh salts and nonces itself.
pub fn encrypt_with(data: &[u8], passphrase: &str, salt: &[u8; 16], nonce: &[u8; 12]) -> (envelope:
    Result<Vec<u8>, CryptoError>)
    ensures
        match envelope {
            Ok(bytes) => {
                &&& data@.len() <= MAX_PLAINTEXT_LEN
                &&& bytes@ == encrypted(data@, passphrase.spec_bytes(), salt@, nonce@)
                &&& bytes@.len() == HEADER_LEN + data@.len() + TAG_LEN
                &&& decrypted(bytes@, passphrase.spec_bytes()) == Ok::<Seq<u8>, CryptoError>(data@)
            },
            Err(e) => e == CryptoError::CipherConstraint && data@.len() > MAX_PLAINTEXT_LEN,
        },
{
    let key = derive_key_from_passphrase(passphrase.as_bytes(), salt.as_slice());
    match seal_with_key(&key, *salt, *nonce, data) {
        Ok(sealed) => {
            proof {
                lemma_parse_of_bytes(sealed@);
            }
            Ok(sealed.as_bytes())
        },
        Err(e) => Err(e),
    }
}

/// Encrypts `data` under `passphrase`.
///
/// Salt and nonce are drawn afresh on every call, so two calls on the same
/// input give different envelopes. The result is `nonce ‖ salt ‖
/// ciphertext`: 12 bytes, 16 bytes, then the sealed payload with its 16-byte
/// tag. Decrypting it under the same passphrase gives `data` back.
///
/// Fails with `EntropyUnavailable` where the random source does, and with
/// `CipherConstraint` where `data` is longer than the cipher allows.
pub fn encrypt(data: &[u8], passphrase: &str) -> (envelope: Result<Vec<u8>, CryptoError>)
    ensures
        match envelope {
            Ok(bytes) => {
                &&& data@.len() <= MAX_PLAINTEXT_LEN
                &&& bytes@.len() == HEADER_LEN + data@.len() + TAG_LEN
                &&& bytes@ == encrypted(
                    data@,
                    passphrase.spec_bytes(),
                    bytes@.subrange(NONCE_LEN as int, HEADER_LEN as int),
                    bytes@.subrange(0, NONCE_LEN as int),
                )
                &&& decrypted(bytes@, passphrase.spec_bytes()) == Ok::<Seq<u8>, CryptoError>(data@)
            },
            Err(e) => e == CryptoError::EntropyUnavailable || (e == CryptoError::CipherConstraint
                && data@.len() > MAX_PLAINTEXT_LEN),
        },
{
    let salt = match generate_salt() {
        Ok(salt) => salt,
        Err(e) => { return Err(e); },
    };
    let nonce = match generate_nonce() {
        Ok(nonce) => nonce,
        Err(e) => { return Err(e); },
    };
    let envelope = encrypt_with(data, passphrase, &salt, &nonce);
    proof {
        lemma_parse_of_bytes(Envelope::seal(derived_key(passphrase.spec_bytes(), salt@), salt@, nonce@, data@));
    }
    envelope
}

/// Decrypts an envelope under `passphrase`.
///
/// The buffer is read as `nonce ‖ salt ‖ ciphertext`, the key is derived
/// from the passphrase and the salt found in the buffer, and the ciphertext
/// is opened. A buffer of fewer than 28 bytes is a `Format` error; a
/// ciphertext that does not authenticate, whether the passphrase is wrong
/// or the bytes were altered, is an `Authentication` error, and no
/// plaintext is released.
pub fn decrypt(envelope_bytes: &[u8], passphrase: &str) -> (plaintext: Result<Vec<u8>, CryptoError>)
    ensures
        match plaintext {
            Ok(data) => decrypted(envelope_bytes@, passphrase.spec_bytes()) == Ok::<Seq<u8>, CryptoError>(data@),
            Err(e) => decrypted(envelope_bytes@, passphrase.spec_bytes()) == Err::<Seq<u8>, CryptoError>(e),
        },
        envelope_bytes@.len() < HEADER_LEN <==> plaintext == Err::<Vec<u8>, CryptoError>(CryptoError::Format),
{
    let envelope = match EncryptedData::from_bytes(slice_to_vec(envelope_bytes)) {
        Ok(envelope) => envelope,
        Err(e) => { return Err(e); },
    };
    let key = derive_key_from_passphrase(passphrase.as_bytes(), envelope.salt.as_slice());
    open_with_key(&key, &envelope)
}

/// Reading back what was laid out gives the envelope itself: with nonce and
/// salt of their fixed lengths, the flat layout is unambiguous.
pub proof fn lemma_parse_of_bytes(envelope: Envelope)
    requires
        envelope.wf(),
    ensures
        Envelope::parse(envelope.bytes()) == Some(envelope),
{
    let bytes = envelope.bytes();
    assert(bytes.subrange(0, NONCE_LEN as int) == envelope.nonce);
    assert(bytes.subrange(NONCE_LEN as int, HEADER_LEN as int) == envelope.salt);
    assert(bytes.subrange(HEADER_LEN as int, bytes.len() as int) == envelope.ciphertext);
}

/// Laying out what was read gives the buffer itself, and what was read has
/// nonce and salt of their fixed lengths.
pub proof fn lemma_bytes_of_parse(bytes: Seq<u8>)
    requires
        bytes.len() >= HEADER_LEN,
    ensures
        Envelope::parse(bytes) matches Some(envelope) && envelope.wf() && envelope.bytes() == bytes,
{
    let envelope = Envelope::parse(bytes)->0;
    assert(envelope.bytes() == bytes);
}

} // verus!
