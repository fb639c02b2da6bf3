use passphrase_cipher::aes::aes_encryption::EncryptedData;
use passphrase_cipher::CryptoError;

fn sample() -> EncryptedData {
    EncryptedData {
        nonce: vec![0xa0, 0xa1, 0xa2, 0xa3, 0xa4, 0xa5, 0xa6, 0xa7, 0xa8, 0xa9, 0xaa, 0xab],
        salt: [
            0x10, 0x11, 0x12, 0x13, 0x14, 0x15, 0x16, 0x17, 0x18, 0x19, 0x1a, 0x1b, 0x1c, 0x1d,
            0x1e, 0x1f,
        ],
        ciphertext: vec![0xc0, 0xc1, 0xc2, 0xc3, 0xc4],
    }
}

fn sample_bytes() -> Vec<u8> {
    vec![
        0xa0, 0xa1, 0xa2, 0xa3, 0xa4, 0xa5, 0xa6, 0xa7, 0xa8, 0xa9, 0xaa, 0xab, 0x10, 0x11, 0x12,
        0x13, 0x14, 0x15, 0x16, 0x17, 0x18, 0x19, 0x1a, 0x1b, 0x1c, 0x1d, 0x1e, 0x1f, 0xc0, 0xc1,
        0xc2, 0xc3, 0xc4,
    ]
}

#[test]
fn as_bytes_is_nonce_then_salt_then_ciphertext() {
    assert_eq!(sample().as_bytes(), sample_bytes());
}

#[test]
fn as_bytes_places_fields_at_fixed_offsets() {
    let bytes = sample().as_bytes();
    assert_eq!(bytes.len(), 12 + 16 + 5);
    assert_eq!(&bytes[0..12], sample().nonce.as_slice());
    assert_eq!(&bytes[12..28], &sample().salt[..]);
    assert_eq!(&bytes[28..], sample().ciphertext.as_slice());
}

#[test]
fn as_bytes_with_empty_ciphertext_is_the_header_alone() {
    let mut data = sample();
    data.ciphertext = Vec::new();
    let bytes = data.as_bytes();
    assert_eq!(bytes.len(), 28);
    assert_eq!(bytes, sample_bytes()[..28].to_vec());
}

#[test]
fn from_bytes_splits_at_twelve_and_twenty_eight() {
    let parsed = EncryptedData::from_bytes(sample_bytes()).unwrap();
    assert_eq!(parsed, sample());
}

#[test]
fn from_bytes_accepts_exactly_twenty_eight_bytes() {
    let parsed = EncryptedData::from_bytes(sample_bytes()[..28].to_vec()).unwrap();
    assert_eq!(parsed.nonce, sample().nonce);
    assert_eq!(parsed.salt, sample().salt);
    assert_eq!(parsed.ciphertext, Vec::<u8>::new());
}

#[test]
fn from_bytes_rejects_twenty_seven_bytes() {
    let parsed = EncryptedData::from_bytes(sample_bytes()[..27].to_vec());
    assert_eq!(parsed, Err(CryptoError::Format));
}

#[test]
fn from_bytes_rejects_every_shorter_buffer() {
    for len in 0..28 {
        let parsed = EncryptedData::from_bytes(sample_bytes()[..len].to_vec());
        assert_eq!(parsed, Err(CryptoError::Format), "length {}", len);
    }
}

#[test]
fn from_bytes_undoes_as_bytes() {
    let parsed = EncryptedData::from_bytes(sample().as_bytes()).unwrap();
    assert_eq!(parsed, sample());
}

#[test]
fn as_bytes_undoes_from_bytes() {
    let mut bytes = Vec::new();
    for i in 0..100u8 {
        bytes.push(i.wrapping_mul(37).wrapping_add(5));
    }
    let parsed = EncryptedData::from_bytes(bytes.clone()).unwrap();
    assert_eq!(parsed.nonce.len(), 12);
    assert_eq!(parsed.ciphertext.len(), 72);
    assert_eq!(parsed.as_bytes(), bytes);
}
