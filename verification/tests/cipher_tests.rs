//! Behaviour of the cipher layer, exercised with the real AES-256-GCM
//! primitive and the real random source.

use secure_storage::cipher::CipherService;
use secure_storage::errors::StorageError;

fn test_key() -> Vec<u8> {
    b"0123456789abcdef0123456789abcdef".to_vec()
}

fn cipher() -> CipherService {
    CipherService::new(test_key()).unwrap()
}

#[test]
fn round_trip_empty_payload() {
    let c = cipher();
    let envelope = c.encrypt(&[]);
    assert_eq!(envelope.len(), 28);
    let back = c.decrypt(&envelope).unwrap();
    assert_eq!(back, Vec::<u8>::new());
}

#[test]
fn round_trip_byte_payloads() {
    let c = cipher();
    let payloads: Vec<Vec<u8>> = vec![
        vec![0u8],
        vec![255u8; 1],
        b"abc123".to_vec(),
        vec![7u8; 1024],
        (0u8..=255u8).collect(),
    ];
    for payload in payloads {
        let envelope = c.encrypt(&payload);
        assert_eq!(envelope.len(), payload.len() + 28);
        let back = c.decrypt(&envelope).unwrap();
        assert_eq!(back, payload);
    }
}

#[test]
fn round_trip_text() {
    let c = cipher();
    let envelope = c.encrypt("hello, vault".as_bytes());
    let back = c.decrypt_text(&envelope).unwrap();
    assert_eq!(back, "hello, vault");
}

#[test]
fn invalid_key_length_rejected() {
    assert_eq!(
        CipherService::new(vec![1u8; 31]).err(),
        Some(StorageError::InvalidKeyLength)
    );
    assert_eq!(
        CipherService::new(vec![1u8; 33]).err(),
        Some(StorageError::InvalidKeyLength)
    );
    assert_eq!(
        CipherService::new(Vec::new()).err(),
        Some(StorageError::InvalidKeyLength)
    );
    assert!(CipherService::new(vec![1u8; 32]).is_ok());
}

#[test]
fn short_envelope_rejected() {
    let c = cipher();
    for len in 0..12 {
        let envelope = vec![0u8; len];
        assert_eq!(c.decrypt(&envelope).err(), Some(StorageError::FormatError));
        assert_eq!(
            c.decrypt_text(&envelope).err(),
            Some(StorageError::FormatError)
        );
    }
}

#[test]
fn nonce_only_envelope_fails_authentication() {
    let c = cipher();
    let envelope = vec![0u8; 12];
    assert_eq!(
        c.decrypt(&envelope).err(),
        Some(StorageError::AuthenticationError)
    );
}

#[test]
fn tampering_any_single_bit_fails_authentication() {
    let c = cipher();
    let envelope = c.encrypt(b"attack at dawn");
    for byte in 0..envelope.len() {
        for bit in 0..8 {
            let mut tampered = envelope.clone();
            tampered[byte] ^= 1u8 << bit;
            assert_eq!(
                c.decrypt(&tampered).err(),
                Some(StorageError::AuthenticationError),
                "flipped bit {} of byte {} and decryption still succeeded",
                bit,
                byte
            );
        }
    }
}

#[test]
fn truncated_and_extended_envelopes_fail_authentication() {
    let c = cipher();
    let envelope = c.encrypt(b"payload");
    let mut truncated = envelope.clone();
    truncated.pop();
    assert_eq!(
        c.decrypt(&truncated).err(),
        Some(StorageError::AuthenticationError)
    );
    let mut extended = envelope.clone();
    extended.push(0);
    assert_eq!(
        c.decrypt(&extended).err(),
        Some(StorageError::AuthenticationError)
    );
}

#[test]
fn foreign_key_fails_authentication() {
    let c = cipher();
    let other = CipherService::new(b"ffffffffffffffffffffffffffffffff".to_vec()).unwrap();
    let envelope = c.encrypt(b"secret");
    assert_eq!(
        other.decrypt(&envelope).err(),
        Some(StorageError::AuthenticationError)
    );
}

#[test]
fn non_text_payload_fails_text_decode() {
    let c = cipher();
    let envelope = c.encrypt(&[0xff, 0xfe, 0x80]);
    assert_eq!(
        c.decrypt_text(&envelope).err(),
        Some(StorageError::TextDecodeError)
    );
    assert_eq!(c.decrypt(&envelope).unwrap(), vec![0xff, 0xfe, 0x80]);
}

#[test]
fn nonces_are_unique_across_many_calls() {
    let c = cipher();
    let mut seen = std::collections::HashSet::new();
    for _ in 0..10_000 {
        let envelope = c.encrypt(b"x");
        let mut nonce = [0u8; 12];
        nonce.copy_from_slice(&envelope[..12]);
        assert!(seen.insert(nonce), "a 12-byte nonce repeated");
    }
}

#[test]
fn error_messages_name_each_failure() {
    assert_eq!(
        StorageError::FormatError.message(),
        "the envelope is shorter than its nonce"
    );
    assert_eq!(
        StorageError::AuthenticationError.message(),
        "the envelope failed authentication"
    );
    assert_eq!(
        StorageError::InvalidKeyLength.message(),
        "the encryption key is not 32 bytes"
    );
    assert_eq!(
        StorageError::VaultUnavailable.message(),
        "the credential vault is unavailable"
    );
    assert_eq!(
        StorageError::TextDecodeError.message(),
        "the decrypted bytes are not valid text"
    );
    assert_eq!(
        StorageError::StoreAccessError.message(),
        "the backing store could not be accessed"
    );
}
