//! The one-call encryption pipeline: vault key in, envelope out.
//!
//! Each call obtains the active key from the platform vault anew, so a
//! key created by one process is used by every later one.

use vstd::prelude::*;

use crate::cipher::{decrypt_model, decrypt_text_model, CipherService, MAX_PLAINTEXT_LENGTH};
use crate::errors::StorageError;
use crate::keys::get_or_create_key;
use crate::NONCE_LENGTH;

verus! {

/// Encrypts a payload under the vault key: obtains or creates the key,
/// builds the cipher (failing fast when the stored key is not 32 bytes)
/// and seals the payload under a fresh nonce. The envelope decrypts back
/// to the payload under that same 32-byte key.
pub fn encrypt(plaintext: &[u8]) -> (r: Result<Vec<u8>, StorageError>)
    requires
        plaintext@.len() <= MAX_PLAINTEXT_LENGTH,
    ensures
        r matches Ok(envelope) ==> envelope@.len() == plaintext@.len() + NONCE_LENGTH + 16
            && (exists|key: Seq<u8>|
                key.len() == 32 && #[trigger] decrypt_model(key, envelope@)
                    == Ok::<Seq<u8>, StorageError>(plaintext@)),
        r matches Err(e) ==> e == StorageError::VaultUnavailable
            || e == StorageError::InvalidKeyLength,
{
    let key = match get_or_create_key() {
        Ok(key) => key,
        Err(e) => return Err(e),
    };
    let cipher = match CipherService::new(key) {
        Ok(cipher) => cipher,
        Err(e) => return Err(e),
    };
    let envelope = cipher.encrypt(plaintext);
    proof {
        assert(cipher.key_bytes().len() == 32
            && decrypt_model(cipher.key_bytes(), envelope@)
                == Ok::<Seq<u8>, StorageError>(plaintext@));
    }
    Ok(envelope)
}

/// Decrypts an envelope under the vault key and decodes the recovered
/// bytes as text. A short envelope is rejected as malformed, a tampered
/// or foreign-keyed one fails authentication, and non-text payloads are
/// rejected; a successful result always comes from an envelope that
/// verifies under the active 32-byte key.
pub fn decrypt(encrypted: &[u8]) -> (r: Result<String, StorageError>)
    ensures
        r matches Ok(text) ==> (exists|key: Seq<u8>|
            key.len() == 32 && #[trigger] decrypt_text_model(key, encrypted@)
                == Ok::<Seq<char>, StorageError>(text@)),
        r matches Err(e) ==> e != StorageError::StoreAccessError,
        encrypted@.len() < NONCE_LENGTH ==> match r {
            Ok(text) => false,
            Err(e) => e == StorageError::FormatError || e == StorageError::VaultUnavailable
                || e == StorageError::InvalidKeyLength,
        },
{
    let key = match get_or_create_key() {
        Ok(key) => key,
        Err(e) => return Err(e),
    };
    let cipher = match CipherService::new(key) {
        Ok(cipher) => cipher,
        Err(e) => return Err(e),
    };
    let text = match cipher.decrypt_text(encrypted) {
        Ok(text) => text,
        Err(e) => return Err(e),
    };
    proof {
        assert(cipher.key_bytes().len() == 32
            && decrypt_text_model(cipher.key_bytes(), encrypted@)
                == Ok::<Seq<char>, StorageError>(text@));
    }
    Ok(text)
}

} // verus!
