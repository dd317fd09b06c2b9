//! Authenticated encryption of byte payloads with AES-256-GCM.
//!
//! An encrypted value is persisted as an *envelope*: a fresh 12-byte
//! nonce followed by the AEAD ciphertext and its 16-byte tag, with no
//! separator and no length prefix.

use vstd::prelude::*;
use vstd::slice::slice_subrange;
use vstd::utf8::{decode_utf8, valid_utf8};

use aes_gcm::aead::{Aead, KeyInit};
use aes_gcm::{Aes256Gcm, Key, Nonce};
use rand::{thread_rng, Rng};

use crate::errors::StorageError;
use crate::NONCE_LENGTH;

verus! {

/// AES-GCM refuses plaintexts longer than 2^36 bytes; nothing this
/// subsystem stores comes anywhere near that limit.
pub const MAX_PLAINTEXT_LENGTH: u64 = 0x1000000000;

/// What AES-256-GCM sealing yields for a given key, nonce and plaintext:
/// the ciphertext with the authentication tag appended. A function of its
/// three arguments alone.
pub uninterp spec fn seal_of(key: Seq<u8>, nonce: Seq<u8>, plaintext: Seq<u8>) -> Seq<u8>;

/// What AES-256-GCM opening yields for a given key, nonce and envelope
/// body: the recovered plaintext when the tag verifies, nothing when it
/// does not. A function of its three arguments alone.
pub uninterp spec fn open_of(key: Seq<u8>, nonce: Seq<u8>, body: Seq<u8>) -> Option<Seq<u8>>;

/// What `decrypt` returns for a given key and envelope.
pub open spec fn decrypt_model(key: Seq<u8>, envelope: Seq<u8>) -> Result<Seq<u8>, StorageError> {
    if envelope.len() < NONCE_LENGTH {
        Err(StorageError::FormatError)
    } else {
        match open_of(key, envelope.subrange(0, NONCE_LENGTH as int), envelope.subrange(NONCE_LENGTH as int, envelope.len() as int)) {
            Some(plaintext) => Ok(plaintext),
            None => Err(StorageError::AuthenticationError),
        }
    }
}

/// What `decrypt_text` returns for a given key and envelope.
pub open spec fn decrypt_text_model(key: Seq<u8>, envelope: Seq<u8>) -> Result<Seq<char>, StorageError> {
    match decrypt_model(key, envelope) {
        Err(e) => Err(e),
        Ok(plaintext) => if valid_utf8(plaintext) {
            Ok(decode_utf8(plaintext))
        } else {
            Err(StorageError::TextDecodeError)
        },
    }
}

/// Relies on aes_gcm: sealing appends a 16-byte tag to a same-length
/// ciphertext, fails only for plaintexts over 2^36 bytes, and opening a
/// sealed value under the same key and nonce recovers the plaintext.
#[verifier::external_body]
fn aead_seal(key: &[u8], nonce: &[u8], plaintext: &[u8]) -> (r: Vec<u8>)
    requires
        key@.len() == 32,
        nonce@.len() == NONCE_LENGTH,
        plaintext@.len() <= MAX_PLAINTEXT_LENGTH,
    ensures
        r@ == seal_of(key@, nonce@, plaintext@),
        r@.len() == plaintext@.len() + 16,
        open_of(key@, nonce@, r@) == Some(plaintext@),
{
    let cipher = Aes256Gcm::new(Key::<Aes256Gcm>::from_slice(key));
    cipher.encrypt(Nonce::from_slice(nonce), plaintext).unwrap()
}

/// Relies on aes_gcm: opening returns the sealed plaintext exactly when
/// the authentication tag verifies under this key and nonce, and fails
/// otherwise; the outcome depends on the three arguments alone. Success
/// pins the body: the verified tag is the one sealing would compute over
/// this ciphertext, and applying the keystream to the recovered
/// plaintext yields this ciphertext back, so the body is exactly the
/// sealed form of the recovered plaintext.
#[verifier::external_body]
fn aead_open(key: &[u8], nonce: &[u8], body: &[u8]) -> (r: Result<Vec<u8>, ()>)
    requires
        key@.len() == 32,
        nonce@.len() == NONCE_LENGTH,
    ensures
        r matches Ok(plaintext) ==> open_of(key@, nonce@, body@) == Some(plaintext@)
            && body@ == seal_of(key@, nonce@, plaintext@),
        r matches Err(e) ==> open_of(key@, nonce@, body@) is None,
{
    let cipher = Aes256Gcm::new(Key::<Aes256Gcm>::from_slice(key));
    cipher.decrypt(Nonce::from_slice(nonce), body).map_err(|_| ())
}

/// Relies on rand's thread_rng: a 12-byte draw from a cryptographically
/// secure source. Nothing is assumed of the bytes themselves.
#[verifier::external_body]
fn fresh_nonce() -> (r: Vec<u8>)
    ensures
        r@.len() == NONCE_LENGTH,
{
    let bytes: [u8; 12] = thread_rng().gen();
    bytes.to_vec()
}

/// Relies on String::from_utf8: succeeds exactly on valid UTF-8 and
/// returns the decoded text.
#[verifier::external_body]
pub(crate) fn bytes_to_string(bytes: Vec<u8>) -> (r: Result<String, ()>)
    ensures
        r matches Ok(s) ==> valid_utf8(bytes@) && s@ == decode_utf8(bytes@),
        r matches Err(e) ==> !valid_utf8(bytes@),
{
    String::from_utf8(bytes).map_err(|_| ())
}

/// Authenticated encryption under one 32-byte symmetric key.
pub struct CipherService {
    key: Vec<u8>,
}

impl CipherService {
    /// The raw key this service seals and opens with.
    pub closed spec fn key_bytes(&self) -> Seq<u8> {
        self.key@
    }

    /// The construction invariant: the key is exactly 32 bytes.
    pub open spec fn valid(&self) -> bool {
        self.key_bytes().len() == 32
    }

    /// Builds a cipher service, failing fast when the key is not exactly
    /// 32 bytes.
    pub fn new(key: Vec<u8>) -> (r: Result<CipherService, StorageError>)
        ensures
            r matches Ok(c) ==> key@.len() == 32 && c.key_bytes() == key@,
            r matches Err(e) ==> e == StorageError::InvalidKeyLength && key@.len() != 32,
    {
        if key.len() != 32 {
            Err(StorageError::InvalidKeyLength)
        } else {
            Ok(CipherService { key })
        }
    }

    /// Seals a payload under a fresh random nonce and returns the
    /// envelope `nonce ‖ ciphertext ‖ tag`.
    ///
    /// The last clause is the round-trip law: decrypting the returned
    /// envelope under the same key yields the payload back, for every
    /// payload, the empty one included.
    pub fn encrypt(&self, plaintext: &[u8]) -> (r: Vec<u8>)
        requires
            self.valid(),
            plaintext@.len() <= MAX_PLAINTEXT_LENGTH,
        ensures
            r@.len() == plaintext@.len() + NONCE_LENGTH + 16,
            r@.subrange(NONCE_LENGTH as int, r@.len() as int)
                == seal_of(self.key_bytes(), r@.subrange(0, NONCE_LENGTH as int), plaintext@),
            decrypt_model(self.key_bytes(), r@) == Ok::<Seq<u8>, StorageError>(plaintext@),
    {
        let nonce = fresh_nonce();
        let mut sealed = aead_seal(self.key.as_slice(), nonce.as_slice(), plaintext);
        let ghost nonce_view = nonce@;
        let ghost sealed_view = sealed@;
        let mut envelope = nonce;
        envelope.append(&mut sealed);
        proof {
            assert(envelope@.subrange(0, NONCE_LENGTH as int) =~= nonce_view);
            assert(envelope@.subrange(NONCE_LENGTH as int, envelope@.len() as int) =~= sealed_view);
        }
        envelope
    }

    /// Opens an envelope: rejects anything shorter than the nonce with
    /// `FormatError`, and any envelope whose tag does not verify with
    /// `AuthenticationError`; on success returns the recovered bytes.
    ///
    /// Success is owed only to genuine envelopes: the last clause says
    /// that a recovered payload comes from an envelope whose body is
    /// exactly the sealed form of that payload under this key and the
    /// envelope's own nonce - never from anything else.
    pub fn decrypt(&self, envelope: &[u8]) -> (r: Result<Vec<u8>, StorageError>)
        requires
            self.valid(),
        ensures
            r matches Ok(p) ==> decrypt_model(self.key_bytes(), envelope@) == Ok::<Seq<u8>, StorageError>(p@),
            r matches Err(e) ==> decrypt_model(self.key_bytes(), envelope@) == Err::<Seq<u8>, StorageError>(e),
            r matches Ok(p) ==> envelope@.len() >= NONCE_LENGTH
                && envelope@.subrange(NONCE_LENGTH as int, envelope@.len() as int)
                    == seal_of(self.key_bytes(), envelope@.subrange(0, NONCE_LENGTH as int), p@),
    {
        if envelope.len() < NONCE_LENGTH {
            return Err(StorageError::FormatError);
        }
        let nonce = slice_subrange(envelope, 0, NONCE_LENGTH);
        let body = slice_subrange(envelope, NONCE_LENGTH, envelope.len());
        match aead_open(self.key.as_slice(), nonce, body) {
            Ok(plaintext) => Ok(plaintext),
            Err(_) => Err(StorageError::AuthenticationError),
        }
    }

    /// Opens an envelope and additionally decodes the recovered bytes as
    /// UTF-8 text, rejecting non-text payloads with `TextDecodeError`.
    pub fn decrypt_text(&self, envelope: &[u8]) -> (r: Result<String, StorageError>)
        requires
            self.valid(),
        ensures
            r matches Ok(s) ==> decrypt_text_model(self.key_bytes(), envelope@) == Ok::<Seq<char>, StorageError>(s@),
            r matches Err(e) ==> decrypt_text_model(self.key_bytes(), envelope@) == Err::<Seq<char>, StorageError>(e),
    {
        match self.decrypt(envelope) {
            Err(e) => Err(e),
            Ok(plaintext) => match bytes_to_string(plaintext) {
                Ok(text) => Ok(text),
                Err(_) => Err(StorageError::TextDecodeError),
            },
        }
    }
}

} // verus!
