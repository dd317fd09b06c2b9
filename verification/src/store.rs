//! The persisted key-value namespace whose values are encrypted at rest.
//!
//! Values live in the bucket `"secrets"` of a file store under
//! `<data directory>/user_data`, each as an opaque envelope. Every
//! operation resolves its own handle to the backing store; nothing is
//! cached across calls.

use vstd::prelude::*;
use vstd::string::StrSliceExecFns;
use vstd::utf8::encode_utf8;

use crate::cipher::{decrypt_text_model, CipherService, MAX_PLAINTEXT_LENGTH};
use crate::errors::StorageError;
use crate::keys::get_or_create_key;

verus! {

/// Relies on kv's Store, Bucket::get: opens the store under
/// `dir/user_data`, resolves the named bucket and reads the raw record
/// for the key. The outcome depends on external disk state, so nothing
/// is promised of it.
#[verifier::external_body]
fn store_read(dir: &str, bucket_name: &str, key: &String) -> Result<Option<Vec<u8>>, ()> {
    let config = kv::Config::new(std::path::Path::new(dir).join("user_data"));
    let store = kv::Store::new(config).map_err(|_| ())?;
    let bucket = store.bucket::<String, Vec<u8>>(Some(bucket_name)).map_err(|_| ())?;
    bucket.get(key).map_err(|_| ())
}

/// Relies on kv's Store, Bucket::set: opens the store under
/// `dir/user_data`, resolves the named bucket and writes the raw record
/// for the key, overwriting any existing one.
#[verifier::external_body]
fn store_write(dir: &str, bucket_name: &str, key: &String, value: &Vec<u8>) -> Result<(), ()> {
    let config = kv::Config::new(std::path::Path::new(dir).join("user_data"));
    let store = kv::Store::new(config).map_err(|_| ())?;
    let bucket = store.bucket::<String, Vec<u8>>(Some(bucket_name)).map_err(|_| ())?;
    bucket.set(key, value).map(|_| ()).map_err(|_| ())
}

/// Relies on kv's Store, Bucket::remove: opens the store under
/// `dir/user_data`, resolves the named bucket and deletes the record for
/// the key; deleting an absent record succeeds.
#[verifier::external_body]
fn store_delete(dir: &str, bucket_name: &str, key: &String) -> Result<(), ()> {
    let config = kv::Config::new(std::path::Path::new(dir).join("user_data"));
    let store = kv::Store::new(config).map_err(|_| ())?;
    let bucket = store.bucket::<String, Vec<u8>>(Some(bucket_name)).map_err(|_| ())?;
    bucket.remove(key).map(|_| ()).map_err(|_| ())
}

/// A persisted key-value namespace that encrypts each value on the way
/// to disk and authenticates it on the way back.
pub struct EncryptedStore {
    dir: String,
    cipher: CipherService,
}

impl EncryptedStore {
    /// The key every value of this store is sealed under.
    pub closed spec fn key_bytes(&self) -> Seq<u8> {
        self.cipher.key_bytes()
    }

    /// The construction invariant, inherited from the cipher.
    pub open spec fn valid(&self) -> bool {
        self.key_bytes().len() == 32
    }

    /// A store over the given data directory, encrypting with the given
    /// cipher.
    pub fn new(dir: String, cipher: CipherService) -> (r: EncryptedStore)
        requires
            cipher.valid(),
        ensures
            r.valid(),
            r.key_bytes() == cipher.key_bytes(),
    {
        EncryptedStore { dir, cipher }
    }

    /// Decides the result of one read from the raw outcome of the
    /// backing store, so that the mapping is pinned for every outcome:
    /// a store failure is `StoreAccessError`; an absent record is "no
    /// value", never an error, with no decryption attempted; and a
    /// present envelope yields exactly the outcome of decrypting it -
    /// a record that fails to open surfaces as that failure, never as
    /// absence and never as some other string.
    pub fn get_from_read(&self, read: Result<Option<Vec<u8>>, ()>) -> (r: Result<Option<String>, StorageError>)
        requires
            self.valid(),
        ensures
            match read {
                Err(_) => r == Err::<Option<String>, StorageError>(StorageError::StoreAccessError),
                Ok(None) => r == Ok::<Option<String>, StorageError>(None),
                Ok(Some(envelope)) => match r {
                    Ok(value) => (value matches Some(text)
                        && decrypt_text_model(self.key_bytes(), envelope@)
                            == Ok::<Seq<char>, StorageError>(text@)),
                    Err(e) => decrypt_text_model(self.key_bytes(), envelope@)
                        == Err::<Seq<char>, StorageError>(e),
                },
            },
    {
        match read {
            Err(_) => Err(StorageError::StoreAccessError),
            Ok(None) => Ok(None),
            Ok(Some(envelope)) => match self.cipher.decrypt_text(envelope.as_slice()) {
                Ok(text) => Ok(Some(text)),
                Err(e) => Err(e),
            },
        }
    }

    /// Reads and decrypts the value for `key`: one raw read of the
    /// backing store, decided by `get_from_read`. A returned string
    /// always comes from an envelope that verifies under this store's
    /// key, and key-layer errors cannot arise here.
    pub fn get(&self, key: &String) -> (r: Result<Option<String>, StorageError>)
        requires
            self.valid(),
        ensures
            r matches Ok(Some(text)) ==> (exists|envelope: Seq<u8>|
                #[trigger] decrypt_text_model(self.key_bytes(), envelope)
                    == Ok::<Seq<char>, StorageError>(text@)),
            r matches Err(e) ==> e != StorageError::InvalidKeyLength
                && e != StorageError::VaultUnavailable,
    {
        let read = store_read(self.dir.as_str(), "secrets", key);
        self.get_from_read(read)
    }

    /// Encrypts `value` under a fresh nonce and writes the envelope for
    /// `key`, overwriting any existing record. The store's own error is
    /// pinned exactly: a payload is rejected as malformed if and only if
    /// its byte encoding exceeds the cipher's limit, before anything is
    /// written. A failure of the backing store is a `StoreAccessError`,
    /// with no rollback to attempt, and the write outcome decides the
    /// result through `store_outcome`.
    pub fn set(&self, key: &String, value: &String) -> (r: Result<(), StorageError>)
        requires
            self.valid(),
        ensures
            r == Err::<(), StorageError>(StorageError::FormatError)
                <==> encode_utf8(value@).len() > MAX_PLAINTEXT_LENGTH,
            r matches Err(e) ==> e == StorageError::StoreAccessError
                || e == StorageError::FormatError,
    {
        let payload = value.as_str().as_bytes_vec();
        if payload.len() as u64 > MAX_PLAINTEXT_LENGTH {
            return Err(StorageError::FormatError);
        }
        let envelope = self.cipher.encrypt(payload.as_slice());
        store_outcome(store_write(self.dir.as_str(), "secrets", key, &envelope))
    }

    /// Deletes the record for `key`. Idempotent: removing an absent key
    /// still succeeds; the delete outcome decides the result through
    /// `store_outcome`, so only a failure of the backing store is an
    /// error.
    pub fn remove(&self, key: &String) -> (r: Result<(), StorageError>)
        ensures
            r matches Err(e) ==> e == StorageError::StoreAccessError,
    {
        store_outcome(store_delete(self.dir.as_str(), "secrets", key))
    }
}

/// Decides the result of one write or delete from the raw outcome of
/// the backing store: success passes through as success, failure as
/// `StoreAccessError`, and nothing else.
pub fn store_outcome(outcome: Result<(), ()>) -> (r: Result<(), StorageError>)
    ensures
        r is Ok <==> outcome is Ok,
        r matches Err(e) ==> e == StorageError::StoreAccessError,
{
    match outcome {
        Ok(_) => Ok(()),
        Err(_) => Err(StorageError::StoreAccessError),
    }
}

/// Resolves the vault key and builds an encrypted store over the given
/// data directory, as each storage operation does afresh.
pub fn open_store(data_dir: String) -> (r: Result<EncryptedStore, StorageError>)
    ensures
        r matches Ok(store) ==> store.valid(),
        r matches Err(e) ==> e == StorageError::VaultUnavailable
            || e == StorageError::InvalidKeyLength,
{
    let key = match get_or_create_key() {
        Ok(key) => key,
        Err(e) => return Err(e),
    };
    let cipher = match CipherService::new(key) {
        Ok(cipher) => cipher,
        Err(e) => return Err(e),
    };
    Ok(EncryptedStore::new(data_dir, cipher))
}

/// Reads the value stored for `key` under the given data directory,
/// reducing any structured failure to its textual message: an error
/// result always carries the fixed message of one of the six failure
/// kinds, never arbitrary text.
pub fn get_secure_storage_item(key: String, data_dir: String) -> (r: Result<Option<String>, String>)
    ensures
        r matches Ok(Some(text)) ==> (exists|store_key: Seq<u8>, envelope: Seq<u8>|
            store_key.len() == 32 && #[trigger] decrypt_text_model(store_key, envelope)
                == Ok::<Seq<char>, StorageError>(text@)),
        r matches Err(message) ==> message@ == "the credential vault is unavailable"@
            || message@ == "the encryption key is not 32 bytes"@
            || message@ == "the envelope is shorter than its nonce"@
            || message@ == "the envelope failed authentication"@
            || message@ == "the decrypted bytes are not valid text"@
            || message@ == "the backing store could not be accessed"@,
{
    let store = match open_store(data_dir) {
        Ok(store) => store,
        Err(e) => return Err(e.message()),
    };
    match store.get(&key) {
        Ok(value) => Ok(value),
        Err(e) => Err(e.message()),
    }
}

/// Decides the boolean flag the command boundary reports from one
/// structured outcome: `Ok(true)` exactly on success, `Ok(false)`
/// exactly on failure, never `Err` - failure crosses the boundary as a
/// flag, not as an error.
pub fn report_flag(outcome: Result<(), StorageError>) -> (r: Result<bool, bool>)
    ensures
        r == Ok::<bool, bool>(outcome is Ok),
{
    match outcome {
        Ok(_) => Ok(true),
        Err(_) => Ok(false),
    }
}

/// Stores `value` encrypted for `key` under the given data directory,
/// reporting plain success or failure as the command boundary expects:
/// the flag, decided by `report_flag`, is true exactly when the key was
/// resolved, the value encrypted and the envelope written.
pub fn set_secure_storage_item(key: String, value: String, data_dir: String) -> (r: Result<bool, bool>)
    ensures
        r is Ok,
{
    let outcome = match open_store(data_dir) {
        Ok(store) => store.set(&key, &value),
        Err(e) => Err(e),
    };
    report_flag(outcome)
}

/// Removes the record for `key` under the given data directory,
/// reporting plain success or failure as the command boundary expects:
/// the flag, decided by `report_flag`, is true exactly when the key was
/// resolved and the delete succeeded - removing an absent key succeeds.
pub fn remove_secure_storage_item(key: String, data_dir: String) -> (r: Result<bool, bool>)
    ensures
        r is Ok,
{
    let outcome = match open_store(data_dir) {
        Ok(store) => store.remove(&key),
        Err(e) => Err(e),
    };
    report_flag(outcome)
}

} // verus!
