//! Behaviour of the encrypted store, exercised against the real backing
//! file store on a scratch directory.

use secure_storage::cipher::CipherService;
use secure_storage::errors::StorageError;
use secure_storage::store::{report_flag, store_outcome, EncryptedStore};

fn scratch_store(tag: &str) -> EncryptedStore {
    let dir = format!("/tmp/secure_storage_check_{}", tag);
    let cipher = CipherService::new(b"0123456789abcdef0123456789abcdef".to_vec()).unwrap();
    EncryptedStore::new(dir, cipher)
}

#[test]
fn set_then_get_returns_the_value() {
    let store = scratch_store("set_get");
    store.set(&"token".to_string(), &"abc123".to_string()).unwrap();
    let got = store.get(&"token".to_string()).unwrap();
    assert_eq!(got, Some("abc123".to_string()));
}

#[test]
fn set_overwrites_an_existing_record() {
    let store = scratch_store("overwrite");
    store.set(&"token".to_string(), &"first".to_string()).unwrap();
    store.set(&"token".to_string(), &"second".to_string()).unwrap();
    let got = store.get(&"token".to_string()).unwrap();
    assert_eq!(got, Some("second".to_string()));
}

#[test]
fn get_of_absent_key_is_no_value() {
    let store = scratch_store("absent");
    assert_eq!(store.get(&"never-set".to_string()).unwrap(), None);
}

#[test]
fn remove_then_get_returns_no_value() {
    let store = scratch_store("remove");
    store.set(&"token".to_string(), &"abc123".to_string()).unwrap();
    store.remove(&"token".to_string()).unwrap();
    assert_eq!(store.get(&"token".to_string()).unwrap(), None);
}

#[test]
fn remove_of_absent_key_succeeds() {
    let store = scratch_store("remove_absent");
    assert!(store.remove(&"absent-key".to_string()).is_ok());
}

#[test]
fn empty_value_round_trips() {
    let store = scratch_store("empty_value");
    store.set(&"empty".to_string(), &"".to_string()).unwrap();
    assert_eq!(store.get(&"empty".to_string()).unwrap(), Some("".to_string()));
}

#[test]
fn corrupting_the_persisted_envelope_surfaces_an_error() {
    let dir = "/tmp/secure_storage_check_corrupt".to_string();
    let cipher = CipherService::new(b"0123456789abcdef0123456789abcdef".to_vec()).unwrap();
    let store = EncryptedStore::new(dir.clone(), cipher);
    store.set(&"k".to_string(), &"v".to_string()).unwrap();

    // Corrupt the raw record directly in the backing store, as on-disk
    // damage would.
    {
        let config = kv::Config::new(std::path::Path::new(&dir).join("user_data"));
        let raw_store = kv::Store::new(config).unwrap();
        let bucket = raw_store.bucket::<String, Vec<u8>>(Some("secrets")).unwrap();
        let mut envelope = bucket.get(&"k".to_string()).unwrap().unwrap();
        let last = envelope.len() - 1;
        envelope[last] ^= 0x01;
        bucket.set(&"k".to_string(), &envelope).unwrap();
    }

    let got = store.get(&"k".to_string());
    assert_eq!(got, Err(StorageError::AuthenticationError));
}

#[test]
fn read_decision_maps_every_outcome() {
    let cipher = CipherService::new(b"0123456789abcdef0123456789abcdef".to_vec()).unwrap();
    let envelope = cipher.encrypt("plain".as_bytes());
    let store = EncryptedStore::new("/tmp/secure_storage_check_decision".to_string(), cipher);

    // A failed read is a store error, not absence.
    assert_eq!(
        store.get_from_read(Err(())),
        Err(StorageError::StoreAccessError)
    );
    // An absent record is no value, not an error.
    assert_eq!(store.get_from_read(Ok(None)), Ok(None));
    // A present envelope yields exactly its decryption.
    assert_eq!(
        store.get_from_read(Ok(Some(envelope.clone()))),
        Ok(Some("plain".to_string()))
    );
    // A corrupt record surfaces as a failure, never as absence.
    let mut corrupt = envelope;
    corrupt[13] ^= 0x01;
    assert_eq!(
        store.get_from_read(Ok(Some(corrupt))),
        Err(StorageError::AuthenticationError)
    );
    assert_eq!(
        store.get_from_read(Ok(Some(vec![0u8; 5]))),
        Err(StorageError::FormatError)
    );
}

#[test]
fn write_outcome_decides_the_result() {
    assert_eq!(store_outcome(Ok(())), Ok(()));
    assert_eq!(store_outcome(Err(())), Err(StorageError::StoreAccessError));
}

#[test]
fn boundary_flag_reports_success_exactly() {
    assert_eq!(report_flag(Ok(())), Ok(true));
    assert_eq!(report_flag(Err(StorageError::StoreAccessError)), Ok(false));
    assert_eq!(report_flag(Err(StorageError::VaultUnavailable)), Ok(false));
}

#[test]
fn unusable_directory_is_a_store_access_error() {
    let cipher = CipherService::new(b"0123456789abcdef0123456789abcdef".to_vec()).unwrap();
    let store = EncryptedStore::new("/dev/null/not-a-directory".to_string(), cipher);
    assert_eq!(
        store.get(&"k".to_string()).err(),
        Some(StorageError::StoreAccessError)
    );
    assert_eq!(
        store.set(&"k".to_string(), &"v".to_string()).err(),
        Some(StorageError::StoreAccessError)
    );
    assert_eq!(
        store.remove(&"k".to_string()).err(),
        Some(StorageError::StoreAccessError)
    );
}
