//! Key lifecycle against a credential vault.
//!
//! The single 32-byte symmetric key lives in the platform credential
//! vault under a fixed service and account pair. It is created lazily on
//! first use from an alphanumeric alphabet whose every character encodes
//! as exactly one byte, and is immutable thereafter.

use vstd::prelude::*;

use keyring::Entry;
use rand::distributions::Alphanumeric;
use rand::{thread_rng, Rng};

use crate::errors::StorageError;

verus! {

/// A byte of the base-62 key alphabet: an ASCII digit or letter.
pub open spec fn is_alnum_byte(b: u8) -> bool {
    (48 <= b <= 57) || (65 <= b <= 90) || (97 <= b <= 122)
}

/// Every byte of the sequence comes from the key alphabet.
pub open spec fn is_alnum_bytes(s: Seq<u8>) -> bool {
    forall|i: int| 0 <= i < s.len() ==> is_alnum_byte(#[trigger] s[i])
}

/// What one vault lookup found.
pub enum VaultLookup {
    /// An entry exists; these are its stored bytes, verbatim.
    Found(Vec<u8>),
    /// No entry exists yet: the benign condition that triggers creation.
    Missing,
    /// The vault could not be consulted at all.
    Unavailable,
}

/// Relies on keyring's Entry::get_password: reads the vault entry for
/// this service and account, telling the benign "no entry" condition
/// apart from every other failure. The outcome depends on external vault
/// state, so nothing is promised of it.
#[verifier::external_body]
fn vault_lookup(service: &str, account: &str) -> VaultLookup {
    match Entry::new(service, account).get_password() {
        Ok(secret) => VaultLookup::Found(secret.into_bytes()),
        Err(keyring::Error::NoEntry) => VaultLookup::Missing,
        Err(_) => VaultLookup::Unavailable,
    }
}

/// Relies on keyring's Entry::set_password: writes the vault entry for
/// this service and account and reports success. The secret is required
/// to be alphanumeric ASCII, so its lossless text form is handed over.
#[verifier::external_body]
fn vault_store(service: &str, account: &str, secret: &[u8]) -> (r: bool)
    requires
        is_alnum_bytes(secret@),
{
    let text = String::from_utf8_lossy(secret).into_owned();
    Entry::new(service, account).set_password(&text).is_ok()
}

/// Relies on rand's Alphanumeric distribution: 32 bytes drawn
/// independently and uniformly from a-z, A-Z and 0-9, one byte per
/// character, from a cryptographically secure source.
#[verifier::external_body]
fn random_alnum_key() -> (r: Vec<u8>)
    ensures
        r@.len() == 32,
        is_alnum_bytes(r@),
{
    thread_rng().sample_iter(&Alphanumeric).take(32).collect()
}

/// Decides what key creation yields once the vault write has reported:
/// the freshly generated key is handed out exactly when it was stored,
/// and an unstored candidate is never returned - a failed write is
/// `VaultUnavailable`.
pub fn key_from_write(fresh: Vec<u8>, stored: bool) -> (r: Result<Vec<u8>, StorageError>)
    ensures
        stored ==> (r matches Ok(key) && key@ == fresh@),
        !stored ==> r == Err::<Vec<u8>, StorageError>(StorageError::VaultUnavailable),
{
    if stored {
        Ok(fresh)
    } else {
        Err(StorageError::VaultUnavailable)
    }
}

/// Decides the key from one vault lookup outcome. A found entry is
/// returned verbatim - no fresh key is generated and nothing is written,
/// so the stored key is never silently rotated. A lookup failure
/// propagates as `VaultUnavailable`, again with nothing generated or
/// written. Only a missing entry triggers creation: a fresh 32-byte
/// alphanumeric key is written to the vault and handed out exactly when
/// the write succeeded.
pub fn key_from_lookup(lookup: VaultLookup) -> (r: Result<Vec<u8>, StorageError>)
    ensures
        lookup matches VaultLookup::Found(stored) ==> r matches Ok(key) && key@ == stored@,
        lookup is Unavailable ==> r == Err::<Vec<u8>, StorageError>(StorageError::VaultUnavailable),
        lookup is Missing ==> match r {
            Ok(key) => key@.len() == 32 && is_alnum_bytes(key@),
            Err(e) => e == StorageError::VaultUnavailable,
        },
{
    match lookup {
        VaultLookup::Found(key) => Ok(key),
        VaultLookup::Missing => {
            let fresh = random_alnum_key();
            let stored = vault_store("2do.txt Encryption Key", "2do.txt", fresh.as_slice());
            key_from_write(fresh, stored)
        },
        VaultLookup::Unavailable => Err(StorageError::VaultUnavailable),
    }
}

/// Obtains the symmetric key from the platform credential vault: one
/// lookup, decided by `key_from_lookup`. The stored bytes come back
/// verbatim when an entry exists, a freshly generated 32-byte
/// alphanumeric key - written back to the vault - when none does. Any
/// other vault failure, on lookup or on write, surfaces as
/// `VaultUnavailable`; nothing is retried.
pub fn get_or_create_key() -> (r: Result<Vec<u8>, StorageError>)
    ensures
        r matches Err(e) ==> e == StorageError::VaultUnavailable,
{
    key_from_lookup(vault_lookup("2do.txt Encryption Key", "2do.txt"))
}

/// The key an in-memory vault hands out: the stored entry verbatim when
/// one exists, the freshly generated material otherwise.
pub open spec fn stable_key(entry: Option<Seq<u8>>, fresh: Seq<u8>) -> Seq<u8> {
    match entry {
        Some(key) => key,
        None => fresh,
    }
}

/// The entry an in-memory vault holds after one key request: whatever
/// key was handed out.
pub open spec fn vault_after(entry: Option<Seq<u8>>, fresh: Seq<u8>) -> Option<Seq<u8>> {
    Some(stable_key(entry, fresh))
}

/// Key stability: once any key request has settled the vault entry,
/// every later request returns that same key, whatever fresh material it
/// might have generated.
pub proof fn lemma_key_stability(entry: Option<Seq<u8>>, fresh1: Seq<u8>, fresh2: Seq<u8>)
    ensures
        stable_key(vault_after(entry, fresh1), fresh2) == stable_key(entry, fresh1),
{
}

/// An in-process stand-in for the platform vault, holding at most one
/// entry. It follows the same contract as the platform-backed path and
/// lets the key lifecycle be exercised without an operating-system vault.
pub struct MemoryVault {
    entry: Option<Vec<u8>>,
}

impl View for MemoryVault {
    type V = Option<Seq<u8>>;

    closed spec fn view(&self) -> Option<Seq<u8>> {
        match self.entry {
            Some(key) => Some(key@),
            None => None,
        }
    }
}

impl MemoryVault {
    /// An empty vault: no key has been created yet.
    pub fn new() -> (r: MemoryVault)
        ensures
            r@ is None,
    {
        MemoryVault { entry: None }
    }

    /// A vault already holding the given secret, as if an earlier run
    /// had created it.
    pub fn with_entry(secret: Vec<u8>) -> (r: MemoryVault)
        ensures
            r@ == Some(secret@),
    {
        MemoryVault { entry: Some(secret) }
    }

    /// Returns the stored key, creating and storing a fresh 32-byte
    /// alphanumeric one first when the vault is empty. Idempotent: the
    /// entry, once set, is returned verbatim ever after.
    pub fn get_or_create_key(&mut self) -> (r: Vec<u8>)
        ensures
            r@ == stable_key(old(self)@, r@),
            final(self)@ == vault_after(old(self)@, r@),
            old(self)@ is None ==> r@.len() == 32 && is_alnum_bytes(r@),
    {
        match &self.entry {
            Some(key) => key.clone(),
            None => {
                let key = random_alnum_key();
                self.entry = Some(key.clone());
                key
            },
        }
    }
}

} // verus!
