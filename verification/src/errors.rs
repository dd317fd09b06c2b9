//! The failure taxonomy of the secure-storage subsystem.

use vstd::prelude::*;
use vstd::string::StringExecFns;

verus! {

/// Everything that can go wrong in the key, cipher and store layers.
///
/// The benign "no vault entry yet" condition is absorbed by key creation
/// and never surfaces here.
#[derive(Clone, Copy, Debug, PartialEq, Eq, Structural)]
pub enum StorageError {
    /// The platform credential vault could not be read or written.
    VaultUnavailable,
    /// A cipher was constructed from a key that is not exactly 32 bytes.
    InvalidKeyLength,
    /// An envelope is shorter than the 12-byte nonce it must start with.
    FormatError,
    /// The authentication tag did not verify: tampering, corruption,
    /// or a key other than the one that sealed the envelope.
    AuthenticationError,
    /// Decryption succeeded but the recovered bytes are not valid UTF-8.
    TextDecodeError,
    /// The backing key-value store could not be opened, read or written.
    StoreAccessError,
}

impl StorageError {
    /// The textual form that crosses the command boundary, where
    /// structured error kinds are not preserved.
    pub fn message(&self) -> (r: String)
        ensures
            *self == StorageError::VaultUnavailable ==> r@ == "the credential vault is unavailable"@,
            *self == StorageError::InvalidKeyLength ==> r@ == "the encryption key is not 32 bytes"@,
            *self == StorageError::FormatError ==> r@ == "the envelope is shorter than its nonce"@,
            *self == StorageError::AuthenticationError ==> r@ == "the envelope failed authentication"@,
            *self == StorageError::TextDecodeError ==> r@ == "the decrypted bytes are not valid text"@,
            *self == StorageError::StoreAccessError ==> r@ == "the backing store could not be accessed"@,
    {
        match self {
            StorageError::VaultUnavailable => String::from_str("the credential vault is unavailable"),
            StorageError::InvalidKeyLength => String::from_str("the encryption key is not 32 bytes"),
            StorageError::FormatError => String::from_str("the envelope is shorter than its nonce"),
            StorageError::AuthenticationError => String::from_str("the envelope failed authentication"),
            StorageError::TextDecodeError => String::from_str("the decrypted bytes are not valid text"),
            StorageError::StoreAccessError => String::from_str("the backing store could not be accessed"),
        }
    }
}

} // verus!
