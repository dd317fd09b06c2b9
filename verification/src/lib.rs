//! Encrypted secret storage: a vault-backed symmetric key, authenticated
//! encryption of byte payloads, and a persisted key-value store whose
//! values are encrypted at rest.

use vstd::prelude::*;

pub mod cipher;
pub mod encryption;
pub mod errors;
pub mod keys;
pub mod store;

verus! {

/// Length in bytes of the nonce that prefixes every envelope.
pub const NONCE_LENGTH: usize = 12;

} // verus!
