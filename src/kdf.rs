//! Key derivation: a secret of any length becomes a 32-byte key.

use vstd::prelude::*;
use crate::error::KeyError;
use crate::primitives::{sha256, sha256_of};

verus! {

/// Length in bytes of a symmetric key.
pub const KEY_LEN: usize = 32;

/// The key derived from a secret: its SHA-256 digest.
pub open spec fn derived_key(secret: Seq<u8>) -> Seq<u8> {
    sha256_of(secret)
}

/// Derives the symmetric key for `secret`. An empty secret is rejected.
pub fn derive_key(secret: &[u8]) -> (r: Result<Vec<u8>, KeyError>)
    ensures
        match r {
            Ok(k) => secret@.len() > 0 && k@ == derived_key(secret@) && k@.len() == KEY_LEN,
            Err(e) => secret@.len() == 0 && e == KeyError::InvalidKeyMaterial,
        },
{
    if secret.len() == 0 {
        return Err(KeyError::InvalidKeyMaterial);
    }
    Ok(sha256(secret))
}

/// Derivation is a function of the secret: equal secrets give equal keys,
/// and each key has the fixed key length.
pub proof fn lemma_derivation_deterministic(s1: Seq<u8>, s2: Seq<u8>, k1: Seq<u8>, k2: Seq<u8>)
    requires
        s1 == s2,
        s1.len() > 0,
        k1 == derived_key(s1),
        k2 == derived_key(s2),
    ensures
        k1 == k2,
{
}

} // verus!
