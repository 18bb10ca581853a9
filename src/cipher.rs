//! Authenticated encryption with AES-256-GCM under a 32-byte key and a
//! 12-byte nonce.

use vstd::prelude::*;
use crate::error::KeyError;
use crate::kdf::KEY_LEN;
use crate::nonce::NONCE_LEN;
use crate::primitives::{aes_gcm_seal, open_aes_gcm, seal_aes_gcm};
pub use crate::primitives::MAX_PLAINTEXT_LEN;

verus! {

/// Length in bytes of the authentication tag that ends each ciphertext.
pub const TAG_LEN: usize = 16;

/// A byte-vector result, seen as a result over byte sequences.
pub open spec fn bytes_result(r: Result<Vec<u8>, KeyError>) -> Result<Seq<u8>, KeyError> {
    match r {
        Ok(v) => Ok(v@),
        Err(e) => Err(e),
    }
}

/// What `encrypt` returns: the lengths are checked first, key before nonce.
pub open spec fn encrypt_spec(key: Seq<u8>, nonce: Seq<u8>, plaintext: Seq<u8>) -> Result<
    Seq<u8>,
    KeyError,
> {
    if key.len() != KEY_LEN {
        Err(KeyError::InvalidKeyMaterial)
    } else if nonce.len() != NONCE_LEN {
        Err(KeyError::InvalidNonce)
    } else {
        Ok(aes_gcm_seal(key, nonce, plaintext))
    }
}

/// Two sealed texts of equal length that agree on everything before the tag.
pub open spec fn same_body(a: Seq<u8>, b: Seq<u8>) -> bool {
    a.len() == b.len() && a.subrange(0, a.len() - TAG_LEN as int) == b.subrange(
        0,
        b.len() - TAG_LEN as int,
    )
}

/// What `decrypt` may return: after the length checks, the one plaintext
/// that seals to the ciphertext, or `AuthenticationFailure` when there is none.
pub open spec fn decrypt_outcome(
    key: Seq<u8>,
    nonce: Seq<u8>,
    ciphertext: Seq<u8>,
    r: Result<Seq<u8>, KeyError>,
) -> bool {
    if key.len() != KEY_LEN {
        r == Err::<Seq<u8>, KeyError>(KeyError::InvalidKeyMaterial)
    } else if nonce.len() != NONCE_LEN {
        r == Err::<Seq<u8>, KeyError>(KeyError::InvalidNonce)
    } else {
        match r {
            Ok(p) => p.len() <= MAX_PLAINTEXT_LEN && aes_gcm_seal(key, nonce, p) == ciphertext
                && (forall|q: Seq<u8>|
                q.len() <= MAX_PLAINTEXT_LEN && #[trigger] aes_gcm_seal(key, nonce, q)
                    == ciphertext ==> q == p) && forall|q: Seq<u8>|
                q.len() <= MAX_PLAINTEXT_LEN && same_body(
                    #[trigger] aes_gcm_seal(key, nonce, q),
                    ciphertext,
                ) ==> aes_gcm_seal(key, nonce, q) == ciphertext,
            Err(e) => e == KeyError::AuthenticationFailure && forall|q: Seq<u8>|
                q.len() <= MAX_PLAINTEXT_LEN ==> #[trigger] aes_gcm_seal(key, nonce, q)
                    != ciphertext,
        }
    }
}

/// Encrypts `plaintext` under `key` and `nonce`; the tag ends the result.
/// A key of the wrong length fails with `InvalidKeyMaterial`, then a nonce
/// of the wrong length with `InvalidNonce`, before the cipher runs.
pub fn encrypt(key: &[u8], nonce: &[u8], plaintext: &[u8]) -> (r: Result<Vec<u8>, KeyError>)
    requires
        plaintext@.len() <= MAX_PLAINTEXT_LEN,
    ensures
        bytes_result(r) == encrypt_spec(key@, nonce@, plaintext@),
        r matches Ok(c) ==> c@.len() == plaintext@.len() + TAG_LEN,
{
    if key.len() != KEY_LEN {
        return Err(KeyError::InvalidKeyMaterial);
    }
    if nonce.len() != NONCE_LEN {
        return Err(KeyError::InvalidNonce);
    }
    match seal_aes_gcm(key, nonce, plaintext) {
        Ok(c) => Ok(c),
        // Not taken: the plaintext is within the cipher's limit.
        Err(_) => Err(KeyError::AuthenticationFailure),
    }
}

/// Decrypts and authenticates `ciphertext` under `key` and `nonce`. Any
/// tampering, or a wrong key or nonce, gives `AuthenticationFailure`.
pub fn decrypt(key: &[u8], nonce: &[u8], ciphertext: &[u8]) -> (r: Result<Vec<u8>, KeyError>)
    ensures
        decrypt_outcome(key@, nonce@, ciphertext@, bytes_result(r)),
{
    if key.len() != KEY_LEN {
        return Err(KeyError::InvalidKeyMaterial);
    }
    if nonce.len() != NONCE_LEN {
        return Err(KeyError::InvalidNonce);
    }
    match open_aes_gcm(key, nonce, ciphertext) {
        Ok(p) => {
            // Longer than any plaintext that `encrypt` takes: not one of its outputs.
            if p.len() as u64 > MAX_PLAINTEXT_LEN {
                Err(KeyError::AuthenticationFailure)
            } else {
                Ok(p)
            }
        },
        Err(_) => Err(KeyError::AuthenticationFailure),
    }
}

/// Decrypting what `encrypt` produced, under the same key and nonce, gives
/// back the plaintext.
pub proof fn lemma_round_trip(
    key: Seq<u8>,
    nonce: Seq<u8>,
    plaintext: Seq<u8>,
    ciphertext: Seq<u8>,
    r: Result<Seq<u8>, KeyError>,
)
    requires
        plaintext.len() <= MAX_PLAINTEXT_LEN,
        encrypt_spec(key, nonce, plaintext) == Ok::<Seq<u8>, KeyError>(ciphertext),
        decrypt_outcome(key, nonce, ciphertext, r),
    ensures
        r == Ok::<Seq<u8>, KeyError>(plaintext),
{
    assert(aes_gcm_seal(key, nonce, plaintext) == ciphertext);
}

/// A ciphertext whose body is intact but whose tag was altered is always
/// rejected with `AuthenticationFailure`.
pub proof fn lemma_tag_tamper_detected(
    key: Seq<u8>,
    nonce: Seq<u8>,
    plaintext: Seq<u8>,
    tampered: Seq<u8>,
    r: Result<Seq<u8>, KeyError>,
)
    requires
        key.len() == KEY_LEN,
        nonce.len() == NONCE_LEN,
        plaintext.len() <= MAX_PLAINTEXT_LEN,
        same_body(aes_gcm_seal(key, nonce, plaintext), tampered),
        tampered != aes_gcm_seal(key, nonce, plaintext),
        decrypt_outcome(key, nonce, tampered, r),
    ensures
        r == Err::<Seq<u8>, KeyError>(KeyError::AuthenticationFailure),
{
    if r is Ok {
        assert(same_body(aes_gcm_seal(key, nonce, plaintext), tampered));
    }
}

/// Decryption accepts only authentic ciphertexts: whatever it accepts is
/// exactly what encrypting the returned plaintext produces.
pub proof fn lemma_decrypt_only_authentic(
    key: Seq<u8>,
    nonce: Seq<u8>,
    ciphertext: Seq<u8>,
    plaintext: Seq<u8>,
)
    requires
        decrypt_outcome(key, nonce, ciphertext, Ok::<Seq<u8>, KeyError>(plaintext)),
    ensures
        encrypt_spec(key, nonce, plaintext) == Ok::<Seq<u8>, KeyError>(ciphertext),
{
}

} // verus!
