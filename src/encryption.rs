//! Sealing and opening payloads end to end: key derivation, encryption
//! under a fresh nonce, and the envelope.

use vstd::prelude::*;
use vstd::utf8::{decode_utf8, encode_utf8, valid_utf8};
use crate::bytes::{concat, copy_range};
use crate::cipher::{decrypt, decrypt_outcome, encrypt, lemma_round_trip, MAX_PLAINTEXT_LEN, TAG_LEN};
use crate::envelope::{decode_envelope, decode_outcome, encode_envelope, lemma_envelope_round_trip};
use crate::error::KeyError;
use crate::kdf::{derive_key, derived_key, KEY_LEN};
use crate::nonce::{next_nonce, NONCE_LEN};
use crate::primitives::{aes_gcm_seal, base64_of, utf8_string};

verus! {

/// A string result, seen as a result over character sequences.
pub open spec fn string_result(r: Result<String, KeyError>) -> Result<Seq<char>, KeyError> {
    match r {
        Ok(s) => Ok(s@),
        Err(e) => Err(e),
    }
}

/// A payload of `len` bytes can be encrypted, and its envelope held in memory.
pub open spec fn payload_fits(len: int) -> bool {
    len <= MAX_PLAINTEXT_LEN && len + NONCE_LEN + TAG_LEN <= usize::MAX
}

/// Length of the envelope of a payload of `len` bytes: base64 of the
/// nonce, the ciphertext and the tag.
pub open spec fn envelope_len(len: int) -> int {
    4 * ((NONCE_LEN + len + TAG_LEN + 2) / 3)
}

/// The key that a textual secret derives: the digest of its UTF-8 bytes.
pub open spec fn secret_key(secret: Seq<char>) -> Seq<u8> {
    derived_key(encode_utf8(secret))
}

/// What `seal_data` returns: the envelope of the nonce and of the UTF-8
/// bytes of `data` encrypted under the key derived from `secret`.
pub open spec fn seal_data_spec(data: Seq<char>, secret: Seq<char>, nonce: Seq<u8>) -> Result<
    Seq<char>,
    KeyError,
> {
    if secret.len() == 0 {
        Err(KeyError::InvalidKeyMaterial)
    } else if nonce.len() != NONCE_LEN {
        Err(KeyError::InvalidNonce)
    } else {
        Ok(base64_of(nonce + aes_gcm_seal(secret_key(secret), nonce, encode_utf8(data))))
    }
}

/// What `decrypt_data` may return for an envelope `text` and a `secret`:
/// the envelope is decoded first, then the secret is checked, then the
/// ciphertext is authenticated, and the plaintext must be UTF-8.
pub open spec fn open_data_outcome(
    text: Seq<char>,
    secret: Seq<char>,
    r: Result<Seq<char>, KeyError>,
) -> bool {
    match r {
        Ok(s) => secret.len() > 0 && exists|n: Seq<u8>, c: Seq<u8>, p: Seq<u8>|
            #[trigger] decode_outcome(text, Ok((n, c))) && #[trigger] decrypt_outcome(
                secret_key(secret),
                n,
                c,
                Ok(p),
            ) && valid_utf8(p) && s == decode_utf8(p),
        Err(e) => decode_outcome(text, Err(e)) || exists|n: Seq<u8>, c: Seq<u8>|
            #[trigger] decode_outcome(text, Ok((n, c))) && ((secret.len() == 0 && e
                == KeyError::InvalidKeyMaterial) || (secret.len() > 0 && decrypt_outcome(
                secret_key(secret),
                n,
                c,
                Err(e),
            )) || (secret.len() > 0 && e == KeyError::FormatError && exists|p: Seq<u8>|
                #[trigger] decrypt_outcome(secret_key(secret), n, c, Ok(p)) && !valid_utf8(p))),
    }
}

proof fn lemma_nonempty_encoding(s: Seq<char>)
    ensures
        s.len() == 0 <==> encode_utf8(s).len() == 0,
{
    if s.len() > 0 {
        assert(encode_utf8(s) == vstd::utf8::encode_scalar(s[0] as u32) + encode_utf8(
            s.drop_first(),
        ));
    }
}

/// Seals `data` under the key derived from `encryption_key`, with the given
/// nonce, into an envelope.
pub fn seal_data(data: &str, encryption_key: &str, nonce: &[u8]) -> (r: Result<String, KeyError>)
    requires
        payload_fits(encode_utf8(data@).len() as int),
    ensures
        string_result(r) == seal_data_spec(data@, encryption_key@, nonce@),
        r matches Ok(s) ==> s@.len() == envelope_len(encode_utf8(data@).len() as int),
{
    proof {
        lemma_nonempty_encoding(encryption_key@);
    }
    let key = match derive_key(encryption_key.as_bytes()) {
        Ok(k) => k,
        Err(e) => return Err(e),
    };
    let ciphertext = match encrypt(key.as_slice(), nonce, data.as_bytes()) {
        Ok(c) => c,
        Err(e) => return Err(e),
    };
    Ok(encode_envelope(nonce, ciphertext.as_slice()))
}

/// Seals `data` under the key derived from `encryption_key` with a fresh
/// random nonce. An empty secret fails with `InvalidKeyMaterial` before any
/// nonce is drawn.
pub fn encrypt_data(data: &str, encryption_key: &str) -> (r: Result<String, KeyError>)
    requires
        payload_fits(encode_utf8(data@).len() as int),
    ensures
        encryption_key@.len() == 0 ==> r == Err::<String, KeyError>(KeyError::InvalidKeyMaterial),
        encryption_key@.len() > 0 ==> match r {
            Ok(s) => exists|n: Seq<u8>|
                n.len() == NONCE_LEN && #[trigger] seal_data_spec(data@, encryption_key@, n) == Ok::<
                    Seq<char>,
                    KeyError,
                >(s@),
            Err(e) => e == KeyError::RandomnessUnavailable,
        },
        r matches Ok(s) ==> s@.len() == envelope_len(encode_utf8(data@).len() as int),
{
    if encryption_key.is_empty() {
        return Err(KeyError::InvalidKeyMaterial);
    }
    let nonce = match next_nonce() {
        Ok(n) => n,
        Err(e) => return Err(e),
    };
    let r = seal_data(data, encryption_key, nonce.as_slice());
    proof {
        assert(seal_data_spec(data@, encryption_key@, nonce@) == string_result(r));
    }
    r
}

/// Opens an envelope sealed under the key derived from `encryption_key`.
pub fn decrypt_data(encrypted_data: &str, encryption_key: &str) -> (r: Result<String, KeyError>)
    ensures
        open_data_outcome(encrypted_data@, encryption_key@, string_result(r)),
{
    let (nonce, ciphertext) = match decode_envelope(encrypted_data) {
        Ok(pair) => pair,
        Err(e) => return Err(e),
    };
    assert(decode_outcome(encrypted_data@, Ok((nonce@, ciphertext@))));
    proof {
        lemma_nonempty_encoding(encryption_key@);
    }
    let key = match derive_key(encryption_key.as_bytes()) {
        Ok(k) => k,
        Err(e) => return Err(e),
    };
    let plaintext = match decrypt(key.as_slice(), nonce.as_slice(), ciphertext.as_slice()) {
        Ok(p) => p,
        Err(e) => return Err(e),
    };
    let ghost p = plaintext@;
    assert(decrypt_outcome(secret_key(encryption_key@), nonce@, ciphertext@, Ok(p)));
    match utf8_string(plaintext) {
        Some(s) => Ok(s),
        None => Err(KeyError::FormatError),
    }
}

/// What `seal_message` returns: the nonce followed by the UTF-8 bytes of
/// `plaintext` encrypted under `key`, or nothing on a length mismatch.
pub open spec fn seal_message_spec(key: Seq<u8>, plaintext: Seq<char>, nonce: Seq<u8>) -> Option<
    Seq<u8>,
> {
    if key.len() != KEY_LEN || nonce.len() != NONCE_LEN {
        None
    } else {
        Some(nonce + aes_gcm_seal(key, nonce, encode_utf8(plaintext)))
    }
}

/// What `decrypt_message` may return for a message that starts with its nonce.
pub open spec fn open_message_outcome(key: Seq<u8>, message: Seq<u8>, r: Option<Seq<char>>) -> bool {
    if key.len() != KEY_LEN || message.len() < NONCE_LEN {
        r is None
    } else {
        let n = message.subrange(0, NONCE_LEN as int);
        let c = message.subrange(NONCE_LEN as int, message.len() as int);
        match r {
            Some(s) => exists|p: Seq<u8>|
                #[trigger] decrypt_outcome(key, n, c, Ok(p)) && valid_utf8(p) && s == decode_utf8(p),
            None => decrypt_outcome(key, n, c, Err(KeyError::AuthenticationFailure)) || exists|
                p: Seq<u8>,
            | #[trigger] decrypt_outcome(key, n, c, Ok(p)) && !valid_utf8(p),
        }
    }
}

/// An optional vector, seen as an optional sequence.
pub open spec fn option_bytes(r: Option<Vec<u8>>) -> Option<Seq<u8>> {
    match r {
        Some(v) => Some(v@),
        None => None,
    }
}

/// Encrypts `plaintext` under a 32-byte `key` with the given nonce, and
/// puts the nonce in front of the ciphertext.
pub fn seal_message(key: &[u8], plaintext: &str, nonce: &[u8]) -> (r: Option<Vec<u8>>)
    requires
        payload_fits(encode_utf8(plaintext@).len() as int),
    ensures
        option_bytes(r) == seal_message_spec(key@, plaintext@, nonce@),
        r matches Some(m) ==> m@.len() == NONCE_LEN + encode_utf8(plaintext@).len() + TAG_LEN,
{
    match encrypt(key, nonce, plaintext.as_bytes()) {
        Ok(c) => Some(concat(nonce, c.as_slice())),
        Err(_) => None,
    }
}

/// Encrypts `plaintext` under a 32-byte `key` with a fresh random nonce,
/// which leads the result. Nothing is returned for a key of another length
/// or when no nonce can be drawn.
pub fn encrypt_message(key: &[u8], plaintext: &str) -> (r: Option<Vec<u8>>)
    requires
        payload_fits(encode_utf8(plaintext@).len() as int),
    ensures
        key@.len() != KEY_LEN ==> r is None,
        r matches Some(m) ==> exists|n: Seq<u8>|
            n.len() == NONCE_LEN && #[trigger] seal_message_spec(key@, plaintext@, n) == Some(m@),
        r matches Some(m) ==> m@.len() == NONCE_LEN + encode_utf8(plaintext@).len() + TAG_LEN,
{
    if key.len() != KEY_LEN {
        return None;
    }
    let nonce = match next_nonce() {
        Ok(n) => n,
        Err(_) => return None,
    };
    let r = seal_message(key, plaintext, nonce.as_slice());
    proof {
        assert(seal_message_spec(key@, plaintext@, nonce@) == option_bytes(r));
    }
    r
}

/// Decrypts a message made by `encrypt_message`: its first 12 bytes are the
/// nonce, the rest the ciphertext. Nothing is returned for a key of another
/// length, a message shorter than a nonce, a failed authentication, or a
/// plaintext that is not UTF-8.
pub fn decrypt_message(key: &[u8], message: &[u8]) -> (r: Option<String>)
    ensures
        open_message_outcome(
            key@,
            message@,
            match r {
                Some(s) => Some(s@),
                None => None,
            },
        ),
{
    if key.len() != KEY_LEN || message.len() < NONCE_LEN {
        return None;
    }
    let nonce = copy_range(message, 0, NONCE_LEN);
    let ciphertext = copy_range(message, NONCE_LEN, message.len());
    let plaintext = match decrypt(key, nonce.as_slice(), ciphertext.as_slice()) {
        Ok(p) => p,
        Err(_) => return None,
    };
    let ghost p = plaintext@;
    assert(decrypt_outcome(key@, nonce@, ciphertext@, Ok(p)));
    utf8_string(plaintext)
}

/// Opening what `seal_data` produced, with the same secret, gives back the
/// data. (A derived key always has the key length, as `derive_key` states.)
pub proof fn lemma_data_round_trip(
    data: Seq<char>,
    secret: Seq<char>,
    nonce: Seq<u8>,
    text: Seq<char>,
    r: Result<Seq<char>, KeyError>,
)
    requires
        encode_utf8(data).len() <= MAX_PLAINTEXT_LEN,
        secret_key(secret).len() == KEY_LEN,
        seal_data_spec(data, secret, nonce) == Ok::<Seq<char>, KeyError>(text),
        open_data_outcome(text, secret, r),
    ensures
        r == Ok::<Seq<char>, KeyError>(data),
{
    broadcast use vstd::utf8::encode_utf8_valid_utf8, vstd::utf8::encode_utf8_decode_utf8;

    let key = secret_key(secret);
    let bytes = encode_utf8(data);
    let c0 = aes_gcm_seal(key, nonce, bytes);
    assert(text == base64_of(nonce + c0));
    lemma_nonempty_encoding(secret);
    match r {
        Ok(s) => {
            let (n, c, p) = choose|n: Seq<u8>, c: Seq<u8>, p: Seq<u8>|
                #[trigger] decode_outcome(text, Ok((n, c))) && #[trigger] decrypt_outcome(
                    key,
                    n,
                    c,
                    Ok(p),
                ) && valid_utf8(p) && s == decode_utf8(p);
            lemma_envelope_round_trip(nonce, c0, Ok((n, c)));
            lemma_round_trip(key, nonce, bytes, c0, Ok(p));
        },
        Err(e) => {
            if decode_outcome(text, Err(e)) {
                lemma_envelope_round_trip(nonce, c0, Err(e));
            } else {
                let (n, c) = choose|n: Seq<u8>, c: Seq<u8>|
                    #[trigger] decode_outcome(text, Ok((n, c))) && ((secret.len() == 0 && e
                        == KeyError::InvalidKeyMaterial) || (secret.len() > 0 && decrypt_outcome(
                        key,
                        n,
                        c,
                        Err(e),
                    )) || (secret.len() > 0 && e == KeyError::FormatError && exists|p: Seq<u8>|
                        #[trigger] decrypt_outcome(key, n, c, Ok(p)) && !valid_utf8(p)));
                lemma_envelope_round_trip(nonce, c0, Ok((n, c)));
                if decrypt_outcome(key, n, c, Err(e)) {
                    lemma_round_trip(key, nonce, bytes, c0, Err(e));
                } else {
                    let p = choose|p: Seq<u8>|
                        #[trigger] decrypt_outcome(key, n, c, Ok(p)) && !valid_utf8(p);
                    lemma_round_trip(key, nonce, bytes, c0, Ok(p));
                }
            }
        },
    }
}

} // verus!
