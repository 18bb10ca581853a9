//! The calls into the cryptographic and encoding crates, each with the
//! contract that this library relies on.

use vstd::prelude::*;
use aes_gcm::aead::Aead;
use aes_gcm::KeyInit;
use base64::Engine;
use sha2::Digest;
use vstd::utf8::{decode_utf8, valid_utf8};

verus! {

/// The largest plaintext, in bytes, that AES-256-GCM accepts.
pub const MAX_PLAINTEXT_LEN: u64 = 0x10_0000_0000;

/// The SHA-256 digest of a byte sequence.
pub uninterp spec fn sha256_of(data: Seq<u8>) -> Seq<u8>;

/// The AES-256-GCM ciphertext, authentication tag appended, of a plaintext
/// under a key and a nonce, with no associated data: the counter-mode
/// keystream applied to the plaintext, then the tag over the result.
pub uninterp spec fn aes_gcm_seal(key: Seq<u8>, nonce: Seq<u8>, plaintext: Seq<u8>) -> Seq<u8>;

/// The padded base64 text, standard alphabet, of a byte sequence.
pub uninterp spec fn base64_of(data: Seq<u8>) -> Seq<char>;

#[verifier::external_type_specification]
#[verifier::external_body]
pub struct ExAeadError(aes_gcm::aead::Error);

#[verifier::external_type_specification]
#[verifier::external_body]
pub struct ExRandomError(getrandom::Error);

#[verifier::external_type_specification]
#[verifier::external_body]
pub struct ExDecodeError(base64::DecodeError);

/// Relies on sha2::Sha256::digest: a 32-byte digest that depends on the input alone.
#[verifier::external_body]
pub(crate) fn sha256(data: &[u8]) -> (r: Vec<u8>)
    ensures
        r@ == sha256_of(data@),
        r@.len() == 32,
{
    sha2::Sha256::digest(data).to_vec()
}

/// Relies on aes_gcm's Aes256Gcm, built by KeyInit::new from a 32-byte key,
/// and Aead::encrypt with no associated data: it fails only above
/// `MAX_PLAINTEXT_LEN` bytes and appends a 16-byte tag.
#[verifier::external_body]
pub(crate) fn seal_aes_gcm(key: &[u8], nonce: &[u8], plaintext: &[u8]) -> (r: Result<
    Vec<u8>,
    aes_gcm::aead::Error,
>)
    requires
        key@.len() == 32,
        nonce@.len() == 12,
        plaintext@.len() <= MAX_PLAINTEXT_LEN,
    ensures
        match r {
            Ok(c) => c@ == aes_gcm_seal(key@, nonce@, plaintext@) && c@.len() == plaintext@.len()
                + 16,
            Err(_) => false,
        },
{
    let cipher = aes_gcm::Aes256Gcm::new(aes_gcm::Key::<aes_gcm::Aes256Gcm>::from_slice(key));
    cipher.encrypt(aes_gcm::Nonce::from_slice(nonce), plaintext)
}

/// Relies on aes_gcm's Aes256Gcm, built by KeyInit::new from a 32-byte key,
/// and Aead::decrypt with no associated data: it returns a plaintext only
/// when the tag matches, that is when sealing that plaintext gives back the
/// ciphertext; sealing is one-to-one on plaintexts that encryption accepts,
/// so no other such plaintext seals to it, and when it fails none does.
/// The tag is computed from the ciphertext body alone, so when the tag
/// matches, every sealed text with the same body is this ciphertext.
#[verifier::external_body]
pub(crate) fn open_aes_gcm(key: &[u8], nonce: &[u8], ciphertext: &[u8]) -> (r: Result<
    Vec<u8>,
    aes_gcm::aead::Error,
>)
    requires
        key@.len() == 32,
        nonce@.len() == 12,
    ensures
        match r {
            Ok(v) => v@.len() + 16 == ciphertext@.len() && aes_gcm_seal(key@, nonce@, v@)
                == ciphertext@,
            Err(_) => forall|p: Seq<u8>|
                p.len() <= MAX_PLAINTEXT_LEN ==> #[trigger] aes_gcm_seal(key@, nonce@, p)
                    != ciphertext@,
        },
        match r {
            Ok(v) => forall|p: Seq<u8>|
                p.len() <= MAX_PLAINTEXT_LEN && #[trigger] aes_gcm_seal(key@, nonce@, p)
                    == ciphertext@ ==> p == v@,
            Err(_) => true,
        },
        match r {
            Ok(_) => forall|p: Seq<u8>|
                p.len() <= MAX_PLAINTEXT_LEN && #[trigger] aes_gcm_seal(key@, nonce@, p).len()
                    == ciphertext@.len() && aes_gcm_seal(key@, nonce@, p).subrange(
                    0,
                    ciphertext@.len() - 16,
                ) == ciphertext@.subrange(0, ciphertext@.len() - 16) ==> aes_gcm_seal(
                    key@,
                    nonce@,
                    p,
                ) == ciphertext@,
            Err(_) => true,
        },
{
    let cipher = aes_gcm::Aes256Gcm::new(aes_gcm::Key::<aes_gcm::Aes256Gcm>::from_slice(key));
    cipher.decrypt(aes_gcm::Nonce::from_slice(nonce), ciphertext)
}

/// Relies on getrandom::getrandom: fills the buffer from the operating
/// system's secure random source, or fails; the length is unchanged.
#[verifier::external_body]
pub(crate) fn fill_random(buf: &mut Vec<u8>) -> (r: Result<(), getrandom::Error>)
    ensures
        final(buf)@.len() == old(buf)@.len(),
{
    getrandom::getrandom(buf.as_mut_slice())
}

/// Relies on base64's STANDARD engine, Engine::encode: padded output, four
/// characters for each started group of three bytes.
#[verifier::external_body]
pub(crate) fn encode_base64(data: &[u8]) -> (r: String)
    ensures
        r@ == base64_of(data@),
        r@.len() == 4 * ((data@.len() + 2) / 3),
{
    base64::engine::general_purpose::STANDARD.encode(data)
}

/// Relies on base64's STANDARD engine, Engine::decode, which requires
/// canonical padding and no trailing bits: it accepts exactly the texts
/// that Engine::encode produces, and gives back the bytes they encode.
#[verifier::external_body]
pub(crate) fn decode_base64(text: &str) -> (r: Result<Vec<u8>, base64::DecodeError>)
    ensures
        match r {
            Ok(v) => base64_of(v@) == text@ && text@.len() == 4 * ((v@.len() + 2) / 3)
                && forall|b: Seq<u8>| #[trigger] base64_of(b) == text@ ==> b == v@,
            Err(_) => forall|b: Seq<u8>| #[trigger] base64_of(b) != text@,
        },
{
    base64::engine::general_purpose::STANDARD.decode(text)
}

/// Relies on String::from_utf8: it succeeds exactly on valid UTF-8, with
/// the characters that the bytes encode.
#[verifier::external_body]
pub(crate) fn utf8_string(bytes: Vec<u8>) -> (r: Option<String>)
    ensures
        match r {
            Some(s) => valid_utf8(bytes@) && s@ == decode_utf8(bytes@),
            None => !valid_utf8(bytes@),
        },
{
    String::from_utf8(bytes).ok()
}

} // verus!
