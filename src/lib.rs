//! Symmetric key management: key derivation, authenticated encryption,
//! a storable envelope format, and a key-record store with its service layer.

mod bytes;
mod cipher;
mod encryption;
mod envelope;
mod error;
mod kdf;
mod model;
mod nonce;
mod primitives;
mod service;
mod store;
mod text;

pub use cipher::{
    bytes_result, decrypt, decrypt_outcome, encrypt, encrypt_spec, lemma_decrypt_only_authentic,
    lemma_round_trip, lemma_tag_tamper_detected, same_body, MAX_PLAINTEXT_LEN, TAG_LEN,
};
pub use encryption::{
    decrypt_data, decrypt_message, encrypt_data, encrypt_message, envelope_len, lemma_data_round_trip,
    open_data_outcome, open_message_outcome, option_bytes, payload_fits, seal_data,
    seal_data_spec, seal_message, seal_message_spec, secret_key, string_result,
};
pub use envelope::{
    decode_envelope, decode_outcome, encode_envelope, lemma_envelope_round_trip,
    lemma_short_text_rejected, pair_result,
};
pub use error::KeyError;
pub use kdf::{derive_key, derived_key, lemma_derivation_deterministic, KEY_LEN};
pub use model::{summary_matches, CreateKeyRequest, Key, KeyRecord, KeyRequest, KeyResponse};
pub use nonce::{next_nonce, NONCE_LEN};
pub use primitives::{aes_gcm_seal, base64_of, sha256_of};
pub use service::{lookup_summary, KeyService};
pub use store::{new_record, MemoryKeyStore};
pub use text::Text;
