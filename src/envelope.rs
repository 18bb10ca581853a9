//! The envelope: a nonce followed by its ciphertext, carried as base64 text.

use vstd::prelude::*;
use crate::bytes::{concat, copy_range};
use crate::error::KeyError;
use crate::nonce::NONCE_LEN;
use crate::primitives::{base64_of, decode_base64, encode_base64};

verus! {

/// What `decode_envelope` may return for `text`: the nonce and ciphertext
/// whose joined bytes are the one byte sequence that `text` encodes, or
/// `FormatError` when `text` encodes no sequence of at least a nonce's length.
pub open spec fn decode_outcome(text: Seq<char>, r: Result<(Seq<u8>, Seq<u8>), KeyError>) -> bool {
    match r {
        Ok((n, c)) => n.len() == NONCE_LEN && base64_of(n + c) == text && text.len() == 4 * ((
        n.len() + c.len() + 2) / 3) && forall|b: Seq<u8>| #[trigger] base64_of(b) == text ==> b
            == n + c,
        Err(e) => e == KeyError::FormatError && forall|b: Seq<u8>|
            b.len() >= NONCE_LEN ==> #[trigger] base64_of(b) != text,
    }
}

/// A pair of byte vectors, seen as a pair of byte sequences.
pub open spec fn pair_result(r: Result<(Vec<u8>, Vec<u8>), KeyError>) -> Result<
    (Seq<u8>, Seq<u8>),
    KeyError,
> {
    match r {
        Ok((n, c)) => Ok((n@, c@)),
        Err(e) => Err(e),
    }
}

/// Encodes the nonce followed by the ciphertext as base64 text.
pub fn encode_envelope(nonce: &[u8], ciphertext: &[u8]) -> (r: String)
    requires
        nonce@.len() + ciphertext@.len() <= usize::MAX,
    ensures
        r@ == base64_of(nonce@ + ciphertext@),
        r@.len() == 4 * ((nonce@.len() + ciphertext@.len() + 2) / 3),
{
    let combined = concat(nonce, ciphertext);
    encode_base64(combined.as_slice())
}

/// Splits an envelope back into its nonce and ciphertext. Text that is not
/// valid base64, or that holds fewer bytes than a nonce, is a `FormatError`.
pub fn decode_envelope(text: &str) -> (r: Result<(Vec<u8>, Vec<u8>), KeyError>)
    ensures
        decode_outcome(text@, pair_result(r)),
{
    let combined = match decode_base64(text) {
        Ok(v) => v,
        Err(_) => return Err(KeyError::FormatError),
    };
    if combined.len() < NONCE_LEN {
        return Err(KeyError::FormatError);
    }
    let nonce = copy_range(combined.as_slice(), 0, NONCE_LEN);
    let ciphertext = copy_range(combined.as_slice(), NONCE_LEN, combined.len());
    proof {
        assert(nonce@ + ciphertext@ =~= combined@);
    }
    Ok((nonce, ciphertext))
}

/// Decoding an encoded envelope gives back its nonce and ciphertext.
pub proof fn lemma_envelope_round_trip(
    nonce: Seq<u8>,
    ciphertext: Seq<u8>,
    r: Result<(Seq<u8>, Seq<u8>), KeyError>,
)
    requires
        nonce.len() == NONCE_LEN,
        decode_outcome(base64_of(nonce + ciphertext), r),
    ensures
        r == Ok::<(Seq<u8>, Seq<u8>), KeyError>((nonce, ciphertext)),
{
    let b = nonce + ciphertext;
    match r {
        Ok((n, c)) => {
            assert(b == n + c);
            assert(n =~= b.subrange(0, NONCE_LEN as int));
            assert(nonce =~= b.subrange(0, NONCE_LEN as int));
            assert(c =~= b.subrange(NONCE_LEN as int, b.len() as int));
            assert(ciphertext =~= b.subrange(NONCE_LEN as int, b.len() as int));
        },
        Err(_) => {
            assert(base64_of(b) != base64_of(nonce + ciphertext));
        },
    }
}

/// Text shorter than a nonce never decodes to an envelope.
pub proof fn lemma_short_text_rejected(text: Seq<char>, r: Result<(Seq<u8>, Seq<u8>), KeyError>)
    requires
        text.len() < NONCE_LEN,
        decode_outcome(text, r),
    ensures
        r == Err::<(Seq<u8>, Seq<u8>), KeyError>(KeyError::FormatError),
{
    match r {
        Ok((n, c)) => {
            assert(n.len() + c.len() + 2 >= 14);
            assert((n.len() + c.len() + 2) / 3 >= 4);
        },
        Err(_) => {},
    }
}

} // verus!
