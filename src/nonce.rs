//! Fresh nonces, drawn from the operating system's secure random source.

use vstd::prelude::*;
use crate::error::KeyError;
use crate::primitives::fill_random;

verus! {

/// Length in bytes of a nonce.
pub const NONCE_LEN: usize = 12;

/// Draws a fresh 12-byte nonce. Fails with `RandomnessUnavailable` when the
/// random source cannot be read; no fixed value is ever substituted.
pub fn next_nonce() -> (r: Result<Vec<u8>, KeyError>)
    ensures
        match r {
            Ok(n) => n@.len() == NONCE_LEN,
            Err(e) => e == KeyError::RandomnessUnavailable,
        },
{
    let mut buf: Vec<u8> = Vec::new();
    let mut i: usize = 0;
    while i < NONCE_LEN
        invariant
            i <= NONCE_LEN,
            buf@.len() == i,
        decreases NONCE_LEN - i,
    {
        buf.push(0u8);
        i = i + 1;
    }
    match fill_random(&mut buf) {
        Ok(()) => Ok(buf),
        Err(_) => Err(KeyError::RandomnessUnavailable),
    }
}

} // verus!
