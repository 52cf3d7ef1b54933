//! Where a nonce comes from: the system's random source, or the hash of data
//! that the caller names.

use vstd::prelude::*;
use crate::crypt::Error;
use crate::primitives::{blake3_hash_xof, getrandom_fill, hash_xof};

verus! {

/// The view of data that may be absent.
pub open spec fn optional_bytes(data: Option<&[u8]>) -> Option<Seq<u8>> {
    match data {
        Some(d) => Some(d@),
        None => None,
    }
}

/// The nonce that given data always yields: the first 24 bytes of the
/// extended output of its hash.
pub open spec fn derived_nonce(data: Seq<u8>) -> Seq<u8> {
    hash_xof(data, 24)
}

/// What a draw from the random source comes to: the bytes drawn when the
/// source delivered, and `EntropyUnavailable` when it did not.
pub fn nonce_from_draw(filled: bool, drawn: [u8; 24]) -> (nonce: Result<[u8; 24], Error>)
    ensures
        filled ==> nonce == Ok::<[u8; 24], Error>(drawn),
        !filled ==> nonce == Err::<[u8; 24], Error>(Error::EntropyUnavailable),
{
    if filled {
        Ok(drawn)
    } else {
        Err(Error::EntropyUnavailable)
    }
}

/// A nonce derived from `data` where there is any, and drawn at random where
/// there is none. Derivation never fails; a draw fails only with
/// `EntropyUnavailable`.
pub fn get_nonce(data: Option<&[u8]>) -> (nonce: Result<[u8; 24], Error>)
    ensures
        data matches Some(d) ==> nonce matches Ok(n) && n@ == derived_nonce(d@),
        nonce matches Err(e) ==> e == Error::EntropyUnavailable && data is None,
{
    let mut nonce = [0u8; 24];
    match data {
        Some(data) => {
            blake3_hash_xof(data, &mut nonce);
            Ok(nonce)
        },
        None => {
            let filled = getrandom_fill(&mut nonce);
            nonce_from_draw(filled, nonce)
        },
    }
}

} // verus!
