//! The outside primitives, and what is taken on trust of each.

use vstd::prelude::*;
use crate::cipher::xor_bytes;
use chacha20::cipher::KeyIvInit;
use chacha20::cipher::StreamCipher;
use zeroize::Zeroize;

verus! {

/// The 32 bytes that BLAKE3 derives from `material` under the context string
/// `context`.
pub uninterp spec fn derive_key(context: Seq<char>, material: Seq<u8>) -> Seq<u8>;

/// `blake3::derive_key`: the result is a function of the context string and
/// the key material alone.
#[verifier::external_body]
pub(crate) fn blake3_derive_key(context: &str, material: &[u8]) -> (subkey: [u8; 32])
    ensures
        subkey@ == derive_key(context@, material@),
{
    blake3::derive_key(context, material)
}

/// The 32-byte keyed BLAKE3 hash of `input` under `key`.
pub uninterp spec fn keyed_hash(key: Seq<u8>, input: Seq<u8>) -> Seq<u8>;

/// `blake3::Hasher`, carried as it is: nothing is known of a hasher but its
/// key and what it has been fed, named below.
#[verifier::external_type_specification]
#[verifier::external_body]
pub struct ExHasher(blake3::Hasher);

/// The key that a keyed hasher was made with; empty for any other hasher.
pub uninterp spec fn hasher_key(hasher: blake3::Hasher) -> Seq<u8>;

/// The bytes that a hasher has been fed so far, in order.
pub uninterp spec fn hasher_input(hasher: blake3::Hasher) -> Seq<u8>;

/// `blake3::Hasher::new_keyed`: a keyed hasher that has been fed nothing.
#[verifier::external_body]
pub(crate) fn hasher_new_keyed(key: &[u8; 32]) -> (hasher: blake3::Hasher)
    ensures
        hasher_key(hasher) == key@,
        hasher_input(hasher) == Seq::<u8>::empty(),
{
    blake3::Hasher::new_keyed(key)
}

/// `blake3::Hasher::update`: appends `input` to what the hasher has been fed
/// and leaves its key alone.
#[verifier::external_body]
pub(crate) fn hasher_update(hasher: &mut blake3::Hasher, input: &[u8])
    ensures
        hasher_key(*final(hasher)) == hasher_key(*old(hasher)),
        hasher_input(*final(hasher)) == hasher_input(*old(hasher)) + input@,
{
    hasher.update(input);
}

/// `blake3::Hasher::finalize`: for a keyed hasher, the keyed hash under its
/// key of all that it has been fed.
#[verifier::external_body]
pub(crate) fn hasher_finalize(hasher: &blake3::Hasher) -> (digest: [u8; 32])
    ensures
        hasher_key(*hasher).len() == 32 ==> digest@ == keyed_hash(
            hasher_key(*hasher),
            hasher_input(*hasher),
        ),
{
    *hasher.finalize().as_bytes()
}

/// The first `len` bytes of the extended output of the plain BLAKE3 hash of
/// `input`.
pub uninterp spec fn hash_xof(input: Seq<u8>, len: nat) -> Seq<u8>;

/// `blake3::Hasher::finalize_xof` on a plain hasher fed `input`, then
/// `blake3::OutputReader::fill`: `out` is filled from the start of the
/// extended output.
#[verifier::external_body]
pub(crate) fn blake3_hash_xof(input: &[u8], out: &mut [u8])
    ensures
        final(out)@ == hash_xof(input@, old(out)@.len()),
{
    blake3::Hasher::new().update(input).finalize_xof().fill(out);
}

/// Equality of `blake3::Hash` values: true exactly when the two tags hold the
/// same bytes, found in time that does not depend on where they differ.
#[verifier::external_body]
pub(crate) fn blake3_hash_eq(left: &[u8; 32], right: &[u8; 32]) -> (same: bool)
    ensures
        same == (left@ == right@),
{
    blake3::Hash::from_bytes(*left) == blake3::Hash::from_bytes(*right)
}

/// The longest buffer that one XChaCha12 keystream covers: 2^32 - 1 blocks of
/// 64 bytes.
pub const KEYSTREAM_LIMIT: u64 = 274_877_906_880;

/// The first `len` bytes of the XChaCha12 keystream for `key` and `nonce`.
pub uninterp spec fn keystream(key: Seq<u8>, nonce: Seq<u8>, len: nat) -> Seq<u8>;

/// `XChaCha12::new`, then `apply_keystream` on the fresh cipher: each byte of
/// the buffer is combined by exclusive or with the keystream byte at its
/// place, counted from the start of the stream. Longer buffers than the
/// stream holds are left out, since the call panics on them.
#[verifier::external_body]
pub(crate) fn xchacha12_apply_keystream(key: &[u8; 32], nonce: &[u8; 24], buffer: &mut [u8])
    requires
        old(buffer)@.len() <= KEYSTREAM_LIMIT,
    ensures
        final(buffer)@ == xor_bytes(
            old(buffer)@,
            keystream(key@, nonce@, old(buffer)@.len()),
        ),
{
    chacha20::XChaCha12::new(key.into(), nonce.into()).apply_keystream(buffer);
}

/// `getrandom::getrandom`: fills the buffer from the system's random source
/// and says whether that succeeded. The length stays; nothing is known of the
/// bytes, and after a failure they are not to be used.
#[verifier::external_body]
pub(crate) fn getrandom_fill(dest: &mut [u8]) -> (filled: bool)
    ensures
        final(dest)@.len() == old(dest)@.len(),
{
    getrandom::getrandom(dest).is_ok()
}

/// `Zeroize::zeroize` on a 32-byte array: every byte is zero afterwards.
#[verifier::external_body]
pub(crate) fn zeroize_key(key: &mut [u8; 32])
    ensures
        final(key)@ == Seq::new(32, |i: int| 0u8),
    opens_invariants none
    no_unwind
{
    key.zeroize();
}

} // verus!
