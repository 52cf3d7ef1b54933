//! What holds of the engine as a whole, proved from the contracts of its
//! operations.

use vstd::prelude::*;
use crate::cipher::lemma_xor_bytes_twice;
use crate::crypt::{Crypt, CIPHER_CONTEXT, MACKEY_CONTEXT};
use crate::mac::{lemma_absent_data_differs_from_empty, lemma_mac_message_injective, mac_message};
use crate::nonce::derived_nonce;
use crate::primitives::{derive_key, keyed_hash, keystream};

verus! {

/// Round trip: what encryption produced, decryption accepts and turns back
/// into the plaintext, whatever the key, the nonce and the associated data.
pub proof fn lemma_round_trip(crypt: Crypt, plain: Seq<u8>, data: Option<Seq<u8>>, nonce: Seq<u8>)
    ensures
        crypt.opened(
            crypt.sealed(plain, data, nonce).0,
            data,
            nonce,
            crypt.sealed(plain, data, nonce).1,
        ) == Some(plain),
{
    let ciphertext = crypt.transformed(plain, nonce);
    let pad = keystream(crypt.cipher_key(), nonce, plain.len());
    assert(ciphertext.len() == plain.len());
    lemma_xor_bytes_twice(plain, pad);
}

/// A changed tag is refused: decryption opens a ciphertext for no tag but
/// its own.
pub proof fn lemma_changed_tag_is_refused(
    crypt: Crypt,
    ciphertext: Seq<u8>,
    data: Option<Seq<u8>>,
    nonce: Seq<u8>,
    mac: Seq<u8>,
)
    requires
        mac != crypt.tag(ciphertext, data),
    ensures
        crypt.opened(ciphertext, data, nonce, mac) is None,
{
}

/// A changed ciphertext or changed associated data is refused unless the
/// keyed hash gives two different messages the same tag: where a tag made
/// for one pair of ciphertext and data opens another pair, the two messages
/// differ and collide under the authentication subkey.
pub proof fn lemma_changed_content_needs_collision(
    crypt: Crypt,
    ciphertext: Seq<u8>,
    data: Option<Seq<u8>>,
    changed_ciphertext: Seq<u8>,
    changed_data: Option<Seq<u8>>,
    nonce: Seq<u8>,
)
    requires
        ciphertext.len() <= u64::MAX,
        changed_ciphertext.len() <= u64::MAX,
        data matches Some(d) ==> d.len() <= u64::MAX,
        changed_data matches Some(d) ==> d.len() <= u64::MAX,
        changed_ciphertext != ciphertext || changed_data != data,
        crypt.opened(changed_ciphertext, changed_data, nonce, crypt.tag(ciphertext, data))
            is Some,
    ensures
        mac_message(changed_ciphertext, changed_data) != mac_message(ciphertext, data),
        keyed_hash(crypt.mac_key(), mac_message(changed_ciphertext, changed_data)) == keyed_hash(
            crypt.mac_key(),
            mac_message(ciphertext, data),
        ),
{
    if mac_message(changed_ciphertext, changed_data) == mac_message(ciphertext, data) {
        lemma_mac_message_injective(changed_ciphertext, changed_data, ciphertext, data);
    }
}

/// The nonce is not covered by the tag: under another nonce a ciphertext
/// with its own tag is still accepted, and opens to the plaintext combined
/// with both keystreams.
pub proof fn lemma_nonce_is_not_authenticated(
    crypt: Crypt,
    plain: Seq<u8>,
    data: Option<Seq<u8>>,
    nonce: Seq<u8>,
    other_nonce: Seq<u8>,
)
    ensures
        crypt.opened(
            crypt.sealed(plain, data, nonce).0,
            data,
            other_nonce,
            crypt.sealed(plain, data, nonce).1,
        ) == Some(crypt.transformed(crypt.transformed(plain, nonce), other_nonce)),
{
}

/// Derivation is a function of the master key: engines made from the same
/// key hold the same two subkeys.
pub proof fn lemma_same_key_same_subkeys(first: Crypt, second: Crypt, key: Seq<u8>)
    requires
        first.cipher_key() == derive_key(CIPHER_CONTEXT@, key),
        first.mac_key() == derive_key(MACKEY_CONTEXT@, key),
        second.cipher_key() == derive_key(CIPHER_CONTEXT@, key),
        second.mac_key() == derive_key(MACKEY_CONTEXT@, key),
    ensures
        first.cipher_key() == second.cipher_key(),
        first.mac_key() == second.mac_key(),
        forall|plain: Seq<u8>, data: Option<Seq<u8>>, nonce: Seq<u8>|
            #[trigger] first.sealed(plain, data, nonce) == second.sealed(plain, data, nonce),
{
}

/// The two subkeys are derived under different contexts.
pub proof fn lemma_contexts_differ()
    ensures
        CIPHER_CONTEXT@ != MACKEY_CONTEXT@,
{
    reveal_strlit("x123 BLAKE3 cipher");
    reveal_strlit("x123 BLAKE3 mackey");
    assert(CIPHER_CONTEXT@[12] == 'c');
    assert(MACKEY_CONTEXT@[12] == 'm');
}

/// A derived nonce is a function of the data: the same data gives the same
/// nonce.
pub proof fn lemma_same_data_same_nonce(first: Seq<u8>, second: Seq<u8>)
    requires
        first == second,
    ensures
        derived_nonce(first) == derived_nonce(second),
{
}

/// With no data the tag is taken over a shorter message than with empty
/// data, so the two tags are hashes of different messages.
pub proof fn lemma_no_data_is_not_empty_data(crypt: Crypt, ciphertext: Seq<u8>)
    ensures
        crypt.tag(ciphertext, None) == keyed_hash(crypt.mac_key(), mac_message(ciphertext, None)),
        crypt.tag(ciphertext, Some(Seq::<u8>::empty())) == keyed_hash(
            crypt.mac_key(),
            mac_message(ciphertext, Some(Seq::<u8>::empty())),
        ),
        mac_message(ciphertext, None) != mac_message(ciphertext, Some(Seq::<u8>::empty())),
{
    lemma_absent_data_differs_from_empty(ciphertext);
}

} // verus!
