//! The engine: two subkeys derived from one master key, and the four
//! operations on a buffer.

use vstd::prelude::*;
use crate::cipher::xor_bytes;
use crate::mac::{length_prefix, mac_message};
use crate::nonce::{get_nonce, optional_bytes};
use crate::primitives::{
    blake3_derive_key, blake3_hash_eq, derive_key, hasher_finalize, hasher_input,
    hasher_new_keyed, hasher_update, keyed_hash, keystream, xchacha12_apply_keystream, zeroize_key,
    KEYSTREAM_LIMIT,
};

verus! {

/// The context under which the cipher subkey is derived.
pub const CIPHER_CONTEXT: &'static str = "x123 BLAKE3 cipher";

/// The context under which the authentication subkey is derived.
pub const MACKEY_CONTEXT: &'static str = "x123 BLAKE3 mackey";

/// Why an operation gave no result.
#[derive(Debug, Clone, Copy, PartialEq, Eq)]
pub enum Error {
    /// The tag does not belong to the buffer and data it came with.
    FailedMessageAuthentication,
    /// The system's random source gave no nonce.
    EntropyUnavailable,
}

/// A subkey after it has been wiped: 32 zero bytes.
pub open spec fn zero_key() -> Seq<u8> {
    Seq::new(32, |i: int| 0u8)
}

/// Authenticated encryption and decryption with XChaCha12 and BLAKE3.
pub struct Crypt {
    key: [u8; 32],
    mak: [u8; 32],
}

impl Crypt {
    /// The subkey that keys the cipher.
    pub closed spec fn cipher_key(&self) -> Seq<u8> {
        self.key@
    }

    /// The subkey that keys the tag.
    pub closed spec fn mac_key(&self) -> Seq<u8> {
        self.mak@
    }

    /// What the cipher makes of `data` under `nonce`; the same in both
    /// directions.
    pub open spec fn transformed(&self, data: Seq<u8>, nonce: Seq<u8>) -> Seq<u8> {
        xor_bytes(data, keystream(self.cipher_key(), nonce, data.len()))
    }

    /// The tag of a ciphertext and its associated data.
    pub open spec fn tag(&self, ciphertext: Seq<u8>, data: Option<Seq<u8>>) -> Seq<u8> {
        keyed_hash(self.mac_key(), mac_message(ciphertext, data))
    }

    /// The ciphertext and tag that `plain` and its associated data come to
    /// under `nonce`.
    pub open spec fn sealed(&self, plain: Seq<u8>, data: Option<Seq<u8>>, nonce: Seq<u8>) -> (
        Seq<u8>,
        Seq<u8>,
    ) {
        let ciphertext = self.transformed(plain, nonce);
        (ciphertext, self.tag(ciphertext, data))
    }

    /// What a ciphertext opens to: the plaintext where `mac` is its tag,
    /// nothing where it is not.
    pub open spec fn opened(
        &self,
        ciphertext: Seq<u8>,
        data: Option<Seq<u8>>,
        nonce: Seq<u8>,
        mac: Seq<u8>,
    ) -> Option<Seq<u8>> {
        if mac == self.tag(ciphertext, data) {
            Some(self.transformed(ciphertext, nonce))
        } else {
            None
        }
    }

    /// Derives both subkeys from `key`, each under its own context, and keeps
    /// nothing else of it.
    pub fn new(key: &[u8]) -> (crypt: Crypt)
        ensures
            crypt.cipher_key() == derive_key(CIPHER_CONTEXT@, key@),
            crypt.mac_key() == derive_key(MACKEY_CONTEXT@, key@),
    {
        Crypt {
            key: blake3_derive_key(CIPHER_CONTEXT, key),
            mak: blake3_derive_key(MACKEY_CONTEXT, key),
        }
    }

    /// Encrypts the buffer in place under the given nonce, or under a random
    /// one where none is given, and returns the nonce and the tag of the
    /// ciphertext. A given nonce is used as it stands and cannot fail; without
    /// one the random source may fail, and the buffer is then left alone.
    pub fn encrypt(&self, buffer: &mut [u8], nonce: Option<&[u8; 24]>) -> (sealed: Result<
        ([u8; 24], [u8; 32]),
        Error,
    >)
        requires
            old(buffer)@.len() <= KEYSTREAM_LIMIT,
        ensures
            nonce is Some ==> sealed is Ok,
            sealed matches Ok((used, mac)) ==> (nonce matches Some(given) ==> used@ == given@) && (
                final(buffer)@,
                mac@,
            ) == self.sealed(old(buffer)@, None, used@),
            sealed matches Err(e) ==> e == Error::EntropyUnavailable && final(buffer)@ == old(
                buffer,
            )@,
    {
        match self.encrypt_buffer(buffer, nonce) {
            Ok(used) => Ok((used, self.calculate_mac(buffer, None))),
            Err(e) => Err(e),
        }
    }

    /// As `encrypt`, with a tag that also covers `data`.
    pub fn encrypt_with_data(
        &self,
        buffer: &mut [u8],
        data: &[u8],
        nonce: Option<&[u8; 24]>,
    ) -> (sealed: Result<([u8; 24], [u8; 32]), Error>)
        requires
            old(buffer)@.len() <= KEYSTREAM_LIMIT,
        ensures
            nonce is Some ==> sealed is Ok,
            sealed matches Ok((used, mac)) ==> (nonce matches Some(given) ==> used@ == given@) && (
                final(buffer)@,
                mac@,
            ) == self.sealed(old(buffer)@, Some(data@), used@),
            sealed matches Err(e) ==> e == Error::EntropyUnavailable && final(buffer)@ == old(
                buffer,
            )@,
    {
        match self.encrypt_buffer(buffer, nonce) {
            Ok(used) => Ok((used, self.calculate_mac(buffer, Some(data)))),
            Err(e) => Err(e),
        }
    }

    /// Settles the nonce and runs the cipher over the buffer.
    fn encrypt_buffer(&self, buffer: &mut [u8], nonce: Option<&[u8; 24]>) -> (used: Result<
        [u8; 24],
        Error,
    >)
        requires
            old(buffer)@.len() <= KEYSTREAM_LIMIT,
        ensures
            nonce is Some ==> used is Ok,
            used matches Ok(n) ==> (nonce matches Some(given) ==> n@ == given@) && final(buffer)@
                == self.transformed(old(buffer)@, n@),
            used matches Err(e) ==> e == Error::EntropyUnavailable && final(buffer)@ == old(
                buffer,
            )@,
    {
        let settled = match nonce {
            Some(given) => Ok(*given),
            None => get_nonce(None),
        };
        match settled {
            Ok(n) => {
                xchacha12_apply_keystream(&self.key, &n, buffer);
                Ok(n)
            },
            Err(e) => Err(e),
        }
    }

    /// Checks the tag and, only where it holds, decrypts the buffer in place
    /// under the given nonce. A buffer whose tag fails is left as it came.
    pub fn decrypt(&self, buffer: &mut [u8], nonce: &[u8; 24], mac: &[u8; 32]) -> (outcome: Result<
        (),
        Error,
    >)
        requires
            old(buffer)@.len() <= KEYSTREAM_LIMIT,
        ensures
            outcome is Ok ==> self.opened(old(buffer)@, None, nonce@, mac@) == Some(
                final(buffer)@,
            ),
            outcome matches Err(e) ==> e == Error::FailedMessageAuthentication && self.opened(
                old(buffer)@,
                None,
                nonce@,
                mac@,
            ) is None && final(buffer)@ == old(buffer)@,
    {
        if !self.mac_valid(mac, buffer, None) {
            return Err(Error::FailedMessageAuthentication);
        }
        self.decrypt_buffer(buffer, nonce);
        Ok(())
    }

    /// As `decrypt`, for a tag that also covers `data`.
    pub fn decrypt_with_data(
        &self,
        buffer: &mut [u8],
        data: &[u8],
        nonce: &[u8; 24],
        mac: &[u8; 32],
    ) -> (outcome: Result<(), Error>)
        requires
            old(buffer)@.len() <= KEYSTREAM_LIMIT,
        ensures
            outcome is Ok ==> self.opened(old(buffer)@, Some(data@), nonce@, mac@) == Some(
                final(buffer)@,
            ),
            outcome matches Err(e) ==> e == Error::FailedMessageAuthentication && self.opened(
                old(buffer)@,
                Some(data@),
                nonce@,
                mac@,
            ) is None && final(buffer)@ == old(buffer)@,
    {
        if !self.mac_valid(mac, buffer, Some(data)) {
            return Err(Error::FailedMessageAuthentication);
        }
        self.decrypt_buffer(buffer, nonce);
        Ok(())
    }

    /// Runs the cipher over the buffer under the given nonce.
    fn decrypt_buffer(&self, buffer: &mut [u8], nonce: &[u8; 24])
        requires
            old(buffer)@.len() <= KEYSTREAM_LIMIT,
        ensures
            final(buffer)@ == self.transformed(old(buffer)@, nonce@),
    {
        xchacha12_apply_keystream(&self.key, nonce, buffer);
    }

    /// Overwrites both subkeys with zero bytes. This is what dropping the
    /// engine does; after it the engine holds no secret and is of no further
    /// use.
    pub fn wipe(&mut self)
        ensures
            final(self).cipher_key() == zero_key(),
            final(self).mac_key() == zero_key(),
        opens_invariants none
        no_unwind
    {
        zeroize_key(&mut self.key);
        zeroize_key(&mut self.mak);
    }

    /// Calculates the tag for the given buffer and optional data.
    pub fn calculate_mac(&self, buffer: &[u8], data: Option<&[u8]>) -> (tag: [u8; 32])
        ensures
            tag@ == self.tag(buffer@, optional_bytes(data)),
    {
        let mut hasher = hasher_new_keyed(&self.mak);
        let prefix = length_prefix(buffer.len());
        hasher_update(&mut hasher, &prefix);
        hasher_update(&mut hasher, buffer);
        assert(hasher_input(hasher) =~= mac_message(buffer@, None));
        if let Some(data) = data {
            let prefix = length_prefix(data.len());
            hasher_update(&mut hasher, &prefix);
            hasher_update(&mut hasher, data);
            assert(hasher_input(hasher) =~= mac_message(buffer@, Some(data@)));
        }
        hasher_finalize(&hasher)
    }

    /// Whether `mac` is the tag of the buffer and optional data.
    pub fn mac_valid(&self, mac: &[u8; 32], buffer: &[u8], data: Option<&[u8]>) -> (valid: bool)
        ensures
            valid == (mac@ == self.tag(buffer@, optional_bytes(data))),
    {
        let expected = self.calculate_mac(buffer, data);
        blake3_hash_eq(&expected, mac)
    }
}

impl Drop for Crypt {
    /// Overwrites both subkeys with zero bytes before they are released.
    fn drop(&mut self)
        ensures
            final(self).cipher_key() == zero_key(),
            final(self).mac_key() == zero_key(),
        opens_invariants none
        no_unwind
    {
        self.wipe();
    }
}

/// A wrapper around `Crypt::new`.
pub fn new(key: &[u8]) -> (crypt: Crypt)
    ensures
        crypt.cipher_key() == derive_key(CIPHER_CONTEXT@, key@),
        crypt.mac_key() == derive_key(MACKEY_CONTEXT@, key@),
{
    Crypt::new(key)
}

} // verus!
