//! Authenticated symmetric encryption of a buffer in place.
//!
//! One master key gives two subkeys, one for an XChaCha12 keystream and one
//! for a keyed BLAKE3 tag over the ciphertext (encrypt, then authenticate).

pub mod cipher;
pub mod crypt;
pub mod laws;
pub mod mac;
pub mod nonce;
pub mod primitives;

pub use crate::crypt::{new, Crypt, Error};
