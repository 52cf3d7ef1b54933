use authcrypt::Crypt;
use chacha20::cipher::{KeyIvInit, StreamCipher};
use chacha20::XChaCha12;

fn cipher_subkey(master: &[u8]) -> [u8; 32] {
    blake3::derive_key("x123 BLAKE3 cipher", master)
}

fn mac_subkey(master: &[u8]) -> [u8; 32] {
    blake3::derive_key("x123 BLAKE3 mackey", master)
}

fn keystream_applied(key: &[u8; 32], nonce: &[u8; 24], input: &[u8]) -> Vec<u8> {
    let mut out = input.to_vec();
    XChaCha12::new(key.into(), nonce.into()).apply_keystream(&mut out);
    out
}

fn tag_of_message(key: &[u8; 32], message: &[u8]) -> [u8; 32] {
    *blake3::keyed_hash(key, message).as_bytes()
}

#[test]
fn subkeys_of_one_master_key_differ() {
    let master = [0x01u8; 32];
    assert_ne!(cipher_subkey(&master), mac_subkey(&master));
    assert_ne!(cipher_subkey(&master), master);
    assert_ne!(mac_subkey(&master), master);
}

#[test]
fn ciphertext_is_the_keystream_of_the_cipher_subkey() {
    let master = b"a master key of some length or other";
    let crypt = Crypt::new(master);
    let nonce = [9u8; 24];
    let mut buffer = *b"sixteen byte msg";
    crypt.encrypt(&mut buffer, Some(&nonce)).unwrap();
    let expected = keystream_applied(&cipher_subkey(master), &nonce, b"sixteen byte msg");
    assert_eq!(buffer.to_vec(), expected);
}

#[test]
fn tag_covers_length_then_ciphertext() {
    let master = [0x42u8; 32];
    let crypt = Crypt::new(&master);
    let mut buffer = *b"abc";
    let (_, mac) = crypt.encrypt(&mut buffer, Some(&[3u8; 24])).unwrap();
    let mut message = vec![0u8, 0, 0, 0, 0, 0, 0, 3];
    message.extend_from_slice(&buffer);
    assert_eq!(mac, tag_of_message(&mac_subkey(&master), &message));
}

#[test]
fn tag_covers_length_then_data_after_the_ciphertext() {
    let master = [0x42u8; 32];
    let crypt = Crypt::new(&master);
    let mut buffer = *b"abc";
    let (_, mac) = crypt.encrypt_with_data(&mut buffer, b"header", Some(&[3u8; 24])).unwrap();
    let mut message = vec![0u8, 0, 0, 0, 0, 0, 0, 3];
    message.extend_from_slice(&buffer);
    message.extend_from_slice(&[0u8, 0, 0, 0, 0, 0, 0, 6]);
    message.extend_from_slice(b"header");
    assert_eq!(mac, tag_of_message(&mac_subkey(&master), &message));
}

#[test]
fn tag_of_empty_data_covers_a_zero_length() {
    let master = [0x42u8; 32];
    let crypt = Crypt::new(&master);
    let mac = crypt.calculate_mac(b"abc", Some(b""));
    let message = [0u8, 0, 0, 0, 0, 0, 0, 3, b'a', b'b', b'c', 0, 0, 0, 0, 0, 0, 0, 0];
    assert_eq!(mac, tag_of_message(&mac_subkey(&master), &message));
}

#[test]
fn tag_of_a_long_buffer_carries_its_length_in_two_bytes() {
    let master = [5u8; 32];
    let crypt = Crypt::new(&master);
    let buffer = vec![0xabu8; 258];
    let mac = crypt.calculate_mac(&buffer, None);
    let mut message = vec![0u8, 0, 0, 0, 0, 0, 1, 2];
    message.extend_from_slice(&buffer);
    assert_eq!(mac, tag_of_message(&mac_subkey(&master), &message));
}

#[test]
fn a_wiped_engine_holds_zero_subkeys() {
    let mut crypt = Crypt::new(&[0x01u8; 32]);
    crypt.wipe();
    let nonce = [7u8; 24];
    let mut buffer = *b"hello world";
    let (_, mac) = crypt.encrypt(&mut buffer, Some(&nonce)).unwrap();
    assert_eq!(buffer.to_vec(), keystream_applied(&[0u8; 32], &nonce, b"hello world"));
    let mut message = vec![0u8, 0, 0, 0, 0, 0, 0, 11];
    message.extend_from_slice(&buffer);
    assert_eq!(mac, tag_of_message(&[0u8; 32], &message));
}

#[test]
fn an_engine_that_was_not_wiped_does_not_hold_zero_subkeys() {
    let crypt = Crypt::new(&[0x01u8; 32]);
    let nonce = [7u8; 24];
    let mut buffer = *b"hello world";
    crypt.encrypt(&mut buffer, Some(&nonce)).unwrap();
    assert_ne!(buffer.to_vec(), keystream_applied(&[0u8; 32], &nonce, b"hello world"));
}
