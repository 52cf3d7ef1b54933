use authcrypt::{Crypt, Error};

#[test]
fn decrypt_restores_what_encrypt_took() {
    let crypt = Crypt::new(&[7u8; 32]);
    let mut buffer = *b"attack at dawn";
    let (nonce, mac) = crypt.encrypt(&mut buffer, None).unwrap();
    assert_ne!(&buffer, b"attack at dawn");
    assert_eq!(crypt.decrypt(&mut buffer, &nonce, &mac), Ok(()));
    assert_eq!(&buffer, b"attack at dawn");
}

#[test]
fn decrypt_with_data_restores_what_encrypt_with_data_took() {
    let crypt = Crypt::new(b"short key");
    let mut buffer = *b"attack at dawn";
    let (nonce, mac) = crypt.encrypt_with_data(&mut buffer, b"to: general", None).unwrap();
    assert_ne!(&buffer, b"attack at dawn");
    assert_eq!(crypt.decrypt_with_data(&mut buffer, b"to: general", &nonce, &mac), Ok(()));
    assert_eq!(&buffer, b"attack at dawn");
}

#[test]
fn an_empty_buffer_goes_round() {
    let crypt = Crypt::new(&[]);
    let mut buffer: [u8; 0] = [];
    let (nonce, mac) = crypt.encrypt(&mut buffer, None).unwrap();
    assert_eq!(crypt.decrypt(&mut buffer, &nonce, &mac), Ok(()));
}

#[test]
fn a_buffer_of_many_blocks_goes_round() {
    let crypt = Crypt::new(&[0xa5u8; 64]);
    let plain: Vec<u8> = (0..5000u32).map(|i| (i % 251) as u8).collect();
    let mut buffer = plain.clone();
    let (nonce, mac) = crypt.encrypt_with_data(&mut buffer, &[], Some(&[1u8; 24])).unwrap();
    assert_eq!(nonce, [1u8; 24]);
    assert_ne!(buffer, plain);
    assert_eq!(crypt.decrypt_with_data(&mut buffer, &[], &nonce, &mac), Ok(()));
    assert_eq!(buffer, plain);
}

#[test]
fn applying_the_cipher_twice_gives_the_plaintext() {
    let crypt = Crypt::new(&[7u8; 32]);
    let nonce = [2u8; 24];
    let mut buffer = *b"twice over";
    crypt.encrypt(&mut buffer, Some(&nonce)).unwrap();
    crypt.encrypt(&mut buffer, Some(&nonce)).unwrap();
    assert_eq!(&buffer, b"twice over");
}

#[test]
fn a_given_nonce_is_returned_as_it_was_given() {
    let crypt = Crypt::new(&[7u8; 32]);
    let given: [u8; 24] = [
        1, 2, 3, 4, 5, 6, 7, 8, 9, 10, 11, 12, 13, 14, 15, 16, 17, 18, 19, 20, 21, 22, 23, 24,
    ];
    let mut buffer = *b"payload";
    let (nonce, _) = crypt.encrypt(&mut buffer, Some(&given)).unwrap();
    assert_eq!(nonce, given);
    let mut other = *b"payload";
    let (nonce, _) = crypt.encrypt_with_data(&mut other, b"x", Some(&given)).unwrap();
    assert_eq!(nonce, given);
    assert_eq!(buffer, other);
}

#[test]
fn random_nonces_differ_between_calls() {
    let crypt = Crypt::new(&[7u8; 32]);
    let mut first = *b"same plaintext";
    let mut second = *b"same plaintext";
    let (nonce1, mac1) = crypt.encrypt(&mut first, None).unwrap();
    let (nonce2, mac2) = crypt.encrypt(&mut second, None).unwrap();
    assert_ne!(nonce1, nonce2);
    assert_ne!(first, second);
    assert_ne!(mac1, mac2);
}

#[test]
fn encryption_is_the_same_for_the_same_key_and_nonce() {
    let first = Crypt::new(b"one key");
    let second = Crypt::new(b"one key");
    let mut a = *b"same plaintext";
    let mut b = *b"same plaintext";
    let sealed_a = first.encrypt(&mut a, Some(&[4u8; 24])).unwrap();
    let sealed_b = second.encrypt(&mut b, Some(&[4u8; 24])).unwrap();
    assert_eq!(a, b);
    assert_eq!(sealed_a, sealed_b);
}

#[test]
fn different_keys_give_different_ciphertexts_and_tags() {
    let first = Crypt::new(b"one key");
    let second = Crypt::new(b"another key");
    let mut a = *b"same plaintext";
    let mut b = *b"same plaintext";
    let (_, mac_a) = first.encrypt(&mut a, Some(&[4u8; 24])).unwrap();
    let (_, mac_b) = second.encrypt(&mut b, Some(&[4u8; 24])).unwrap();
    assert_ne!(a, b);
    assert_ne!(mac_a, mac_b);
    assert_eq!(
        second.decrypt(&mut a, &[4u8; 24], &mac_a),
        Err(Error::FailedMessageAuthentication)
    );
}
