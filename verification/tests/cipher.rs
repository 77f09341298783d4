use mypasswd::cipher::{decrypt, encrypt, CipherError};
use mypasswd::keymat::{derive_iv, derive_key};

fn key_iv() -> (Vec<u8>, Vec<u8>) {
    (
        derive_key(b"passwd").unwrap(),
        derive_iv(b"cnzwtzofghrjqkem").unwrap(),
    )
}

#[test]
fn hello_round_trip() {
    let (key, iv) = key_iv();
    let ciphertext = encrypt(b"hello", &key, &iv);
    let back = decrypt(&ciphertext, &key, &iv).unwrap();
    assert_eq!(back, b"hello".to_vec());
}

#[test]
fn ciphertext_differs_from_plaintext() {
    let (key, iv) = key_iv();
    let ciphertext = encrypt(b"hello", &key, &iv);
    assert_ne!(ciphertext, b"hello".to_vec());
    assert_eq!(ciphertext.len(), 16);
}

#[test]
fn empty_round_trip() {
    let (key, iv) = key_iv();
    let ciphertext = encrypt(b"", &key, &iv);
    assert_eq!(ciphertext.len(), 0);
    let back = decrypt(&ciphertext, &key, &iv).unwrap();
    assert_eq!(back, Vec::<u8>::new());
}

#[test]
fn large_buffer_round_trip() {
    // 10,000 bytes: more than twice the 4096-byte intermediate buffer,
    // so both loops go through several overflow rounds.
    let (key, iv) = key_iv();
    let plaintext: Vec<u8> = (0..10_000u32).map(|i| (i % 251) as u8).collect();
    let ciphertext = encrypt(&plaintext, &key, &iv);
    assert_eq!(ciphertext.len(), (10_000 / 16 + 1) * 16);
    let back = decrypt(&ciphertext, &key, &iv).unwrap();
    assert_eq!(back, plaintext);
}

#[test]
fn ciphertext_length_is_padded_to_blocks() {
    let (key, iv) = key_iv();
    for n in [1usize, 15, 16, 17, 31, 32, 4095, 4096, 4097] {
        let plaintext = vec![0xabu8; n];
        let ciphertext = encrypt(&plaintext, &key, &iv);
        assert_eq!(ciphertext.len() % 16, 0);
        assert_eq!(ciphertext.len(), (n / 16 + 1) * 16);
    }
}

#[test]
fn non_block_length_is_refused() {
    let (key, iv) = key_iv();
    let r = decrypt(&[0u8; 5], &key, &iv);
    assert_eq!(r, Err(CipherError::InvalidLength));
    let r = decrypt(&[0u8; 17], &key, &iv);
    assert_eq!(r, Err(CipherError::InvalidLength));
}

#[test]
fn corrupted_padding_is_refused() {
    let (key, iv) = key_iv();
    let mut ciphertext = encrypt(b"hello", &key, &iv);
    // Inverting the last ciphertext byte garbles the whole decrypted
    // block; for this fixed key and input the padding check fails.
    let last: usize = ciphertext.len() - 1;
    ciphertext[last] ^= 0xff;
    let r = decrypt(&ciphertext, &key, &iv);
    assert!(r.is_err());
}
