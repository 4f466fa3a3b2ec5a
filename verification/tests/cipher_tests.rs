use rufendec::cipher::{
    ecb_decrypt_file, ecb_encrypt_file, gcm_decrypt_file, gcm_encrypt_file, CipherError,
};
use rufendec::config::HashMode;
use rufendec::secrets::derive_key;

fn b(s: &str) -> Vec<u8> {
    s.as_bytes().to_vec()
}

fn key(password: &str, salt: &str) -> Vec<u8> {
    derive_key(&b(password), &b(salt), HashMode::PBKDF2, 10).unwrap()
}

#[test]
fn gcm_round_trip_reproduces_content() {
    let k = key("pw", "saltsalt");
    let msg = b("the quick brown fox");
    let out = gcm_encrypt_file(&msg, &k).unwrap();
    assert_eq!(out.len(), msg.len() + 28);
    // the ciphertext part is not the plaintext handed back unchanged
    assert_ne!(&out[..msg.len()], msg.as_slice());
    assert_eq!(gcm_decrypt_file(&out, &k), Ok(msg));
}

#[test]
fn gcm_round_trip_empty_file() {
    let k = key("pw", "saltsalt");
    let msg: Vec<u8> = Vec::new();
    let out = gcm_encrypt_file(&msg, &k).unwrap();
    assert_eq!(out.len(), 28);
    assert_eq!(gcm_decrypt_file(&out, &k), Ok(msg));
}

#[test]
fn gcm_wrong_key_fails_authentication() {
    let k1 = key("pw", "saltsalt");
    let k2 = key("other", "saltsalt");
    assert_ne!(k1, k2);
    let out = gcm_encrypt_file(&b("secret data"), &k1).unwrap();
    assert_eq!(gcm_decrypt_file(&out, &k2), Err(CipherError::AuthFailed));
}

#[test]
fn gcm_corrupted_ciphertext_fails_authentication() {
    let k = key("pw", "saltsalt");
    let mut out = gcm_encrypt_file(&b("secret data"), &k).unwrap();
    out[0] ^= 1;
    assert_eq!(gcm_decrypt_file(&out, &k), Err(CipherError::AuthFailed));
}

#[test]
fn gcm_input_shorter_than_nonce_is_rejected() {
    let k = key("pw", "saltsalt");
    assert_eq!(gcm_decrypt_file(&b("tiny"), &k), Err(CipherError::TooShort));
    assert_eq!(gcm_decrypt_file(&Vec::new(), &k), Err(CipherError::TooShort));
}

#[test]
fn gcm_nonces_are_unique_and_appended() {
    let k = key("pw", "saltsalt");
    let msg = b("same message every time");
    let mut nonces: Vec<Vec<u8>> = Vec::new();
    for _ in 0..200 {
        let out = gcm_encrypt_file(&msg, &k).unwrap();
        let nonce = out[out.len() - 12..].to_vec();
        assert_eq!(nonce.len(), 12);
        nonces.push(nonce);
    }
    for i in 0..nonces.len() {
        for j in 0..i {
            assert_ne!(nonces[i], nonces[j], "two runs drew the same nonce");
        }
    }
}

#[test]
fn ecb_round_trip_reproduces_content() {
    let k = key("pw", "saltsalt");
    let msg = b("12345");
    let out = ecb_encrypt_file(&msg, &k);
    // 5 bytes pad to one whole block
    assert_eq!(out.len(), 16);
    assert_ne!(out.as_slice(), msg.as_slice());
    assert_eq!(ecb_decrypt_file(&out, &k), Ok(msg));
}

#[test]
fn ecb_pads_aligned_input_with_a_full_block() {
    let k = key("pw", "saltsalt");
    let msg = b("0123456789abcdef");
    let out = ecb_encrypt_file(&msg, &k);
    assert_eq!(out.len(), 32);
    assert_eq!(ecb_decrypt_file(&out, &k), Ok(msg));
}

#[test]
fn ecb_rejects_partial_blocks() {
    let k = key("pw", "saltsalt");
    assert_eq!(ecb_decrypt_file(&b("123"), &k), Err(CipherError::BadPadding));
    assert_eq!(ecb_decrypt_file(&Vec::new(), &k), Err(CipherError::BadPadding));
}

#[test]
fn ecb_is_deterministic_gcm_is_not() {
    let k = key("pw", "saltsalt");
    let msg = b("a message");
    assert_eq!(ecb_encrypt_file(&msg, &k), ecb_encrypt_file(&msg, &k));
    let a = gcm_encrypt_file(&msg, &k).unwrap();
    let c = gcm_encrypt_file(&msg, &k).unwrap();
    assert_ne!(a, c, "fresh nonces must make fresh ciphertexts");
}
