use aes::cipher::generic_array::GenericArray;
use chacha20poly1305::aead::{Aead, KeyInit};
use chacha20poly1305::ChaCha20Poly1305;
use ferrum_vault::cipher::{
    decrypt_password, encrypt_password, encrypt_password_with_nonce, can_decrypt, can_encrypt, CipherError,
    NONCE_LEN, PBKDF2_ROUNDS, SALT,
};

fn reference_key(master: &str) -> [u8; 32] {
    let mut key = [0u8; 32];
    pbkdf2::pbkdf2_hmac::<sha2::Sha256>(master.as_bytes(), SALT.as_bytes(), PBKDF2_ROUNDS, &mut key);
    key
}

fn reference_encrypt(master: &str, plaintext: &[u8], nonce: &[u8]) -> String {
    let key = reference_key(master);
    let cipher = ChaCha20Poly1305::new(GenericArray::from_slice(&key));
    let sealed = cipher.encrypt(GenericArray::from_slice(nonce), plaintext).unwrap();
    let mut framed = nonce.to_vec();
    framed.extend_from_slice(&sealed);
    hex::encode(framed)
}

#[test]
fn encrypted_password_decrypts_back() {
    let stored = encrypt_password("master", "hunter2").unwrap();
    assert_eq!(decrypt_password("master", &stored), Ok("hunter2".to_string()));
}

#[test]
fn non_ascii_password_decrypts_back() {
    let stored = encrypt_password("clé maîtresse", "pässwörd ✓").unwrap();
    assert_eq!(decrypt_password("clé maîtresse", &stored), Ok("pässwörd ✓".to_string()));
}

#[test]
fn empty_password_decrypts_back() {
    let stored = encrypt_password("", "").unwrap();
    assert_eq!(decrypt_password("", &stored), Ok(String::new()));
}

#[test]
fn stored_form_is_lower_hex_of_nonce_ciphertext_and_tag() {
    let stored = encrypt_password("master", "hunter2").unwrap();
    assert_eq!(stored.len(), 2 * (NONCE_LEN + "hunter2".len() + 16));
    assert!(stored.chars().all(|c| c.is_ascii_digit() || ('a'..='f').contains(&c)));
}

#[test]
fn fresh_nonce_per_encryption() {
    let a = encrypt_password("master", "hunter2").unwrap();
    let b = encrypt_password("master", "hunter2").unwrap();
    assert_ne!(a, b);
}

#[test]
fn encryption_with_nonce_matches_reference() {
    let nonce = [7u8; 12];
    let stored = encrypt_password_with_nonce("master", "hunter2", &nonce).unwrap();
    assert_eq!(stored, reference_encrypt("master", b"hunter2", &nonce));
    assert!(stored.starts_with("070707070707070707070707"));
}

#[test]
fn wrong_master_password_is_chacha_error() {
    let stored = encrypt_password("master", "hunter2").unwrap();
    assert_eq!(decrypt_password("other", &stored), Err(CipherError::ChaChaError));
}

#[test]
fn tampered_ciphertext_is_chacha_error() {
    let stored = encrypt_password("master", "hunter2").unwrap();
    let mut bytes = hex::decode(&stored).unwrap();
    let last = bytes.len() - 1;
    bytes[last] ^= 1;
    assert_eq!(decrypt_password("master", &hex::encode(bytes)), Err(CipherError::ChaChaError));
}

#[test]
fn non_hex_text_is_hex_error() {
    assert_eq!(decrypt_password("master", "not hex at all"), Err(CipherError::HexError));
    assert_eq!(decrypt_password("master", "abc"), Err(CipherError::HexError));
}

#[test]
fn upper_case_hex_is_accepted() {
    let nonce = [0xabu8; 12];
    let stored = encrypt_password_with_nonce("m", "p", &nonce).unwrap();
    assert_eq!(decrypt_password("m", &stored.to_uppercase()), Ok("p".to_string()));
}

#[test]
fn non_utf8_plaintext_is_string_error() {
    let nonce = [1u8; 12];
    let stored = reference_encrypt("master", &[0xff, 0xfe], &nonce);
    assert_eq!(decrypt_password("master", &stored), Err(CipherError::StringError));
}

#[test]
fn frame_too_short_for_a_nonce_is_detected() {
    assert!(!can_decrypt("00112233"));
    assert!(!can_decrypt(""));
    assert!(can_decrypt("000102030405060708090a0b"));
    assert!(can_decrypt("zz"));
    assert!(can_encrypt("hunter2"));
    assert!(can_encrypt(""));
}

#[test]
fn bare_nonce_with_no_tag_is_chacha_error() {
    assert_eq!(decrypt_password("master", "000102030405060708090a0b"), Err(CipherError::ChaChaError));
}

#[test]
fn frame_shorter_than_nonce_and_tag_is_chacha_error() {
    let frame = hex::encode([0u8; 27]);
    assert_eq!(decrypt_password("master", &frame), Err(CipherError::ChaChaError));
}
