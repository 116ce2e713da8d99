//! Encryption of stored passwords under a key derived from the master
//! password: PBKDF2-HMAC-SHA256 for the key, ChaCha20-Poly1305 for the
//! cipher, and the stored form `hex(nonce || ciphertext)`.

use vstd::prelude::*;
use vstd::utf8::*;
use crate::encoding::{hex_decode, hex_decode_str, hex_encode, hex_lower, lemma_hex_round_trip};
use aes::cipher::generic_array::GenericArray;
use chacha20poly1305::aead::{Aead, AeadCore, KeyInit, OsRng};
use chacha20poly1305::ChaCha20Poly1305;
use pbkdf2::pbkdf2_hmac;
use sha2::Sha256;

verus! {

broadcast use {encode_utf8_valid_utf8, encode_utf8_decode_utf8, decode_utf8_encode_utf8};

/// Why encrypting or decrypting a password failed.
#[derive(Debug, Clone, Copy, PartialEq, Eq, Structural)]
pub enum CipherError {
    /// The cipher refused the input: a wrong key or a tampered ciphertext
    /// on decryption, an oversized plaintext on encryption.
    ChaChaError,
    /// The stored text is not hex.
    HexError,
    /// The decrypted bytes are not UTF-8.
    StringError,
}

/// The salt of the key derivation.
pub const SALT: &'static str = "unique_salt_value";

/// PBKDF2 iteration count of the key derivation.
pub const PBKDF2_ROUNDS: u32 = 100_000;

/// Length in bytes of the nonce that precedes every ciphertext.
pub const NONCE_LEN: usize = 12;

/// Length in bytes of the ChaCha20-Poly1305 tag.
pub const TAG_LEN: usize = 16;

/// The 32-byte key that PBKDF2-HMAC-SHA256 derives from `password` and
/// `salt` in `rounds` iterations.
pub uninterp spec fn pbkdf2_hmac_sha256_32(password: Seq<u8>, salt: Seq<u8>, rounds: u32) -> Seq<u8>;

/// ChaCha20-Poly1305 encryption, without associated data: ciphertext
/// followed by the tag.
pub uninterp spec fn chacha20poly1305_seal(key: Seq<u8>, nonce: Seq<u8>, plaintext: Seq<u8>) -> Seq<u8>;

/// ChaCha20-Poly1305 decryption, without associated data: the plaintext
/// when the tag verifies, else nothing.
pub uninterp spec fn chacha20poly1305_open(key: Seq<u8>, nonce: Seq<u8>, ciphertext: Seq<u8>) -> Option<Seq<u8>>;

/// The salt as bytes.
pub open spec fn salt_bytes() -> Seq<u8> {
    encode_utf8(SALT@)
}

/// The key derived from a master password.
pub open spec fn derived_key(master_password: Seq<char>) -> Seq<u8> {
    pbkdf2_hmac_sha256_32(encode_utf8(master_password), salt_bytes(), PBKDF2_ROUNDS)
}

/// Whether the cipher takes a plaintext of this length: it refuses one of
/// `u32::MAX` blocks of 64 bytes or more.
pub open spec fn seal_accepts(len: nat) -> bool {
    len / 64 < 0xFFFF_FFFF
}

/// Whether the ChaCha20 keystream reaches over a message of this length: it
/// starts at block 1 and ends before block `u32::MAX`, so it covers
/// `u32::MAX - 1` blocks of 64 bytes.
pub open spec fn keystream_covers(len: nat) -> bool {
    len <= 64 * (0xFFFF_FFFF - 1)
}

/// Whether the cipher panics on a message of this length: it takes the
/// message, then runs out of keystream while applying it.
pub open spec fn cipher_panics(len: nat) -> bool {
    seal_accepts(len) && !keystream_covers(len)
}

/// Whether encrypting a plaintext of this length returns at all: the output
/// buffer holds the plaintext and the tag, at most `isize::MAX` bytes, and
/// the cipher does not panic on it.
pub open spec fn sealed_fits(len: nat) -> bool {
    len + TAG_LEN <= isize::MAX && !cipher_panics(len)
}

/// The stored form of `password` encrypted under `master_password` with
/// `nonce`, or `None` where the cipher refuses the plaintext.
pub open spec fn encrypted_with_nonce(master_password: Seq<char>, password: Seq<char>, nonce: Seq<u8>) -> Option<Seq<char>> {
    let plaintext = encode_utf8(password);
    if seal_accepts(plaintext.len()) {
        Some(hex_lower(nonce + chacha20poly1305_seal(derived_key(master_password), nonce, plaintext)))
    } else {
        None
    }
}

/// Whether decrypting `encrypted` panics: hex text that decodes to fewer
/// than `NONCE_LEN` bytes (the nonce is cut out of fewer bytes than there
/// are), or to a frame whose message, without nonce and tag, is of a length
/// the cipher panics on.
pub open spec fn decrypt_panics(encrypted: Seq<char>) -> bool {
    match hex_decode(encrypted) {
        Some(bytes) => bytes.len() < NONCE_LEN || (bytes.len() >= NONCE_LEN + TAG_LEN
            && cipher_panics((bytes.len() - NONCE_LEN - TAG_LEN) as nat)),
        None => false,
    }
}

/// What decrypting the stored text `encrypted` under `master_password`
/// gives.
pub open spec fn decrypted(master_password: Seq<char>, encrypted: Seq<char>) -> Result<Seq<char>, CipherError> {
    match hex_decode(encrypted) {
        None => Err(CipherError::HexError),
        Some(bytes) => match chacha20poly1305_open(
            derived_key(master_password),
            bytes.take(NONCE_LEN as int),
            bytes.skip(NONCE_LEN as int),
        ) {
            None => Err(CipherError::ChaChaError),
            Some(plaintext) => if valid_utf8(plaintext) {
                Ok(decode_utf8(plaintext))
            } else {
                Err(CipherError::StringError)
            },
        },
    }
}

/// Wraps `pbkdf2::pbkdf2_hmac::<Sha256>` filling a 32-byte key. With HMAC
/// it accepts passwords of any length and does not fail.
#[verifier::external_body]
fn pbkdf2_sha256(password: &[u8], salt: &[u8], rounds: u32) -> (key: [u8; 32])
    ensures
        key@ == pbkdf2_hmac_sha256_32(password@, salt@, rounds),
{
    let mut key = [0u8; 32];
    pbkdf2_hmac::<Sha256>(password, salt, rounds, &mut key);
    key
}

/// Wraps `ChaCha20Poly1305::generate_nonce` with the operating system's
/// random source: 12 random bytes. Nothing is promised of their value. The
/// random source panics if the operating system cannot supply randomness;
/// no argument governs that.
#[verifier::external_body]
fn random_nonce() -> (nonce: Vec<u8>)
    ensures
        nonce@.len() == NONCE_LEN,
{
    ChaCha20Poly1305::generate_nonce(&mut OsRng).to_vec()
}

/// Wraps `Aead::encrypt` of a `ChaCha20Poly1305` keyed with `key`. It
/// refuses a plaintext of `u32::MAX` blocks or more and otherwise returns
/// the ciphertext with its 16-byte tag appended, which decryption under the
/// same key and nonce turns back into the plaintext. It allocates the
/// plaintext's length plus the tag up front, which panics beyond
/// `isize::MAX` bytes, and it panics where it accepts a message longer than
/// the keystream covers; `requires` leaves such plaintexts out.
#[verifier::external_body]
fn chacha_encrypt(key: &[u8], nonce: &[u8], plaintext: &[u8]) -> (r: Option<Vec<u8>>)
    requires
        key@.len() == 32,
        nonce@.len() == NONCE_LEN,
        sealed_fits(plaintext@.len()),
    ensures
        r is Some <==> seal_accepts(plaintext@.len()),
        r matches Some(c) ==> {
            &&& c@ == chacha20poly1305_seal(key@, nonce@, plaintext@)
            &&& c@.len() == plaintext@.len() + TAG_LEN
            &&& chacha20poly1305_open(key@, nonce@, c@) == Some(plaintext@)
        },
{
    let cipher = ChaCha20Poly1305::new(GenericArray::from_slice(key));
    match cipher.encrypt(GenericArray::from_slice(nonce), plaintext) {
        Ok(c) => Some(c),
        Err(_) => None,
    }
}

/// Wraps `Aead::decrypt` of a `ChaCha20Poly1305` keyed with `key`: the
/// plaintext where the tag verifies, else nothing. A ciphertext shorter than
/// the 16-byte tag is refused before any check. Where the message without
/// the tag is longer than the keystream covers but accepted, it panics once
/// the tag verifies; `requires` leaves such ciphertexts out.
#[verifier::external_body]
fn chacha_decrypt(key: &[u8], nonce: &[u8], ciphertext: &[u8]) -> (r: Option<Vec<u8>>)
    requires
        key@.len() == 32,
        nonce@.len() == NONCE_LEN,
        ciphertext@.len() >= TAG_LEN ==> !cipher_panics((ciphertext@.len() - TAG_LEN) as nat),
    ensures
        ciphertext@.len() < TAG_LEN ==> r is None,
        match r {
            Some(p) => chacha20poly1305_open(key@, nonce@, ciphertext@) == Some(p@),
            None => chacha20poly1305_open(key@, nonce@, ciphertext@) is None,
        },
{
    let cipher = ChaCha20Poly1305::new(GenericArray::from_slice(key));
    match cipher.decrypt(GenericArray::from_slice(nonce), ciphertext) {
        Ok(p) => Some(p),
        Err(_) => None,
    }
}

/// Wraps `String::from_utf8`: the text where the bytes are valid UTF-8.
#[verifier::external_body]
fn string_from_utf8(bytes: Vec<u8>) -> (r: Option<String>)
    ensures
        match r {
            Some(s) => valid_utf8(bytes@) && s@ == decode_utf8(bytes@),
            None => !valid_utf8(bytes@),
        },
{
    match String::from_utf8(bytes) {
        Ok(s) => Some(s),
        Err(_) => None,
    }
}

/// A text has at least as many UTF-8 bytes as chars.
pub proof fn lemma_utf8_at_least_one_byte_per_char(chars: Seq<char>)
    ensures
        encode_utf8(chars).len() >= chars.len(),
    decreases chars.len(),
{
    if chars.len() > 0 {
        lemma_utf8_at_least_one_byte_per_char(chars.drop_first());
    }
}

/// The length of the stored form of a password of `n` UTF-8 bytes: hex of
/// nonce, ciphertext and tag.
pub open spec fn stored_len(n: nat) -> nat {
    2 * (NONCE_LEN as nat + n + TAG_LEN as nat)
}

/// `a` followed by `b`.
fn concat_bytes(a: &[u8], b: &[u8]) -> (r: Vec<u8>)
    ensures
        r@ == a@ + b@,
{
    let mut r: Vec<u8> = Vec::new();
    for i in 0..a.len()
        invariant
            r@ == a@.take(i as int),
    {
        r.push(a[i]);
        assert(a@.take(i + 1) =~= a@.take(i as int).push(a@[i as int]));
    }
    assert(a@.take(a@.len() as int) =~= a@);
    for j in 0..b.len()
        invariant
            r@ == a@ + b@.take(j as int),
    {
        r.push(b[j]);
        assert(b@.take(j + 1) =~= b@.take(j as int).push(b@[j as int]));
    }
    assert(b@.take(b@.len() as int) =~= b@);
    r
}

/// Derives the 32-byte key from the master password: PBKDF2-HMAC-SHA256
/// over all of its UTF-8 bytes.
fn derive_key_from_password(master_password: &str) -> (key: [u8; 32])
    ensures
        key@ == derived_key(master_password@),
        key@ == pbkdf2_hmac_sha256_32(encode_utf8(master_password@), encode_utf8(SALT@), PBKDF2_ROUNDS),
{
    pbkdf2_sha256(master_password.as_bytes(), SALT.as_bytes(), PBKDF2_ROUNDS)
}

/// Encrypts `password` under `master_password` with the given nonce and
/// returns `hex(nonce || ciphertext)`.
pub fn encrypt_password_with_nonce(master_password: &str, password: &str, nonce: &[u8]) -> (r: Result<String, CipherError>)
    requires
        nonce@.len() == NONCE_LEN,
        sealed_fits(encode_utf8(password@).len()),
    ensures
        match encrypted_with_nonce(master_password@, password@, nonce@) {
            Some(text) => r matches Ok(s) && s@ == text,
            None => r == Err::<String, CipherError>(CipherError::ChaChaError),
        },
        r matches Ok(s) ==> decrypted(master_password@, s@) == Ok::<Seq<char>, CipherError>(password@),
        r matches Ok(s) ==> s@.len() == stored_len(encode_utf8(password@).len()),
        r matches Ok(s) ==> s@ != password@,
        r matches Ok(s) ==> !decrypt_panics(s@),
        r matches Ok(s) ==> s@ == hex_lower(nonce@ + chacha20poly1305_seal(
            pbkdf2_hmac_sha256_32(encode_utf8(master_password@), encode_utf8(SALT@), PBKDF2_ROUNDS),
            nonce@,
            encode_utf8(password@),
        )),
{
    let key = derive_key_from_password(master_password);
    let plaintext = password.as_bytes();
    let sealed = match chacha_encrypt(key.as_slice(), nonce, plaintext) {
        Some(c) => c,
        None => return Err(CipherError::ChaChaError),
    };
    let framed = concat_bytes(nonce, sealed.as_slice());
    let text = hex_encode(framed.as_slice());
    proof {
        lemma_hex_round_trip(framed@);
        assert(framed@.take(NONCE_LEN as int) =~= nonce@);
        assert(framed@.skip(NONCE_LEN as int) =~= sealed@);
        lemma_utf8_at_least_one_byte_per_char(password@);
    }
    Ok(text)
}

/// Encrypts `password` under `master_password` with a fresh random nonce
/// and returns `hex(nonce || ciphertext)`.
pub fn encrypt_password(master_password: &str, password: &str) -> (r: Result<String, CipherError>)
    requires
        sealed_fits(encode_utf8(password@).len()),
    ensures
        exists|nonce: Seq<u8>| nonce.len() == NONCE_LEN && match #[trigger] encrypted_with_nonce(master_password@, password@, nonce) {
            Some(text) => r matches Ok(s) && s@ == text,
            None => r == Err::<String, CipherError>(CipherError::ChaChaError),
        },
        r is Ok <==> seal_accepts(encode_utf8(password@).len()),
        r matches Ok(s) ==> decrypted(master_password@, s@) == Ok::<Seq<char>, CipherError>(password@),
        r matches Ok(s) ==> s@.len() == stored_len(encode_utf8(password@).len()),
        r matches Ok(s) ==> s@ != password@,
        r matches Ok(s) ==> !decrypt_panics(s@),
{
    let nonce = random_nonce();
    encrypt_password_with_nonce(master_password, password, nonce.as_slice())
}

/// Whether `decrypt_password` can take this text without panicking.
pub fn can_decrypt(encrypted_password: &str) -> (r: bool)
    ensures
        r == !decrypt_panics(encrypted_password@),
{
    match hex_decode_str(encrypted_password) {
        Some(bytes) => {
            let n = bytes.len();
            if n < NONCE_LEN {
                false
            } else if n < NONCE_LEN + TAG_LEN {
                true
            } else {
                let m = (n - NONCE_LEN - TAG_LEN) as u64;
                !(m / 64 < 0xFFFF_FFFF && m > 64 * (0xFFFF_FFFF - 1))
            }
        },
        None => true,
    }
}

/// Whether `encrypt_password` can take this password without panicking.
pub fn can_encrypt(password: &str) -> (r: bool)
    ensures
        r == sealed_fits(encode_utf8(password@).len()),
{
    let n = password.as_bytes().len();
    if n > isize::MAX as usize - TAG_LEN {
        false
    } else {
        let m = n as u64;
        !(m / 64 < 0xFFFF_FFFF && m > 64 * (0xFFFF_FFFF - 1))
    }
}

/// Decrypts a stored `hex(nonce || ciphertext)` under `master_password`.
pub fn decrypt_password(master_password: &str, encrypted_password: &str) -> (r: Result<String, CipherError>)
    requires
        !decrypt_panics(encrypted_password@),
    ensures
        match r {
            Ok(s) => decrypted(master_password@, encrypted_password@) == Ok::<Seq<char>, CipherError>(s@),
            Err(e) => decrypted(master_password@, encrypted_password@) == Err::<Seq<char>, CipherError>(e),
        },
        hex_decode(encrypted_password@) matches Some(bytes) && bytes.len() < NONCE_LEN + TAG_LEN
            ==> r == Err::<String, CipherError>(CipherError::ChaChaError),
        hex_decode(encrypted_password@) matches Some(bytes) ==> (
            r == Err::<String, CipherError>(CipherError::ChaChaError) <==> chacha20poly1305_open(
                pbkdf2_hmac_sha256_32(encode_utf8(master_password@), encode_utf8(SALT@), PBKDF2_ROUNDS),
                bytes.take(NONCE_LEN as int),
                bytes.skip(NONCE_LEN as int),
            ) is None),
        r matches Ok(s) ==> hex_decode(encrypted_password@) matches Some(bytes) && chacha20poly1305_open(
            pbkdf2_hmac_sha256_32(encode_utf8(master_password@), encode_utf8(SALT@), PBKDF2_ROUNDS),
            bytes.take(NONCE_LEN as int),
            bytes.skip(NONCE_LEN as int),
        ) == Some(encode_utf8(s@)),
{
    let key = derive_key_from_password(master_password);
    let decoded = match hex_decode_str(encrypted_password) {
        Some(d) => d,
        None => return Err(CipherError::HexError),
    };
    let (nonce, ciphertext) = decoded.as_slice().split_at(NONCE_LEN);
    let plaintext = match chacha_decrypt(key.as_slice(), nonce, ciphertext) {
        Some(p) => p,
        None => return Err(CipherError::ChaChaError),
    };
    match string_from_utf8(plaintext) {
        Some(s) => Ok(s),
        None => Err(CipherError::StringError),
    }
}

/// Decrypting under `other_master` the text that `password` was encrypted
/// to under `master` with `nonce` opens the sealed bytes under the key that
/// PBKDF2-HMAC-SHA256 derives from all the UTF-8 bytes of `other_master`:
/// the password comes back only where that cipher opening succeeds, and a
/// failed opening is answered with `ChaChaError`.
pub proof fn lemma_decrypt_under_other_master(master: Seq<char>, other_master: Seq<char>, password: Seq<char>, nonce: Seq<u8>)
    requires
        nonce.len() == NONCE_LEN,
        seal_accepts(encode_utf8(password).len()),
    ensures
        ({
            let sealed = chacha20poly1305_seal(
                pbkdf2_hmac_sha256_32(encode_utf8(master), encode_utf8(SALT@), PBKDF2_ROUNDS),
                nonce,
                encode_utf8(password),
            );
            &&& encrypted_with_nonce(master, password, nonce) == Some(hex_lower(nonce + sealed))
            &&& decrypted(other_master, hex_lower(nonce + sealed)) == match chacha20poly1305_open(
                pbkdf2_hmac_sha256_32(encode_utf8(other_master), encode_utf8(SALT@), PBKDF2_ROUNDS),
                nonce,
                sealed,
            ) {
                None => Err(CipherError::ChaChaError),
                Some(plaintext) => if valid_utf8(plaintext) {
                    Ok(decode_utf8(plaintext))
                } else {
                    Err(CipherError::StringError)
                },
            }
        }),
{
    let sealed = chacha20poly1305_seal(
        pbkdf2_hmac_sha256_32(encode_utf8(master), encode_utf8(SALT@), PBKDF2_ROUNDS),
        nonce,
        encode_utf8(password),
    );
    lemma_hex_round_trip(nonce + sealed);
    assert((nonce + sealed).take(NONCE_LEN as int) =~= nonce);
    assert((nonce + sealed).skip(NONCE_LEN as int) =~= sealed);
}

} // verus!
