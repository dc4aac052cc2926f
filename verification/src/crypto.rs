//! Key derivation, authenticated encryption, the text encoding of bytes and
//! fresh random bytes, each through the crate that provides it.

use vstd::prelude::*;
use vstd::utf8::{decode_utf8, valid_utf8};
use aes_gcm::aead::{Aead, KeyInit, OsRng};
use aes_gcm::{Aes256Gcm, Nonce};
use base64::engine::general_purpose::STANDARD;
use base64::Engine;
use rand::RngCore;
use sha2::Sha256;

verus! {

/// Rounds of the key derivation.
pub const ITERATIONS: u32 = 100_000;

/// Bytes of a salt.
pub const SALT_LEN: usize = 16;

/// Bytes of a nonce.
pub const NONCE_LEN: usize = 12;

/// Bytes of a key.
pub const KEY_LEN: usize = 32;

/// Bytes that sealing adds to a plaintext: the authentication tag.
pub const TAG_LEN: usize = 16;

/// The longest plaintext that AES-GCM seals, in bytes.
pub const MAX_PLAINTEXT: u64 = 0x10_0000_0000;

/// The 32 bytes that PBKDF2 with HMAC-SHA-256 derives.
pub uninterp spec fn pbkdf2_hmac_sha256(password: Seq<u8>, salt: Seq<u8>, rounds: u32) -> Seq<u8>;

/// What AES-256-GCM encryption returns: ciphertext, then tag.
pub uninterp spec fn aes_gcm_seal(key: Seq<u8>, nonce: Seq<u8>, plaintext: Seq<u8>) -> Seq<u8>;

/// What AES-256-GCM decryption returns; `None` where it refuses the input.
pub uninterp spec fn aes_gcm_open(key: Seq<u8>, nonce: Seq<u8>, sealed: Seq<u8>) -> Option<
    Seq<u8>,
>;

/// The standard base64 text of some bytes, padded.
pub uninterp spec fn base64_text(bytes: Seq<u8>) -> Seq<char>;

/// The bytes that a standard base64 text stands for; `None` where the text
/// is not one.
pub uninterp spec fn base64_bytes(text: Seq<char>) -> Option<Seq<u8>>;

/// Calls `pbkdf2::pbkdf2_hmac_array` with SHA-256 for 32 bytes. It derives
/// the same bytes from the same input.
#[verifier::external_body]
pub(crate) fn pbkdf2_sha256(password: &[u8], salt: &[u8], rounds: u32) -> (key: [u8; 32])
    ensures
        key@ == pbkdf2_hmac_sha256(password@, salt@, rounds),
{
    pbkdf2::pbkdf2_hmac_array::<Sha256, 32>(password, salt, rounds)
}

/// Calls `Aead::encrypt` of `Aes256Gcm` without associated data. It
/// refuses exactly a plaintext of more than 2^36 bytes; what it returns is
/// 16 bytes longer than the plaintext, and decryption under the same key and
/// nonce gives the plaintext back. A nonce that is not 12 bytes long would
/// panic.
#[verifier::external_body]
pub(crate) fn seal(key: &[u8; 32], nonce: &[u8], plaintext: &[u8]) -> (sealed: Option<Vec<u8>>)
    requires
        nonce@.len() == NONCE_LEN,
    ensures
        sealed is Some <==> plaintext@.len() <= MAX_PLAINTEXT,
        sealed matches Some(c) ==> {
            &&& c@ == aes_gcm_seal(key@, nonce@, plaintext@)
            &&& c@.len() == plaintext@.len() + TAG_LEN
            &&& aes_gcm_open(key@, nonce@, c@) == Some(plaintext@)
        },
{
    Aes256Gcm::new(key.into()).encrypt(Nonce::from_slice(nonce), plaintext).ok()
}

/// Calls `Aead::decrypt` of `Aes256Gcm` without associated data. A nonce
/// that is not 12 bytes long would panic.
#[verifier::external_body]
pub(crate) fn open(key: &[u8; 32], nonce: &[u8], sealed: &[u8]) -> (opened: Option<Vec<u8>>)
    requires
        nonce@.len() == NONCE_LEN,
    ensures
        match opened {
            Some(p) => aes_gcm_open(key@, nonce@, sealed@) == Some(p@),
            None => aes_gcm_open(key@, nonce@, sealed@) is None,
        },
{
    Aes256Gcm::new(key.into()).decrypt(Nonce::from_slice(nonce), sealed).ok()
}

/// Calls `Engine::encode` of base64's `STANDARD`. Decoding the text gives
/// the bytes back. The text has four characters for every three bytes
/// begun; where that count does not fit in `usize` the call would panic.
#[verifier::external_body]
pub(crate) fn base64_encode(bytes: &[u8]) -> (text: String)
    requires
        bytes@.len() <= usize::MAX / 4 * 3,
    ensures
        text@ == base64_text(bytes@),
        base64_bytes(text@) == Some(bytes@),
{
    STANDARD.encode(bytes)
}

/// Calls `Engine::decode` of base64's `STANDARD`.
#[verifier::external_body]
pub(crate) fn base64_decode(text: &str) -> (bytes: Option<Vec<u8>>)
    ensures
        match bytes {
            Some(b) => base64_bytes(text@) == Some(b@),
            None => base64_bytes(text@) is None,
        },
{
    STANDARD.decode(text).ok()
}

/// Asks the operating system for `count` random bytes with
/// `RngCore::try_fill_bytes` of `OsRng`. Which bytes come, and whether any
/// do, is not for this library to say.
#[verifier::external_body]
pub(crate) fn random_bytes(count: usize) -> (bytes: Option<Vec<u8>>)
    requires
        count <= isize::MAX,
    ensures
        bytes matches Some(b) ==> b@.len() == count,
{
    let mut buffer = vec![0u8; count];
    OsRng.try_fill_bytes(&mut buffer).ok().map(|_| buffer)
}

/// Calls `String::from_utf8`, which accepts exactly valid UTF-8 and then
/// yields the characters that the bytes encode.
#[verifier::external_body]
pub(crate) fn utf8_text(bytes: Vec<u8>) -> (text: Option<String>)
    ensures
        match text {
            Some(s) => valid_utf8(bytes@) && s@ == decode_utf8(bytes@),
            None => !valid_utf8(bytes@),
        },
{
    String::from_utf8(bytes).ok()
}

/// What encryption gives: the nonce must be 12 bytes long and the plaintext
/// at most 2^36.
pub open spec fn encrypted(key: Seq<u8>, nonce: Seq<u8>, plaintext: Seq<u8>) -> Option<Seq<u8>> {
    if nonce.len() == NONCE_LEN && plaintext.len() <= MAX_PLAINTEXT {
        Some(aes_gcm_seal(key, nonce, plaintext))
    } else {
        None
    }
}

/// What decryption gives: the nonce must be 12 bytes long and the cipher
/// must accept ciphertext and tag under the key.
pub open spec fn decrypted(key: Seq<u8>, nonce: Seq<u8>, sealed: Seq<u8>) -> Option<Seq<u8>> {
    if nonce.len() == NONCE_LEN {
        aes_gcm_open(key, nonce, sealed)
    } else {
        None
    }
}

/// Encrypts a plaintext under a key and a nonce; what comes back is the
/// ciphertext with the tag after it, and decrypts to the plaintext again.
pub fn encrypt(key: &[u8; 32], nonce: &[u8], plaintext: &[u8]) -> (sealed: Option<Vec<u8>>)
    ensures
        match sealed {
            Some(c) => encrypted(key@, nonce@, plaintext@) == Some(c@),
            None => encrypted(key@, nonce@, plaintext@) is None,
        },
        sealed matches Some(c) ==> c@.len() == plaintext@.len() + TAG_LEN && decrypted(
            key@,
            nonce@,
            c@,
        ) == Some(plaintext@),
{
    if nonce.len() != NONCE_LEN {
        return None;
    }
    seal(key, nonce, plaintext)
}

/// Decrypts ciphertext and tag under a key and a nonce. A wrong key and a
/// changed ciphertext are refused alike, with nothing to tell them apart.
pub fn decrypt(key: &[u8; 32], nonce: &[u8], sealed: &[u8]) -> (opened: Option<Vec<u8>>)
    ensures
        match opened {
            Some(p) => decrypted(key@, nonce@, sealed@) == Some(p@),
            None => decrypted(key@, nonce@, sealed@) is None,
        },
{
    if nonce.len() != NONCE_LEN {
        return None;
    }
    open(key, nonce, sealed)
}

/// The key for a passphrase and a salt.
pub open spec fn derived_key(passphrase: Seq<char>, salt: Seq<u8>) -> Seq<u8> {
    pbkdf2_hmac_sha256(vstd::utf8::encode_utf8(passphrase), salt, ITERATIONS)
}

/// Derives the 32-byte key for a passphrase and a salt.
pub fn derive_key(password: &str, salt: &[u8]) -> (key: [u8; 32])
    ensures
        key@ == derived_key(password@, salt@),
        key@.len() == KEY_LEN,
{
    pbkdf2_sha256(password.as_bytes(), salt, ITERATIONS)
}

} // verus!
