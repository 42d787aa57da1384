//! AES-256-GCM, the random values the protocol draws, and the server's key.
//!
//! The cipher and the random generator are those of the `aes-gcm` and `rand`
//! crates. The functions that call them are not proved: each hands its
//! arguments on, and its contract records what the crate does with them.

use aes_gcm::aead::{Aead, AeadCore, KeyInit};
use aes_gcm::{Aes256Gcm, Nonce};
use rand::Rng;
use vstd::prelude::*;

verus! {

/// Length in bytes of the nonce that accompanies every sealed state.
pub const NONCE_LEN: usize = 12;

/// Length in bytes of the random value a challenge is built around.
pub const CHALLENGE_LEN: usize = 32;

/// The longest plaintext, in bytes, that AES-GCM encrypts under one nonce.
pub const MAX_PLAINTEXT_LEN: u64 = 0x10_0000_0000;

/// The bytes that AES-256-GCM, with a 96-bit nonce, a 128-bit tag appended and
/// no associated data, makes of `plaintext`; `None` where it refuses.
pub uninterp spec fn aes256_gcm_encrypt(key: Seq<u8>, nonce: Seq<u8>, plaintext: Seq<u8>) -> Option<
    Seq<u8>,
>;

/// The plaintext that AES-256-GCM recovers from `ciphertext`, or `None` where
/// the tag does not authenticate it under `key` and `nonce`.
pub uninterp spec fn aes256_gcm_decrypt(key: Seq<u8>, nonce: Seq<u8>, ciphertext: Seq<u8>) -> Option<
    Seq<u8>,
>;

/// The view of an optional byte vector.
pub open spec fn view_bytes(bytes: Option<Vec<u8>>) -> Option<Seq<u8>> {
    match bytes {
        Some(b) => Some(b@),
        None => None,
    }
}

/// `Aes256Gcm::new` followed by `Aead::encrypt` of the `aes-gcm` crate, which
/// panics on a nonce of another length than 12.
///
/// Trusted: the result is the AES-256-GCM ciphertext with its tag; the crate
/// refuses exactly the plaintexts longer than `MAX_PLAINTEXT_LEN`; and
/// decrypting what it returned, under the same key and nonce, gives the
/// plaintext back.
#[verifier::external_body]
pub(crate) fn encrypt(key: &[u8; 32], nonce: &[u8], plaintext: &[u8]) -> (sealed: Option<Vec<u8>>)
    requires
        nonce@.len() == NONCE_LEN,
    ensures
        view_bytes(sealed) == aes256_gcm_encrypt(key@, nonce@, plaintext@),
        sealed is Some <==> plaintext@.len() <= MAX_PLAINTEXT_LEN,
        sealed matches Some(c) ==> aes256_gcm_decrypt(key@, nonce@, c@) == Some(plaintext@),
{
    Aes256Gcm::new(key.into()).encrypt(Nonce::from_slice(nonce), plaintext).ok()
}

/// `Aes256Gcm::new` followed by `Aead::decrypt` of the `aes-gcm` crate, which
/// panics on a nonce of another length than 12.
///
/// Trusted: the result is the plaintext that AES-256-GCM recovers, and `None`
/// where the crate reports an error.
#[verifier::external_body]
pub(crate) fn decrypt(key: &[u8; 32], nonce: &[u8], ciphertext: &[u8]) -> (opened: Option<Vec<u8>>)
    requires
        nonce@.len() == NONCE_LEN,
    ensures
        view_bytes(opened) == aes256_gcm_decrypt(key@, nonce@, ciphertext@),
{
    Aes256Gcm::new(key.into()).decrypt(Nonce::from_slice(nonce), ciphertext).ok()
}

/// `Aes256Gcm::generate_key` on `rand::thread_rng()`: 32 bytes from the
/// thread's generator. Trusted, and nothing is claimed of the bytes.
#[verifier::external_body]
pub(crate) fn random_key() -> [u8; 32] {
    Aes256Gcm::generate_key(rand::thread_rng()).into()
}

/// `Aes256Gcm::generate_nonce` on `rand::thread_rng()`: 12 bytes from the
/// thread's generator. Trusted: the length, and nothing of the bytes.
#[verifier::external_body]
pub(crate) fn random_nonce() -> (nonce: Vec<u8>)
    ensures
        nonce@.len() == NONCE_LEN,
{
    Aes256Gcm::generate_nonce(rand::thread_rng()).to_vec()
}

/// `Rng::gen` on `rand::thread_rng()`, asked for an array of 32 bytes.
/// Trusted: the length, and nothing of the bytes.
#[verifier::external_body]
pub(crate) fn random_challenge() -> (challenge: Vec<u8>)
    ensures
        challenge@.len() == CHALLENGE_LEN,
{
    rand::thread_rng().gen::<[u8; 32]>().to_vec()
}

/// The server's symmetric key. One is made when the server starts; it lives
/// in memory only, so a restart voids every challenge that is still out.
#[derive(Clone, Copy)]
pub struct ServerKey {
    bytes: [u8; 32],
}

impl View for ServerKey {
    type V = Seq<u8>;

    closed spec fn view(&self) -> Seq<u8> {
        self.bytes@
    }
}

impl ServerKey {
    /// A fresh random key.
    pub fn generate() -> (key: ServerKey) {
        ServerKey { bytes: random_key() }
    }

    /// The key made of the given bytes.
    pub fn from_bytes(bytes: [u8; 32]) -> (key: ServerKey)
        ensures
            key@ == bytes@,
    {
        ServerKey { bytes }
    }

    /// The key's bytes.
    pub(crate) fn bytes(&self) -> (bytes: &[u8; 32])
        ensures
            bytes@ == self@,
    {
        &self.bytes
    }
}

} // verus!
