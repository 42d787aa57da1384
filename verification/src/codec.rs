//! Sealing a state under the server's key, and opening it again.
//!
//! A sealed state is the AES-256-GCM encryption of the state's encoding. It
//! goes out with a challenge and comes back with the answer, so the server
//! has nothing to remember in between, and nobody without the key can read or
//! make one.

use crate::cipher::{
    aes256_gcm_decrypt, aes256_gcm_encrypt, decrypt, encrypt, random_nonce, view_bytes, ServerKey,
    MAX_PLAINTEXT_LEN, NONCE_LEN,
};
use crate::state::{
    decode_spec, encode_spec, encoded_len, lemma_decode_encode, State, StateView, PREFIX_LEN,
};
use vstd::prelude::*;

verus! {

/// The one failure of `open`. A nonce of the wrong length, a ciphertext that
/// does not authenticate and a plaintext that encodes no state all end here:
/// the caller cannot tell them apart.
#[derive(Debug, Clone, Copy, PartialEq, Eq)]
pub struct InvalidState;

/// Whether a state can be sealed: its encoding must not be longer than the
/// cipher takes.
pub open spec fn sealable(state: StateView) -> bool {
    encoded_len(state) <= MAX_PLAINTEXT_LEN
}

/// The sealed form of `state` under `key` and `nonce`.
pub open spec fn seal_spec(key: Seq<u8>, nonce: Seq<u8>, state: StateView) -> Seq<u8> {
    aes256_gcm_encrypt(key, nonce, encode_spec(state))->0
}

/// The state in what the cipher recovered: there must be a plaintext, and it
/// must encode a state.
pub open spec fn read_spec(plaintext: Option<Seq<u8>>) -> Result<StateView, InvalidState> {
    match plaintext {
        None => Err(InvalidState),
        Some(bytes) => match decode_spec(bytes) {
            None => Err(InvalidState),
            Some(state) => Ok(state),
        },
    }
}

/// What `open` makes of a sealed state and its nonce.
pub open spec fn open_spec(key: Seq<u8>, ciphertext: Seq<u8>, nonce: Seq<u8>) -> Result<
    StateView,
    InvalidState,
> {
    if nonce.len() != NONCE_LEN {
        Err(InvalidState)
    } else {
        read_spec(aes256_gcm_decrypt(key, nonce, ciphertext))
    }
}

/// The view of what `open` returns.
pub open spec fn view_opened(opened: Result<State, InvalidState>) -> Result<
    StateView,
    InvalidState,
> {
    match opened {
        Ok(state) => Ok(state@),
        Err(e) => Err(e),
    }
}

/// Whether `state` can be sealed.
pub fn can_seal(state: &State) -> (can: bool)
    ensures
        can == sealable(state@),
{
    let room: u64 = MAX_PLAINTEXT_LEN - PREFIX_LEN as u64;
    let nonce_len: u64 = state.challenge_nonce.len() as u64;
    nonce_len <= room && state.pubkey.as_bytes().len() as u64 <= room - nonce_len
}

/// Seals `state` under `key` with the given nonce. The result opens, under
/// the same key and nonce, to the state that went in.
pub fn seal_with_nonce(key: &ServerKey, state: &State, nonce: &[u8]) -> (ciphertext: Vec<u8>)
    requires
        nonce@.len() == NONCE_LEN,
        sealable(state@),
    ensures
        ciphertext@ == seal_spec(key@, nonce@, state@),
        open_spec(key@, ciphertext@, nonce@) == Ok::<StateView, InvalidState>(state@),
{
    let plaintext = state.encode();
    let sealed = encrypt(key.bytes(), nonce, plaintext.as_slice());
    proof {
        lemma_decode_encode(state@);
    }
    sealed.unwrap()
}

/// Seals `state` under `key` with a fresh random nonce, and returns the
/// ciphertext and the nonce. The pair opens, under the same key, to the state
/// that went in.
pub fn seal(key: &ServerKey, state: &State) -> (sealed: (Vec<u8>, Vec<u8>))
    requires
        sealable(state@),
    ensures
        sealed.1@.len() == NONCE_LEN,
        sealed.0@ == seal_spec(key@, sealed.1@, state@),
        open_spec(key@, sealed.0@, sealed.1@) == Ok::<StateView, InvalidState>(state@),
{
    let nonce = random_nonce();
    let ciphertext = seal_with_nonce(key, state, nonce.as_slice());
    (ciphertext, nonce)
}

/// Reads the state out of what the cipher recovered.
pub fn read(plaintext: Option<Vec<u8>>) -> (opened: Result<State, InvalidState>)
    ensures
        view_opened(opened) == read_spec(view_bytes(plaintext)),
{
    match plaintext {
        None => Err(InvalidState),
        Some(bytes) => match State::decode(bytes.as_slice()) {
            None => Err(InvalidState),
            Some(state) => Ok(state),
        },
    }
}

/// Opens a sealed state. Every failure is the same `InvalidState`.
pub fn open(key: &ServerKey, ciphertext: &[u8], nonce: &[u8]) -> (opened: Result<
    State,
    InvalidState,
>)
    ensures
        view_opened(opened) == open_spec(key@, ciphertext@, nonce@),
{
    if nonce.len() != NONCE_LEN {
        return Err(InvalidState);
    }
    read(decrypt(key.bytes(), nonce, ciphertext))
}

} // verus!
