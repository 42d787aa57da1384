//! Issuing challenges.
//!
//! A challenge is built around a random value. The value is sealed, together
//! with the claimed key, under the server's key; and it is encrypted for the
//! claimed key, so that only the holder of the private key can reveal it. The
//! public-key encryption is the caller's: this module draws the value and
//! seals the state, hands the value out to be encrypted, and puts the
//! challenge together from what comes back.

use crate::cipher::{
    random_challenge, random_nonce, ServerKey, CHALLENGE_LEN, MAX_PLAINTEXT_LEN, NONCE_LEN,
};
use crate::codec::{open_spec, seal_spec, seal_with_nonce, InvalidState};
use crate::key::PublicKey;
use crate::state::{State, StateView, PREFIX_LEN};
use vstd::prelude::*;

verus! {

/// What the server sends to a client that claims a key.
#[derive(Debug, Clone, Default, PartialEq, Eq, Hash)]
pub struct Challenge {
    /// The challenge value, encrypted for the claimed key.
    pub challenge: Vec<u8>,
    /// The sealed state.
    pub state: Vec<u8>,
    /// The nonce the state was sealed with.
    pub nonce: Vec<u8>,
}

/// A challenge whose value has not been encrypted for the claimed key yet.
#[derive(Debug, Clone, PartialEq, Eq)]
pub struct PendingChallenge {
    /// The challenge value in the clear. It must reach the client only as a
    /// ciphertext under the claimed key.
    pub challenge_nonce: Vec<u8>,
    /// The sealed state.
    pub state: Vec<u8>,
    /// The nonce the state was sealed with.
    pub nonce: Vec<u8>,
}

/// The state that binds `challenge_nonce` to `pubkey`.
pub open spec fn bound_state(challenge_nonce: Seq<u8>, pubkey: Seq<u8>) -> StateView {
    StateView { challenge_nonce, pubkey }
}

/// Whether a challenge can be issued for a key: the encoding of a state that
/// binds a challenge value to it must not be longer than the cipher takes.
pub open spec fn issuable(pubkey: Seq<u8>) -> bool {
    PREFIX_LEN + CHALLENGE_LEN + pubkey.len() <= MAX_PLAINTEXT_LEN
}

impl PendingChallenge {
    /// Whether this is a challenge for `pubkey` under the server key `key`:
    /// the value and the nonce have their lengths, the sealed state is the
    /// sealing of the value bound to the key, and it opens to just that.
    pub open spec fn issued_for(self, key: Seq<u8>, pubkey: Seq<u8>) -> bool {
        &&& self.challenge_nonce@.len() == CHALLENGE_LEN
        &&& self.nonce@.len() == NONCE_LEN
        &&& self.state@ == seal_spec(key, self.nonce@, bound_state(self.challenge_nonce@, pubkey))
        &&& open_spec(key, self.state@, self.nonce@) == Ok::<StateView, InvalidState>(
            bound_state(self.challenge_nonce@, pubkey),
        )
    }

    /// Puts the challenge together, given the challenge value encrypted for
    /// the claimed key.
    pub fn complete(self, encrypted_nonce: Vec<u8>) -> (challenge: Challenge)
        ensures
            challenge.challenge@ == encrypted_nonce@,
            challenge.state@ == self.state@,
            challenge.nonce@ == self.nonce@,
    {
        Challenge { challenge: encrypted_nonce, state: self.state, nonce: self.nonce }
    }
}

impl Challenge {
    /// Whether a challenge can be issued for `pubkey`.
    pub fn can_issue(pubkey: &PublicKey) -> (can: bool)
        ensures
            can == issuable(pubkey@),
    {
        let taken: u64 = (PREFIX_LEN + CHALLENGE_LEN) as u64;
        pubkey.as_bytes().len() as u64 <= MAX_PLAINTEXT_LEN - taken
    }

    /// Starts a challenge for `pubkey`: draws the challenge value and the
    /// nonce, and seals the value with the key under `my_key`.
    pub fn new_challenge(my_key: &ServerKey, pubkey: &PublicKey) -> (pending: PendingChallenge)
        requires
            issuable(pubkey@),
        ensures
            pending.issued_for(my_key@, pubkey@),
    {
        let challenge_nonce = random_challenge();
        let nonce = random_nonce();
        Challenge::with_nonces(my_key, pubkey, challenge_nonce, nonce)
    }

    /// Starts a challenge for `pubkey` with the given challenge value and
    /// nonce.
    pub fn with_nonces(
        my_key: &ServerKey,
        pubkey: &PublicKey,
        challenge_nonce: Vec<u8>,
        nonce: Vec<u8>,
    ) -> (pending: PendingChallenge)
        requires
            challenge_nonce@.len() == CHALLENGE_LEN,
            nonce@.len() == NONCE_LEN,
            issuable(pubkey@),
        ensures
            pending.challenge_nonce@ == challenge_nonce@,
            pending.nonce@ == nonce@,
            pending.issued_for(my_key@, pubkey@),
    {
        let bound = State { challenge_nonce, pubkey: pubkey.duplicate() };
        let state = seal_with_nonce(my_key, &bound, nonce.as_slice());
        PendingChallenge { challenge_nonce: bound.challenge_nonce, state, nonce }
    }
}

} // verus!
