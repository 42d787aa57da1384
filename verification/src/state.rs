//! The state a challenge carries, and its byte encoding.
//!
//! The encoding is the length of the challenge value as eight little-endian
//! bytes, then the value, then the key's encoding, which runs to the end.

use crate::key::PublicKey;
use vstd::bytes::{
    lemma_auto_spec_u64_to_from_le_bytes, spec_u64_from_le_bytes, spec_u64_to_le_bytes,
    u64_from_le_bytes, u64_to_le_bytes,
};
use vstd::prelude::*;
use vstd::slice::{slice_subrange, slice_to_vec};

verus! {

/// Length in bytes of the length field that opens an encoded state.
pub const PREFIX_LEN: usize = 8;

/// What the server binds together when it issues a challenge: the random
/// value the client must reveal, and the key the client claims to hold.
#[derive(Debug, Clone, PartialEq, Eq)]
pub struct State {
    pub challenge_nonce: Vec<u8>,
    pub pubkey: PublicKey,
}

/// A state as mathematics sees it.
pub struct StateView {
    pub challenge_nonce: Seq<u8>,
    pub pubkey: Seq<u8>,
}

impl View for State {
    type V = StateView;

    open spec fn view(&self) -> StateView {
        StateView { challenge_nonce: self.challenge_nonce@, pubkey: self.pubkey@ }
    }
}

/// The view of an optional state.
pub open spec fn view_state(state: Option<State>) -> Option<StateView> {
    match state {
        Some(s) => Some(s@),
        None => None,
    }
}

/// The length of a state's encoding.
pub open spec fn encoded_len(state: StateView) -> int {
    PREFIX_LEN + state.challenge_nonce.len() + state.pubkey.len()
}

/// The encoding of a state.
pub open spec fn encode_spec(state: StateView) -> Seq<u8> {
    spec_u64_to_le_bytes(state.challenge_nonce.len() as u64) + state.challenge_nonce
        + state.pubkey
}

/// The state that `bytes` encode, if they encode one: there must be a length
/// field, and at least as many bytes after it as it announces.
pub open spec fn decode_spec(bytes: Seq<u8>) -> Option<StateView> {
    if bytes.len() < PREFIX_LEN {
        None
    } else {
        let announced = spec_u64_from_le_bytes(bytes.subrange(0, PREFIX_LEN as int)) as int;
        if announced > bytes.len() - PREFIX_LEN {
            None
        } else {
            Some(
                StateView {
                    challenge_nonce: bytes.subrange(PREFIX_LEN as int, PREFIX_LEN + announced),
                    pubkey: bytes.subrange(PREFIX_LEN + announced, bytes.len() as int),
                },
            )
        }
    }
}

/// Decoding undoes encoding: every state whose challenge value has a length
/// that eight bytes can hold is read back from its own encoding.
pub proof fn lemma_decode_encode(state: StateView)
    requires
        state.challenge_nonce.len() <= u64::MAX,
    ensures
        encode_spec(state).len() == encoded_len(state),
        decode_spec(encode_spec(state)) == Some(state),
{
    lemma_auto_spec_u64_to_from_le_bytes();
    let n = state.challenge_nonce.len() as u64;
    let prefix = spec_u64_to_le_bytes(n);
    let bytes = encode_spec(state);
    assert(bytes.subrange(0, PREFIX_LEN as int) =~= prefix);
    assert(bytes.subrange(PREFIX_LEN as int, PREFIX_LEN + n) =~= state.challenge_nonce);
    assert(bytes.subrange(PREFIX_LEN + n, bytes.len() as int) =~= state.pubkey);
}

/// Encoding undoes decoding: bytes that decode to a state are that state's
/// encoding, so no two byte strings stand for one state.
pub proof fn lemma_encode_decode(bytes: Seq<u8>)
    requires
        decode_spec(bytes) is Some,
    ensures
        encode_spec(decode_spec(bytes)->0) == bytes,
{
    lemma_auto_spec_u64_to_from_le_bytes();
}

impl State {
    /// Encodes the state.
    pub fn encode(&self) -> (bytes: Vec<u8>)
        ensures
            bytes@ == encode_spec(self@),
            bytes@.len() == encoded_len(self@),
    {
        let mut bytes = u64_to_le_bytes(self.challenge_nonce.len() as u64);
        append(&mut bytes, self.challenge_nonce.as_slice());
        append(&mut bytes, self.pubkey.as_bytes());
        bytes
    }

    /// Decodes a state, or returns `None` where the bytes encode none.
    pub fn decode(bytes: &[u8]) -> (state: Option<State>)
        ensures
            view_state(state) == decode_spec(bytes@),
    {
        let len = bytes.len();
        if len < PREFIX_LEN {
            return None;
        }
        let announced = u64_from_le_bytes(slice_subrange(bytes, 0, PREFIX_LEN));
        if announced > (len - PREFIX_LEN) as u64 {
            return None;
        }
        let end = PREFIX_LEN + announced as usize;
        let challenge_nonce = slice_to_vec(slice_subrange(bytes, PREFIX_LEN, end));
        let pubkey = PublicKey::from_bytes(slice_to_vec(slice_subrange(bytes, end, len)));
        Some(State { challenge_nonce, pubkey })
    }
}

/// Appends `tail` to `bytes`.
fn append(bytes: &mut Vec<u8>, tail: &[u8])
    ensures
        final(bytes)@ == old(bytes)@ + tail@,
{
    bytes.extend_from_slice(tail);
}

} // verus!
