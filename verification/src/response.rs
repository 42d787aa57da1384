//! Checking a client's answer to a challenge.

use crate::cipher::ServerKey;
use crate::codec::{open, open_spec, view_opened, InvalidState};
use crate::key::{view_key, PublicKey};
use crate::state::{State, StateView};
use vstd::prelude::*;

verus! {

/// What a client sends back: the value it recovered, the sealed state and
/// nonce as it received them, and the name it asks for.
#[derive(Debug, Clone, Default, PartialEq, Eq, Hash)]
pub struct Response {
    /// The challenge value, as the client decrypted it.
    pub response: Vec<u8>,
    /// The sealed state of the challenge.
    pub state: Vec<u8>,
    /// The nonce of the sealed state.
    pub nonce: Vec<u8>,
    /// The name to register the key under.
    pub name: String,
}

/// The key that a revealed value proves against an opened state: the one
/// sealed there, if the state opened and the value is the sealed one.
pub open spec fn proved_spec(opened: Result<StateView, InvalidState>, revealed: Seq<u8>) -> Option<
    Seq<u8>,
> {
    match opened {
        Ok(sealed) => if revealed == sealed.challenge_nonce {
            Some(sealed.pubkey)
        } else {
            None
        },
        Err(_) => None,
    }
}

/// The key that an answer proves. Nothing of the answer but the state, the
/// nonce and the revealed value has a say.
pub open spec fn verify_spec(key: Seq<u8>, revealed: Seq<u8>, state: Seq<u8>, nonce: Seq<u8>)
    -> Option<Seq<u8>> {
    proved_spec(open_spec(key, state, nonce), revealed)
}

/// The key that `revealed` proves against an opened state. The key comes out
/// of the state and from nowhere else.
pub fn proved_key(opened: Result<State, InvalidState>, revealed: &[u8]) -> (proved: Option<
    PublicKey,
>)
    ensures
        view_key(proved) == proved_spec(view_opened(opened), revealed@),
{
    match opened {
        Ok(sealed) => {
            if same_bytes(revealed, sealed.challenge_nonce.as_slice()) {
                Some(sealed.pubkey)
            } else {
                None
            }
        },
        Err(_) => None,
    }
}

impl Response {
    /// The key that this answer proves possession of, or `None`. Whatever is
    /// wrong with the answer, the result is the same `None`.
    pub fn verify(&self, my_key: &ServerKey) -> (proved: Option<PublicKey>)
        ensures
            view_key(proved) == verify_spec(my_key@, self.response@, self.state@, self.nonce@),
    {
        let opened = open(my_key, self.state.as_slice(), self.nonce.as_slice());
        proved_key(opened, self.response.as_slice())
    }
}

/// Whether two byte strings are equal.
fn same_bytes(a: &[u8], b: &[u8]) -> (same: bool)
    ensures
        same == (a@ == b@),
{
    if a.len() != b.len() {
        return false;
    }
    let mut i: usize = 0;
    while i < a.len()
        invariant
            a@.len() == b@.len(),
            i <= a@.len(),
            a@.subrange(0, i as int) == b@.subrange(0, i as int),
        decreases a@.len() - i,
    {
        if a[i] != b[i] {
            return false;
        }
        i += 1;
    }
    assert(a@ =~= a@.subrange(0, i as int));
    assert(b@ =~= b@.subrange(0, i as int));
    true
}

} // verus!
