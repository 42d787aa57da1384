//! What holds of the protocol as a whole.
//!
//! Each statement here is proved from the definitions the functions of this
//! crate are specified with. What rests on the strength of the cipher (that
//! nobody forges a sealed state, that a state sealed under one key does not
//! open under another) is not among them.

use crate::challenge::PendingChallenge;
use crate::codec::open_spec;
use crate::directory::insert_spec;
use crate::registration::{register_spec, Reply};
use crate::response::verify_spec;
use vstd::prelude::*;

verus! {

/// `bytes` with one bit of the byte at `at` flipped.
pub open spec fn flip_bit(bytes: Seq<u8>, at: int, bit: u8) -> Seq<u8> {
    bytes.update(at, bytes[at] ^ (1u8 << bit))
}

/// An answer proves a key exactly when its state opens and it reveals the
/// value sealed there; the key it proves is the one sealed there.
pub proof fn lemma_verify_sound(
    key: Seq<u8>,
    revealed: Seq<u8>,
    state: Seq<u8>,
    nonce: Seq<u8>,
    proved: Seq<u8>,
)
    ensures
        verify_spec(key, revealed, state, nonce) == Some(proved) <==> (open_spec(key, state, nonce)
            matches Ok(sealed) && sealed.challenge_nonce == revealed && sealed.pubkey == proved),
{
}

/// An answer that returns the state and nonce of an issued challenge
/// untouched proves the challenge's key if it reveals the challenge's value,
/// and proves nothing if it reveals anything else.
pub proof fn lemma_issued_challenge_verifies(
    pending: PendingChallenge,
    key: Seq<u8>,
    pubkey: Seq<u8>,
    revealed: Seq<u8>,
)
    requires
        pending.issued_for(key, pubkey),
    ensures
        revealed == pending.challenge_nonce@ ==> verify_spec(
            key,
            revealed,
            pending.state@,
            pending.nonce@,
        ) == Some(pubkey),
        revealed != pending.challenge_nonce@ ==> verify_spec(
            key,
            revealed,
            pending.state@,
            pending.nonce@,
        ) is None,
{
}

/// Flipping one bit of the revealed value of an answer that proves a key
/// leaves an answer that proves none.
pub proof fn lemma_flipped_answer_rejected(
    key: Seq<u8>,
    revealed: Seq<u8>,
    state: Seq<u8>,
    nonce: Seq<u8>,
    at: int,
    bit: u8,
)
    requires
        0 <= at < revealed.len(),
        bit < 8,
    ensures
        verify_spec(key, revealed, state, nonce) is Some ==> verify_spec(
            key,
            flip_bit(revealed, at, bit),
            state,
            nonce,
        ) is None,
{
    let byte = revealed[at];
    assert(byte ^ (1u8 << bit) != byte) by (bit_vector)
        requires
            bit < 8,
    ;
}

/// An answer whose nonce has not the length of a nonce proves nothing,
/// whatever else it holds.
pub proof fn lemma_misfit_nonce_rejected(
    key: Seq<u8>,
    revealed: Seq<u8>,
    state: Seq<u8>,
    nonce: Seq<u8>,
)
    requires
        nonce.len() != crate::cipher::NONCE_LEN,
    ensures
        verify_spec(key, revealed, state, nonce) is None,
{
}

/// A registration changes the directory only if it replies `Created`, and
/// then by one entry: the name of the answer, with the key sealed in the
/// answer's state. No other field of the answer reaches the directory.
pub proof fn lemma_stored_key_is_sealed_key(
    directory: Map<Seq<char>, Seq<u8>>,
    key: Seq<u8>,
    revealed: Seq<u8>,
    state: Seq<u8>,
    nonce: Seq<u8>,
    name: Seq<char>,
)
    ensures
        ({
            let (after, reply) = register_spec(directory, key, revealed, state, nonce, name);
            &&& reply != Reply::Created ==> after == directory
            &&& reply == Reply::Created ==> (open_spec(key, state, nonce) matches Ok(sealed)
                && !directory.contains_key(name) && after == directory.insert(name, sealed.pubkey))
        }),
{
}

/// With the state and nonce of a challenge issued for one key, no revealed
/// value and no name brings another key into the directory.
pub proof fn lemma_no_key_substitution(
    directory: Map<Seq<char>, Seq<u8>>,
    pending: PendingChallenge,
    key: Seq<u8>,
    pubkey: Seq<u8>,
    revealed: Seq<u8>,
    name: Seq<char>,
)
    requires
        pending.issued_for(key, pubkey),
    ensures
        ({
            let (after, reply) = register_spec(
                directory,
                key,
                revealed,
                pending.state@,
                pending.nonce@,
                name,
            );
            after == directory || after == directory.insert(name, pubkey)
        }),
{
}

/// A registration leaves every entry that was there as it was.
pub proof fn lemma_entries_persist(
    directory: Map<Seq<char>, Seq<u8>>,
    key: Seq<u8>,
    revealed: Seq<u8>,
    state: Seq<u8>,
    nonce: Seq<u8>,
    name: Seq<char>,
    other: Seq<char>,
)
    requires
        directory.contains_key(other),
    ensures
        ({
            let (after, reply) = register_spec(directory, key, revealed, state, nonce, name);
            after.contains_key(other) && after[other] == directory[other]
        }),
{
}

/// Two registrations of one name, each with an answer that proves a key:
/// the second is a conflict and changes nothing, so the name stays with the
/// key it had after the first. If the name was free, the first is created,
/// the name holds the key that the first answer proved, and the directory
/// has one entry more than before, not two.
pub proof fn lemma_name_registered_once(
    directory: Map<Seq<char>, Seq<u8>>,
    key: Seq<u8>,
    first: (Seq<u8>, Seq<u8>, Seq<u8>),
    second: (Seq<u8>, Seq<u8>, Seq<u8>),
    name: Seq<char>,
)
    requires
        verify_spec(key, first.0, first.1, first.2) is Some,
        verify_spec(key, second.0, second.1, second.2) is Some,
    ensures
        ({
            let (middle, first_reply) = register_spec(
                directory,
                key,
                first.0,
                first.1,
                first.2,
                name,
            );
            let (after, second_reply) = register_spec(
                middle,
                key,
                second.0,
                second.1,
                second.2,
                name,
            );
            &&& second_reply == Reply::Conflict
            &&& after == middle
            &&& after.contains_key(name)
            &&& !directory.contains_key(name) ==> first_reply == Reply::Created && after
                == directory.insert(name, verify_spec(key, first.0, first.1, first.2)->0)
            &&& directory.contains_key(name) ==> first_reply == Reply::Conflict && after
                == directory
            &&& directory.dom().finite() ==> after.dom().finite() && after.dom().len() == (
            if directory.contains_key(name) {
                directory.dom().len()
            } else {
                directory.dom().len() + 1
            })
        }),
{
}

/// An insert into a directory that holds the name is a constraint violation
/// and changes nothing; one into a directory that does not adds the entry.
pub proof fn lemma_insert_once(
    directory: Map<Seq<char>, Seq<u8>>,
    name: Seq<char>,
    first: Seq<u8>,
    second: Seq<u8>,
)
    ensures
        ({
            let (middle, _) = insert_spec(directory, name, first);
            let (after, outcome) = insert_spec(middle, name, second);
            outcome == crate::directory::InsertOutcome::ConstraintViolation && after == middle
        }),
{
}

} // verus!
