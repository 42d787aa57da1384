//! Registering a proved key, and looking keys up.
//!
//! A registration checks the answer to a challenge and, if the answer proves
//! a key, asks the directory to add the key under the name that came with
//! the answer. The key that goes in is the one the sealed state holds;
//! nothing the client sends beside it can change that. Whether the name is
//! free is for the directory to say, at the insert and not before.

use crate::cipher::ServerKey;
use crate::directory::{insert_spec, lookup_spec, Directory, InsertOutcome};
use crate::response::{verify_spec, Response};
use vstd::prelude::*;

verus! {

/// How a registration ends.
#[derive(Debug, Clone, Copy, PartialEq, Eq, Structural)]
pub enum Reply {
    /// The key is registered under the name.
    Created,
    /// The answer proved nothing.
    BadRequest,
    /// The name is taken.
    Conflict,
    /// The directory failed.
    InternalError,
}

impl Reply {
    /// The HTTP status that carries the reply.
    pub open spec fn status_spec(self) -> u16 {
        match self {
            Reply::Created => 201,
            Reply::BadRequest => 400,
            Reply::Conflict => 409,
            Reply::InternalError => 500,
        }
    }

    /// The message that goes with the reply, if it is a failure.
    pub open spec fn error_spec(self) -> Option<Seq<char>> {
        match self {
            Reply::Created => None,
            Reply::BadRequest => Some("failed challenge"@),
            Reply::Conflict => Some("name taken"@),
            Reply::InternalError => Some("could not insert"@),
        }
    }

    /// The HTTP status that carries the reply.
    pub fn status(&self) -> (code: u16)
        ensures
            code == self.status_spec(),
    {
        match self {
            Reply::Created => 201,
            Reply::BadRequest => 400,
            Reply::Conflict => 409,
            Reply::InternalError => 500,
        }
    }

    /// The message that goes with the reply, if it is a failure. It names
    /// the kind of failure and nothing of its cause.
    pub fn error(&self) -> (message: Option<&'static str>)
        ensures
            view_message(message) == self.error_spec(),
    {
        match self {
            Reply::Created => None,
            Reply::BadRequest => Some("failed challenge"),
            Reply::Conflict => Some("name taken"),
            Reply::InternalError => Some("could not insert"),
        }
    }
}

/// The view of an optional message.
pub open spec fn view_message(message: Option<&'static str>) -> Option<Seq<char>> {
    match message {
        Some(m) => Some(m@),
        None => None,
    }
}

/// What a registration does next, once the answer is checked.
#[derive(Debug, Clone, PartialEq, Eq)]
pub enum Step {
    /// Nothing is left to do but to reply.
    Done(Reply),
    /// The directory is to add `key` under `name`.
    Insert { name: String, key: Vec<u8> },
}

/// A step as mathematics sees it.
pub enum StepView {
    Done(Reply),
    Insert { name: Seq<char>, key: Seq<u8> },
}

impl View for Step {
    type V = StepView;

    open spec fn view(&self) -> StepView {
        match *self {
            Step::Done(reply) => StepView::Done(reply),
            Step::Insert { name, key } => StepView::Insert { name: name@, key: key@ },
        }
    }
}

/// The first step of a registration: an answer that proves no key ends it,
/// and one that proves a key asks for that key to go in under the name.
pub open spec fn start_spec(
    key: Seq<u8>,
    revealed: Seq<u8>,
    state: Seq<u8>,
    nonce: Seq<u8>,
    name: Seq<char>,
) -> StepView {
    match verify_spec(key, revealed, state, nonce) {
        None => StepView::Done(Reply::BadRequest),
        Some(proved) => StepView::Insert { name, key: proved },
    }
}

/// The reply to each answer of the directory.
pub open spec fn conclude_spec(outcome: InsertOutcome) -> Reply {
    match outcome {
        InsertOutcome::Inserted => Reply::Created,
        InsertOutcome::ConstraintViolation => Reply::Conflict,
        InsertOutcome::Failed => Reply::InternalError,
    }
}

/// A whole registration against a directory that answers as `insert_spec`
/// says: the directory afterwards, and the reply.
pub open spec fn register_spec(
    directory: Map<Seq<char>, Seq<u8>>,
    key: Seq<u8>,
    revealed: Seq<u8>,
    state: Seq<u8>,
    nonce: Seq<u8>,
    name: Seq<char>,
) -> (Map<Seq<char>, Seq<u8>>, Reply) {
    match start_spec(key, revealed, state, nonce, name) {
        StepView::Done(reply) => (directory, reply),
        StepView::Insert { name, key } => {
            let (after, outcome) = insert_spec(directory, name, key);
            (after, conclude_spec(outcome))
        },
    }
}

/// Checks the answer and says what to do next. The directory is not touched.
pub fn start(response: &Response, my_key: &ServerKey) -> (step: Step)
    ensures
        step@ == start_spec(
            my_key@,
            response.response@,
            response.state@,
            response.nonce@,
            response.name@,
        ),
{
    match response.verify(my_key) {
        None => Step::Done(Reply::BadRequest),
        Some(proved) => Step::Insert { name: response.name.clone(), key: proved.into_bytes() },
    }
}

/// The reply to the directory's answer. A failure is final: nothing is tried
/// again.
pub fn conclude(outcome: InsertOutcome) -> (reply: Reply)
    ensures
        reply == conclude_spec(outcome),
{
    match outcome {
        InsertOutcome::Inserted => Reply::Created,
        InsertOutcome::ConstraintViolation => Reply::Conflict,
        InsertOutcome::Failed => Reply::InternalError,
    }
}

/// Runs a registration against a directory held in memory.
pub fn register(response: &Response, my_key: &ServerKey, directory: &mut Directory) -> (reply:
    Reply)
    ensures
        (final(directory)@, reply) == register_spec(
            old(directory)@,
            my_key@,
            response.response@,
            response.state@,
            response.nonce@,
            response.name@,
        ),
{
    match start(response, my_key) {
        Step::Done(reply) => reply,
        Step::Insert { name, key } => conclude(directory.insert(name, key)),
    }
}

/// The answer to a lookup.
#[derive(Debug, Clone, PartialEq, Eq)]
pub enum Lookup {
    /// The key registered under the name.
    Found(Vec<u8>),
    /// No key is registered under the name.
    NotFound,
}

impl Lookup {
    /// The HTTP status that carries the answer.
    pub open spec fn status_spec(self) -> u16 {
        match self {
            Lookup::Found(_) => 200,
            Lookup::NotFound => 404,
        }
    }

    /// The message that goes with the answer, if no key was found.
    pub open spec fn error_spec(self) -> Option<Seq<char>> {
        match self {
            Lookup::Found(_) => None,
            Lookup::NotFound => Some("not found"@),
        }
    }

    /// The key, if one was found.
    pub open spec fn key_spec(self) -> Option<Seq<u8>> {
        match self {
            Lookup::Found(key) => Some(key@),
            Lookup::NotFound => None,
        }
    }

    /// The HTTP status that carries the answer.
    pub fn status(&self) -> (code: u16)
        ensures
            code == self.status_spec(),
    {
        match self {
            Lookup::Found(_) => 200,
            Lookup::NotFound => 404,
        }
    }

    /// The message that goes with the answer, if no key was found.
    pub fn error(&self) -> (message: Option<&'static str>)
        ensures
            view_message(message) == self.error_spec(),
    {
        match self {
            Lookup::Found(_) => None,
            Lookup::NotFound => Some("not found"),
        }
    }
}

/// The answer that passes on what the directory found.
pub fn lookup_reply(key: Option<Vec<u8>>) -> (answer: Lookup)
    ensures
        answer.key_spec() == crate::cipher::view_bytes(key),
{
    match key {
        Some(key) => Lookup::Found(key),
        None => Lookup::NotFound,
    }
}

/// Looks a name up in a directory held in memory.
pub fn lookup(directory: &Directory, name: &str) -> (answer: Lookup)
    ensures
        answer.key_spec() == lookup_spec(directory@, name@),
{
    lookup_reply(directory.lookup(name))
}

} // verus!
