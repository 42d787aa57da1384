//! Proof-of-possession key registration.
//!
//! A party registers a public key under a name in a shared directory, and
//! shows beforehand that it holds the matching private key. The server hands
//! out a challenge made of a random value, encrypted for the claimed key by
//! the caller's public-key scheme, and of the same value sealed together with
//! the key under the server's own symmetric key. The server keeps nothing: the
//! sealed state travels with the client and comes back with the answer.

pub mod challenge;
pub mod cipher;
pub mod codec;
pub mod directory;
pub mod key;
pub mod laws;
pub mod registration;
pub mod response;
pub mod state;
