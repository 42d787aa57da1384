//! Public keys, as the bytes of their canonical encoding.

use vstd::prelude::*;
use vstd::slice::slice_to_vec;

verus! {

/// A public key of the caller's asymmetric scheme, held as its canonical
/// encoding. The protocol never looks inside a key: it seals the bytes into a
/// challenge and, once possession is shown, hands the same bytes to the
/// directory.
#[derive(Debug, Clone, PartialEq, Eq, Hash)]
pub struct PublicKey {
    bytes: Vec<u8>,
}

impl View for PublicKey {
    type V = Seq<u8>;

    closed spec fn view(&self) -> Seq<u8> {
        self.bytes@
    }
}

impl PublicKey {
    /// The key with the given encoding.
    pub fn from_bytes(bytes: Vec<u8>) -> (key: PublicKey)
        ensures
            key@ == bytes@,
    {
        PublicKey { bytes }
    }

    /// The key's encoding.
    pub fn as_bytes(&self) -> (bytes: &[u8])
        ensures
            bytes@ == self@,
    {
        self.bytes.as_slice()
    }

    /// The key's encoding, taken out of the key.
    pub fn into_bytes(self) -> (bytes: Vec<u8>)
        ensures
            bytes@ == self@,
    {
        self.bytes
    }

    /// A second copy of the key.
    pub fn duplicate(&self) -> (key: PublicKey)
        ensures
            key@ == self@,
    {
        PublicKey { bytes: slice_to_vec(self.bytes.as_slice()) }
    }
}

/// The view of an optional key.
pub open spec fn view_key(key: Option<PublicKey>) -> Option<Seq<u8>> {
    match key {
        Some(k) => Some(k@),
        None => None,
    }
}

} // verus!
