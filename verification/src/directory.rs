//! The directory of registered keys.
//!
//! The directory maps names to key encodings. Entries are only ever added: an
//! insert under a name that is taken changes nothing and says so.

use crate::cipher::view_bytes;
use vstd::prelude::*;
use vstd::slice::slice_to_vec;

verus! {

/// How a directory answers an insert.
#[derive(Debug, Clone, Copy, PartialEq, Eq, Structural)]
pub enum InsertOutcome {
    /// The entry was added.
    Inserted,
    /// The name is taken; the directory is as it was.
    ConstraintViolation,
    /// The directory failed for another reason.
    Failed,
}

/// One entry of the directory.
struct Entry {
    name: String,
    key: Vec<u8>,
}

/// What an insert makes of a directory, and how the directory answers.
pub open spec fn insert_spec(
    directory: Map<Seq<char>, Seq<u8>>,
    name: Seq<char>,
    key: Seq<u8>,
) -> (Map<Seq<char>, Seq<u8>>, InsertOutcome) {
    if directory.contains_key(name) {
        (directory, InsertOutcome::ConstraintViolation)
    } else {
        (directory.insert(name, key), InsertOutcome::Inserted)
    }
}

/// The key registered under a name, if there is one.
pub open spec fn lookup_spec(directory: Map<Seq<char>, Seq<u8>>, name: Seq<char>) -> Option<
    Seq<u8>,
> {
    if directory.contains_key(name) {
        Some(directory[name])
    } else {
        None
    }
}

/// A directory held in memory.
pub struct Directory {
    entries: Vec<Entry>,
    model: Ghost<Map<Seq<char>, Seq<u8>>>,
}

impl View for Directory {
    type V = Map<Seq<char>, Seq<u8>>;

    closed spec fn view(&self) -> Map<Seq<char>, Seq<u8>> {
        self.model@
    }
}

/// Whether `model` is the map that `entries` spell out, each name once.
spec fn spells(entries: Seq<Entry>, model: Map<Seq<char>, Seq<u8>>) -> bool {
    &&& forall|i: int, j: int|
        0 <= i < j < entries.len() ==> (#[trigger] entries[i]).name@ != (#[trigger] entries[j]).name@
    &&& forall|i: int|
        0 <= i < entries.len() ==> model.contains_key(#[trigger] entries[i].name@)
            && model[entries[i].name@] == entries[i].key@
    &&& forall|name: Seq<char>| #[trigger]
        model.contains_key(name) ==> exists|i: int|
            0 <= i < entries.len() && #[trigger] entries[i].name@ == name
}

/// A map that entries spell out has as many names as there are entries.
proof fn lemma_spelled_len(entries: Seq<Entry>, model: Map<Seq<char>, Seq<u8>>)
    requires
        spells(entries, model),
    ensures
        model.dom().finite(),
        model.dom().len() == entries.len(),
    decreases entries.len(),
{
    if entries.len() == 0 {
        assert(model.dom() =~= Set::<Seq<char>>::empty());
    } else {
        let last = entries.last();
        let rest = entries.drop_last();
        let shrunk = model.remove(last.name@);
        assert(spells(rest, shrunk)) by {
            assert forall|n: Seq<char>| #[trigger] shrunk.contains_key(n) implies exists|i: int|
                0 <= i < rest.len() && #[trigger] rest[i].name@ == n by {
                let i = choose|i: int| 0 <= i < entries.len() && #[trigger] entries[i].name@ == n;
                assert(rest[i].name@ == n);
            }
        }
        lemma_spelled_len(rest, shrunk);
        assert(model.dom() =~= shrunk.dom().insert(last.name@));
    }
}

impl Directory {
    #[verifier::type_invariant]
    spec fn coherent(self) -> bool {
        spells(self.entries@, self.model@)
    }

    /// The empty directory.
    pub fn new() -> (directory: Directory)
        ensures
            directory@ == Map::<Seq<char>, Seq<u8>>::empty(),
    {
        Directory { entries: Vec::new(), model: Ghost(Map::empty()) }
    }

    /// The number of entries.
    pub fn len(&self) -> (len: usize)
        ensures
            len == self@.dom().len(),
            self@.dom().finite(),
    {
        proof {
            use_type_invariant(self);
            lemma_spelled_len(self.entries@, self.model@);
        }
        self.entries.len()
    }

    /// The place of the entry under `name`, if there is one.
    fn position(&self, name: &String) -> (place: Option<usize>)
        ensures
            match place {
                Some(i) => i < self.entries@.len() && self.entries@[i as int].name@ == name@
                    && self@.contains_key(name@) && self@[name@] == self.entries@[i as int].key@,
                None => !self@.contains_key(name@),
            },
    {
        proof {
            use_type_invariant(self);
        }
        let mut i: usize = 0;
        while i < self.entries.len()
            invariant
                spells(self.entries@, self@),
                i <= self.entries@.len(),
                forall|j: int| 0 <= j < i ==> (#[trigger] self.entries@[j]).name@ != name@,
            decreases self.entries@.len() - i,
        {
            if self.entries[i].name == *name {
                return Some(i);
            }
            i += 1;
        }
        None
    }

    /// Adds an entry, unless the name is taken.
    pub fn insert(&mut self, name: String, key: Vec<u8>) -> (outcome: InsertOutcome)
        ensures
            (final(self)@, outcome) == insert_spec(old(self)@, name@, key@),
    {
        match self.position(&name) {
            Some(_) => InsertOutcome::ConstraintViolation,
            None => {
                let mut taken = Directory::new();
                std::mem::swap(self, &mut taken);
                proof {
                    use_type_invariant(&taken);
                }
                let Directory { entries, model } = taken;
                let mut entries = entries;
                let ghost before = entries@;
                let ghost grown = model@.insert(name@, key@);
                entries.push(Entry { name, key });
                assert(spells(entries@, grown)) by {
                    assert forall|n: Seq<char>| #[trigger] grown.contains_key(n) implies exists|
                        i: int,
                    |
                        0 <= i < entries@.len() && #[trigger] entries@[i].name@ == n by {
                        if n == name@ {
                            assert(entries@[before.len() as int].name@ == n);
                        } else {
                            let i = choose|i: int|
                                0 <= i < before.len() && #[trigger] before[i].name@ == n;
                            assert(entries@[i].name@ == n);
                        }
                    }
                }
                *self = Directory { entries, model: Ghost(grown) };
                InsertOutcome::Inserted
            },
        }
    }

    /// The key registered under `name`, if there is one.
    pub fn lookup(&self, name: &str) -> (key: Option<Vec<u8>>)
        ensures
            view_bytes(key) == lookup_spec(self@, name@),
    {
        let wanted = name.to_owned();
        match self.position(&wanted) {
            Some(i) => Some(slice_to_vec(self.entries[i].key.as_slice())),
            None => None,
        }
    }
}

} // verus!
