//! The addresses that a wallet has derived, each with the child it came from.

use vstd::prelude::*;

verus! {

/// Where an address comes from: the index of the child, and the child's
/// public key in its compressed encoding.
#[derive(Debug, Clone)]
pub struct AddressDerivation {
    pub pos: u32,
    pub public_key: Vec<u8>,
}

impl View for AddressDerivation {
    type V = (u32, Seq<u8>);

    open spec fn view(&self) -> (u32, Seq<u8>) {
        (self.pos, self.public_key@)
    }
}

/// The map that a list of entries stands for: each address is mapped to the
/// derivation of the last entry that names it.
pub open spec fn book_of(entries: Seq<(String, AddressDerivation)>) -> Map<
    Seq<char>,
    (u32, Seq<u8>),
>
    decreases entries.len(),
{
    if entries.len() == 0 {
        Map::empty()
    } else {
        book_of(entries.drop_last()).insert(entries.last().0@, entries.last().1@)
    }
}

/// A map from addresses to their derivations.
#[derive(Debug)]
pub struct AddressBook {
    /// The entries in the order in which their addresses first came.
    pub entries: Vec<(String, AddressDerivation)>,
}

impl View for AddressBook {
    type V = Map<Seq<char>, (u32, Seq<u8>)>;

    open spec fn view(&self) -> Map<Seq<char>, (u32, Seq<u8>)> {
        book_of(self.entries@)
    }
}

/// An address that no entry from `from` on names is mapped as by the
/// entries before `from`.
proof fn lemma_book_skips(entries: Seq<(String, AddressDerivation)>, address: Seq<char>, from: int)
    requires
        0 <= from <= entries.len(),
        forall|k: int| from <= k < entries.len() ==> entries[k].0@ != address,
    ensures
        book_of(entries).contains_key(address) == book_of(entries.take(from)).contains_key(
            address,
        ),
        book_of(entries).contains_key(address) ==> book_of(entries)[address] == book_of(
            entries.take(from),
        )[address],
    decreases entries.len(),
{
    if from == entries.len() {
        assert(entries.take(from) =~= entries);
    } else {
        lemma_book_skips(entries.drop_last(), address, from);
        assert(entries.drop_last().take(from) =~= entries.take(from));
    }
}

/// Putting a new derivation in the place of the last entry that names an
/// address is mapping the address to the new derivation.
proof fn lemma_book_update(
    entries: Seq<(String, AddressDerivation)>,
    at: int,
    entry: (String, AddressDerivation),
)
    requires
        0 <= at < entries.len(),
        entries[at].0@ == entry.0@,
        forall|k: int| at < k < entries.len() ==> entries[k].0@ != entry.0@,
    ensures
        book_of(entries.update(at, entry)) == book_of(entries).insert(entry.0@, entry.1@),
    decreases entries.len(),
{
    let changed = entries.update(at, entry);
    if at == entries.len() - 1 {
        assert(changed.drop_last() =~= entries.drop_last());
    } else {
        lemma_book_update(entries.drop_last(), at, entry);
        assert(changed.drop_last() =~= entries.drop_last().update(at, entry));
    }
}

impl AddressBook {
    /// The book without entries.
    pub fn new() -> (book: AddressBook)
        ensures
            book@ == Map::<Seq<char>, (u32, Seq<u8>)>::empty(),
    {
        AddressBook { entries: Vec::new() }
    }

    /// The index of the last entry that names `address`.
    fn find(&self, address: &String) -> (at: Option<usize>)
        ensures
            match at {
                Some(i) => {
                    &&& i < self.entries.len()
                    &&& self.entries[i as int].0@ == address@
                    &&& forall|k: int|
                        i < k < self.entries.len() ==> self.entries[k].0@ != address@
                },
                None => forall|k: int|
                    0 <= k < self.entries.len() ==> self.entries[k].0@ != address@,
            },
    {
        let mut i: usize = self.entries.len();
        while i > 0
            invariant
                i <= self.entries.len(),
                forall|k: int| i <= k < self.entries.len() ==> self.entries[k].0@ != address@,
            decreases i,
        {
            i -= 1;
            if self.entries[i].0 == *address {
                return Some(i);
            }
        }
        None
    }

    /// Maps `address` to `derivation`, in place of what it was mapped to.
    pub fn insert(&mut self, address: String, derivation: AddressDerivation)
        ensures
            final(self)@ == old(self)@.insert(address@, derivation@),
    {
        match self.find(&address) {
            Some(i) => {
                proof {
                    lemma_book_update(self.entries@, i as int, (address, derivation));
                }
                self.entries[i] = (address, derivation);
            },
            None => {
                assert(self.entries@.push((address, derivation)).drop_last() =~= self.entries@);
                self.entries.push((address, derivation));
            },
        }
    }

    /// What `address` is mapped to, if it is mapped.
    pub fn get(&self, address: &String) -> (derivation: Option<&AddressDerivation>)
        ensures
            match derivation {
                Some(d) => self@.contains_key(address@) && self@[address@] == d@,
                None => !self@.contains_key(address@),
            },
    {
        match self.find(address) {
            Some(i) => {
                proof {
                    lemma_book_skips(self.entries@, address@, i + 1);
                }
                Some(&self.entries[i].1)
            },
            None => {
                proof {
                    lemma_book_skips(self.entries@, address@, 0);
                }
                None
            },
        }
    }
}

} // verus!
