//! One request at a time on each session.
//!
//! A request reads the session, computes, and writes the session back. Two
//! requests on one session that do so at once can leave it in a state that
//! neither made. The register of this module says which sessions have a
//! request in flight; a request goes ahead only when it has entered its
//! session, and leaves the register when it is done.

use vstd::prelude::*;
use crate::text::str_eq;

verus! {

/// The set of the keys in `entries`.
pub open spec fn keys_of(entries: Seq<String>) -> Set<Seq<char>> {
    Set::new(|key: Seq<char>| exists|i: int| 0 <= i < entries.len() && (#[trigger] entries[i])@ == key)
}

/// The sessions that have a request in flight, each named by its key.
#[derive(Debug)]
pub struct SessionLocks {
    /// The keys of the sessions in flight.
    pub held: Vec<String>,
}

impl View for SessionLocks {
    type V = Set<Seq<char>>;

    open spec fn view(&self) -> Set<Seq<char>> {
        keys_of(self.held@)
    }
}

impl SessionLocks {
    /// The register with no session in flight.
    pub fn new() -> (locks: SessionLocks)
        ensures
            locks@ == Set::<Seq<char>>::empty(),
    {
        let locks = SessionLocks { held: Vec::new() };
        locks
    }

    /// Whether the session `key` has a request in flight.
    pub fn is_held(&self, key: &str) -> (held: bool)
        ensures
            held == self@.contains(key@),
    {
        let mut i: usize = 0;
        while i < self.held.len()
            invariant
                i <= self.held.len(),
                forall|j: int| 0 <= j < i ==> (#[trigger] self.held[j])@ != key@,
            decreases self.held.len() - i,
        {
            if str_eq(self.held[i].as_str(), key) {
                return true;
            }
            i += 1;
        }
        false
    }

    /// Enters the session `key`, if no request on it is in flight. Says
    /// whether it did; if it did not, nothing has changed.
    pub fn acquire(&mut self, key: &str) -> (entered: bool)
        ensures
            entered == !old(self)@.contains(key@),
            final(self)@ == old(self)@.insert(key@),
    {
        if self.is_held(key) {
            return false;
        }
        let ghost before = self.held@;
        self.held.push(String::from_str(key));
        proof {
            let after = self.held@;
            assert forall|k: Seq<char>| keys_of(after).contains(k) == keys_of(before).insert(
                key@,
            ).contains(k) by {
                if keys_of(after).contains(k) {
                    let i = choose|i: int| 0 <= i < after.len() && (#[trigger] after[i])@ == k;
                    if i < before.len() {
                        assert(before[i]@ == k);
                    }
                }
                if keys_of(before).contains(k) {
                    let i = choose|i: int| 0 <= i < before.len() && (#[trigger] before[i])@ == k;
                    assert(after[i]@ == k);
                }
                if k == key@ {
                    assert(after[before.len() as int]@ == k);
                }
            }
        }
        true
    }

    /// Leaves the session `key`.
    pub fn release(&mut self, key: &str)
        ensures
            final(self)@ == old(self)@.remove(key@),
    {
        let ghost before = self.held@;
        let mut kept: Vec<String> = Vec::new();
        let mut i: usize = 0;
        while i < self.held.len()
            invariant
                i <= self.held.len(),
                self.held@ == before,
                forall|j: int|
                    0 <= j < kept.len() ==> (#[trigger] kept[j])@ != key@ && exists|m: int|
                        0 <= m < i && (#[trigger] before[m])@ == kept[j]@,
                forall|m: int|
                    0 <= m < i && (#[trigger] before[m])@ != key@ ==> exists|j: int|
                        0 <= j < kept.len() && (#[trigger] kept[j])@ == before[m]@,
            decreases self.held.len() - i,
        {
            if !str_eq(self.held[i].as_str(), key) {
                let ghost earlier = kept@;
                kept.push(self.held[i].clone());
                proof {
                    assert forall|j: int| 0 <= j < kept.len() implies (#[trigger] kept[j])@ != key@
                        && exists|m: int| 0 <= m < i + 1 && (#[trigger] before[m])@ == kept[j]@ by {
                        if j < earlier.len() {
                            let m = choose|m: int| 0 <= m < i && (#[trigger] before[m])@ == earlier[j]@;
                            assert(before[m]@ == kept[j]@);
                        } else {
                            assert(before[i as int]@ == kept[j]@);
                        }
                    }
                    assert forall|m: int| 0 <= m < i + 1 && (#[trigger] before[m])@ != key@ implies exists|
                        j: int,
                    | 0 <= j < kept.len() && (#[trigger] kept[j])@ == before[m]@ by {
                        if m < i {
                            let j = choose|j: int|
                                0 <= j < earlier.len() && (#[trigger] earlier[j])@ == before[m]@;
                            assert(kept[j]@ == before[m]@);
                        } else {
                            assert(kept[earlier.len() as int]@ == before[m]@);
                        }
                    }
                }
            }
            i += 1;
        }
        self.held = kept;
        proof {
            let after = self.held@;
            assert forall|k: Seq<char>| keys_of(after).contains(k) == keys_of(before).remove(
                key@,
            ).contains(k) by {
                if keys_of(after).contains(k) {
                    let j = choose|j: int| 0 <= j < after.len() && (#[trigger] after[j])@ == k;
                    let m = choose|m: int| 0 <= m < before.len() && (#[trigger] before[m])@ == after[j]@;
                    assert(before[m]@ == k);
                }
                if keys_of(before).remove(key@).contains(k) {
                    let m = choose|m: int| 0 <= m < before.len() && (#[trigger] before[m])@ == k;
                    let j = choose|j: int| 0 <= j < after.len() && (#[trigger] after[j])@ == before[m]@;
                    assert(after[j]@ == k);
                }
            }
        }
    }
}

/// A session is entered by one request at a time: once entered, it cannot be
/// entered again until it has been left, and entering or leaving one session
/// does not touch another.
pub proof fn lemma_one_request_at_a_time(held: Set<Seq<char>>, key: Seq<char>, other: Seq<char>)
    requires
        other != key,
    ensures
        held.insert(key).contains(key),
        !held.remove(key).contains(key),
        held.insert(key).contains(other) == held.contains(other),
        held.remove(key).contains(other) == held.contains(other),
{
}

} // verus!
