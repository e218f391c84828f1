//! The height at which each caller may draw again.

use vstd::prelude::*;

verus! {

/// The height from which the caller `who` may draw: the recorded one, or 0
/// for a caller who has never drawn.
pub open spec fn cooldown_of(m: Map<Seq<char>, u64>, who: Seq<char>) -> u64 {
    if m.contains_key(who) {
        m[who]
    } else {
        0
    }
}

struct CooldownEntry {
    address: String,
    ready_at: u64,
}

/// For each caller who has drawn, the height from which they may draw
/// again. Callers are told apart by the text of their identifier.
pub struct CooldownTable {
    entries: Vec<CooldownEntry>,
    heights: Ghost<Map<Seq<char>, u64>>,
}

impl View for CooldownTable {
    type V = Map<Seq<char>, u64>;

    closed spec fn view(&self) -> Self::V {
        self.heights@
    }
}

impl CooldownTable {
    #[verifier::type_invariant]
    spec fn inv(&self) -> bool {
        &&& forall|i: int, j: int|
            0 <= i < j < self.entries@.len() ==> self.entries@[i].address@
                != self.entries@[j].address@
        &&& forall|i: int|
            0 <= i < self.entries@.len() ==> {
                let e = #[trigger] self.entries@[i];
                &&& self.heights@.contains_key(e.address@)
                &&& self.heights@[e.address@] == e.ready_at
            }
        &&& forall|k: Seq<char>|
            #[trigger] self.heights@.contains_key(k) ==> exists|i: int|
                0 <= i < self.entries@.len() && self.entries@[i].address@ == k
    }

    /// A table in which nobody has drawn.
    pub fn new() -> (r: CooldownTable)
        ensures
            r@ == Map::<Seq<char>, u64>::empty(),
    {
        CooldownTable { entries: Vec::new(), heights: Ghost(Map::empty()) }
    }

    fn find(&self, who: &String) -> (r: Option<usize>)
        ensures
            match r {
                Some(i) => i < self.entries@.len() && self.entries@[i as int].address@ == who@,
                None => !self@.contains_key(who@),
            },
    {
        proof {
            use_type_invariant(self);
        }
        let mut i: usize = 0;
        while i < self.entries.len()
            invariant
                i <= self.entries@.len(),
                forall|j: int| 0 <= j < i ==> (#[trigger] self.entries@[j]).address@ != who@,
            decreases self.entries@.len() - i,
        {
            if self.entries[i].address == *who {
                return Some(i);
            }
            i = i + 1;
        }
        None
    }

    /// The height from which `who` may draw; 0 if they never drew.
    pub fn get(&self, who: &String) -> (r: u64)
        ensures
            r == cooldown_of(self@, who@),
    {
        proof {
            use_type_invariant(self);
        }
        match self.find(who) {
            Some(i) => self.entries[i].ready_at,
            None => 0,
        }
    }

    /// Records that `who` may draw again from height `ready_at`.
    pub fn set(&mut self, who: &String, ready_at: u64)
        ensures
            final(self)@ == old(self)@.insert(who@, ready_at),
    {
        proof {
            use_type_invariant(&*self);
        }
        let ghost old_map = self@;
        let ghost new_map = old_map.insert(who@, ready_at);
        let found = self.find(who);
        // The entries are changed outside the table and the table rebuilt
        // from them, so that its invariant is only checked once all of it
        // holds again.
        let mut taken = CooldownTable::new();
        std::mem::swap(self, &mut taken);
        proof {
            use_type_invariant(&taken);
        }
        let CooldownTable { entries: mut entries, heights: _ } = taken;
        let ghost old_entries = entries@;
        match found {
            Some(i) => {
                entries.set(i, CooldownEntry { address: who.clone(), ready_at });
                proof {
                    assert forall|j: int| 0 <= j < entries@.len() && j != i implies #[trigger] entries@[j]
                        == old_entries[j] && old_entries[j].address@ != who@ by {}
                    assert forall|k: Seq<char>| #[trigger] new_map.contains_key(k) implies exists|j: int|
                        0 <= j < entries@.len() && entries@[j].address@ == k by {
                        if k == who@ {
                            assert(entries@[i as int].address@ == k);
                        } else {
                            let j = choose|j: int|
                                0 <= j < old_entries.len() && old_entries[j].address@ == k;
                            assert(entries@[j].address@ == k);
                        }
                    }
                }
            },
            None => {
                entries.push(CooldownEntry { address: who.clone(), ready_at });
                proof {
                    let n = old_entries.len() as int;
                    assert forall|j: int| 0 <= j < old_entries.len() implies #[trigger] entries@[j]
                        == old_entries[j] && old_entries[j].address@ != who@ by {
                        assert(old_map.contains_key(old_entries[j].address@));
                    }
                    assert forall|k: Seq<char>| #[trigger] new_map.contains_key(k) implies exists|j: int|
                        0 <= j < entries@.len() && entries@[j].address@ == k by {
                        if k == who@ {
                            assert(entries@[n].address@ == k);
                        } else {
                            let j = choose|j: int|
                                0 <= j < old_entries.len() && old_entries[j].address@ == k;
                            assert(entries@[j].address@ == k);
                        }
                    }
                }
            },
        }
        proof {
            let r = CooldownTable { entries, heights: Ghost(new_map) };
            assert(r.entries@ == entries@);
            assert(r.heights@ == new_map);
            assert(r.inv());
        }
        *self = CooldownTable { entries, heights: Ghost(new_map) };
    }
}

} // verus!
