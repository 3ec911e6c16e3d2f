//! The handlers of one role, found by the identity they were registered for.

use vstd::prelude::*;
use crate::peer_id::PeerId;

verus! {

/// A finite map from identities to handlers. An identity has at most one
/// handler: registering a second one replaces the first.
pub struct HandlerMap<H> {
    entries: Vec<(PeerId, H)>,
}

/// Whether some entry is registered for `id`.
spec fn holds<H>(entries: Seq<(PeerId, H)>, id: PeerId) -> bool {
    exists|i: int| 0 <= i < entries.len() && (#[trigger] entries[i]).0 == id
}

/// The place of an entry registered for `id`.
spec fn slot<H>(entries: Seq<(PeerId, H)>, id: PeerId) -> int {
    choose|i: int| 0 <= i < entries.len() && (#[trigger] entries[i]).0 == id
}

/// No identity has two entries.
spec fn distinct<H>(entries: Seq<(PeerId, H)>) -> bool {
    forall|i: int, j: int|
        0 <= i < j < entries.len() ==> (#[trigger] entries[i]).0 != (#[trigger] entries[j]).0
}

/// The map that the entries stand for.
spec fn as_map<H>(entries: Seq<(PeerId, H)>) -> Map<PeerId, H> {
    Map::new(|id: PeerId| holds(entries, id), |id: PeerId| entries[slot(entries, id)].1)
}

/// Where no identity has two entries, the entry at `i` is the one that the
/// map gives for its identity.
proof fn lemma_slot<H>(entries: Seq<(PeerId, H)>, i: int)
    requires
        distinct(entries),
        0 <= i < entries.len(),
    ensures
        holds(entries, entries[i].0),
        slot(entries, entries[i].0) == i,
        as_map(entries).contains_key(entries[i].0),
        as_map(entries)[entries[i].0] == entries[i].1,
{
    let id = entries[i].0;
    assert(holds(entries, id));
    let k = slot(entries, id);
    assert(0 <= k < entries.len() && entries[k].0 == id);
    if k < i {
        assert(entries[k].0 != entries[i].0);
    }
    if i < k {
        assert(entries[i].0 != entries[k].0);
    }
}

impl<H> View for HandlerMap<H> {
    type V = Map<PeerId, H>;

    closed spec fn view(&self) -> Map<PeerId, H> {
        as_map(self.entries@)
    }
}

impl<H> HandlerMap<H> {
    #[verifier::type_invariant]
    spec fn well_formed(self) -> bool {
        distinct(self.entries@)
    }

    /// A map without handlers.
    pub fn new() -> (map: HandlerMap<H>)
        ensures
            map@ == Map::<PeerId, H>::empty(),
    {
        let map = HandlerMap { entries: Vec::new() };
        assert(map@ =~= Map::<PeerId, H>::empty());
        map
    }

    /// The place of the entry for `id`, if there is one.
    fn position(&self, id: &PeerId) -> (at: Option<usize>)
        ensures
            match at {
                Some(i) => i < self.entries@.len() && self.entries@[i as int].0 == *id,
                None => !holds(self.entries@, *id),
            },
    {
        let mut i: usize = 0;
        while i < self.entries.len()
            invariant
                i <= self.entries@.len(),
                forall|j: int| 0 <= j < i ==> (#[trigger] self.entries@[j]).0 != *id,
            decreases self.entries@.len() - i,
        {
            if self.entries[i].0 == *id {
                return Some(i);
            }
            i += 1;
        }
        None
    }

    /// Registers `handler` for `id`, in place of the handler that `id` had.
    pub fn insert(&mut self, id: PeerId, handler: H)
        ensures
            final(self)@ == old(self)@.insert(id, handler),
    {
        proof {
            use_type_invariant(&*self);
        }
        let ghost before = self.entries@;
        let at = self.position(&id);
        // A `Vec` may panic while it grows: the entries are taken out while
        // they change, so that the map never holds a half-made state.
        let mut entries: Vec<(PeerId, H)> = Vec::new();
        std::mem::swap(&mut self.entries, &mut entries);
        match at {
            Some(i) => {
                entries.set(i, (id, handler));
                self.entries = entries;
                proof {
                    let after = self.entries@;
                    assert forall|other: PeerId| holds(after, other) == holds(before, other) by {
                        if holds(before, other) {
                            let k = slot(before, other);
                            assert(after[k].0 == other);
                        }
                        if holds(after, other) {
                            let k = slot(after, other);
                            assert(before[k].0 == other);
                        }
                    }
                    assert forall|other: PeerId| holds(after, other) implies as_map(after)[other]
                        == as_map(before).insert(id, handler)[other] by {
                        let k = slot(after, other);
                        lemma_slot(after, k);
                        if other != id {
                            lemma_slot(before, k);
                        }
                    }
                    assert(as_map(after) =~= as_map(before).insert(id, handler));
                }
            },
            None => {
                entries.push((id, handler));
                self.entries = entries;
                proof {
                    let after = self.entries@;
                    let last = after.len() - 1;
                    assert(after[last].0 == id);
                    assert forall|other: PeerId|
                        holds(after, other) == (other == id || holds(before, other)) by {
                        if holds(before, other) {
                            let k = slot(before, other);
                            assert(after[k].0 == other);
                        }
                        if holds(after, other) {
                            let k = slot(after, other);
                            if k < last {
                                assert(before[k].0 == other);
                            }
                        }
                    }
                    assert forall|other: PeerId| holds(after, other) implies as_map(after)[other]
                        == as_map(before).insert(id, handler)[other] by {
                        let k = slot(after, other);
                        lemma_slot(after, k);
                        if k < last {
                            assert(before[k] == after[k]);
                            lemma_slot(before, k);
                        }
                    }
                    assert(as_map(after) =~= as_map(before).insert(id, handler));
                }
            },
        }
    }

    /// The handler registered for `id`, if there is one.
    pub fn get(&self, id: &PeerId) -> (found: Option<&H>)
        ensures
            found == (if self@.contains_key(*id) {
                Some(&self@[*id])
            } else {
                None
            }),
    {
        proof {
            use_type_invariant(self);
        }
        match self.position(id) {
            Some(i) => {
                proof {
                    lemma_slot(self.entries@, i as int);
                }
                Some(&self.entries[i].1)
            },
            None => None,
        }
    }

    /// Whether no handler is registered.
    pub fn is_empty(&self) -> (empty: bool)
        ensures
            empty == (self@ == Map::<PeerId, H>::empty()),
    {
        let empty = self.entries.len() == 0;
        proof {
            if empty {
                assert(self@ =~= Map::<PeerId, H>::empty());
            } else {
                use_type_invariant(self);
                lemma_slot(self.entries@, 0);
            }
        }
        empty
    }

    /// Drops every handler.
    pub fn clear(&mut self)
        ensures
            final(self)@ == Map::<PeerId, H>::empty(),
    {
        self.entries = Vec::new();
        assert(self@ =~= Map::<PeerId, H>::empty());
    }
}

} // verus!
