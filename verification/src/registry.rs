//! A keyed store: at most one entry under each session id.

use crate::text::owned;
use vstd::prelude::*;

verus! {

/// One entry of a [`Registry`].
struct Slot<T> {
    id: String,
    value: T,
}

/// Entries keyed by session id. Its value is the map from the ids to the
/// entries held under them.
pub struct Registry<T> {
    slots: Vec<Slot<T>>,
}

/// Whether no id stands twice among `slots`.
spec fn distinct_ids<T>(slots: Seq<Slot<T>>) -> bool {
    forall|i: int, j: int| 0 <= i < j < slots.len() ==> slots[i].id@ != slots[j].id@
}

/// Whether some slot of `slots` holds `id`.
spec fn holds<T>(slots: Seq<Slot<T>>, id: Seq<char>) -> bool {
    exists|i: int| 0 <= i < slots.len() && (#[trigger] slots[i]).id@ == id
}

/// The place of a slot that holds `id`.
spec fn place<T>(slots: Seq<Slot<T>>, id: Seq<char>) -> int {
    choose|i: int| 0 <= i < slots.len() && (#[trigger] slots[i]).id@ == id
}

/// The map that `slots` stand for.
spec fn slots_map<T>(slots: Seq<Slot<T>>) -> Map<Seq<char>, T> {
    Map::new(|id: Seq<char>| holds(slots, id), |id: Seq<char>| slots[place(slots, id)].value)
}

/// With distinct ids, the slot at `i` is the one found under its id.
proof fn lemma_slot<T>(slots: Seq<Slot<T>>, i: int)
    requires
        distinct_ids(slots),
        0 <= i < slots.len(),
    ensures
        slots_map(slots).contains_key(slots[i].id@),
        slots_map(slots)[slots[i].id@] == slots[i].value,
        place(slots, slots[i].id@) == i,
{
    let id = slots[i].id@;
    assert(holds(slots, id));
    let p = place(slots, id);
    assert(0 <= p < slots.len() && slots[p].id@ == id);
    if p < i {
        assert(slots[p].id@ != slots[i].id@);
    } else if i < p {
        assert(slots[i].id@ != slots[p].id@);
    }
}

/// Taking the slot at `i` out removes its id from the map and nothing else.
proof fn lemma_remove<T>(slots: Seq<Slot<T>>, i: int)
    requires
        distinct_ids(slots),
        0 <= i < slots.len(),
    ensures
        distinct_ids(slots.remove(i)),
        slots_map(slots.remove(i)) == slots_map(slots).remove(slots[i].id@),
{
    let rest = slots.remove(i);
    let gone = slots[i].id@;
    assert(distinct_ids(rest)) by {
        assert forall|a: int, b: int| 0 <= a < b < rest.len() implies rest[a].id@ != rest[b].id@ by {
            let a0 = if a < i { a } else { a + 1 };
            let b0 = if b < i { b } else { b + 1 };
            assert(rest[a] == slots[a0] && rest[b] == slots[b0]);
        }
    }
    assert forall|id: Seq<char>|
        slots_map(rest).contains_key(id) <==> slots_map(slots).remove(gone).contains_key(id) by {
        if holds(rest, id) {
            let a = place(rest, id);
            let a0 = if a < i { a } else { a + 1 };
            assert(rest[a] == slots[a0]);
            assert(slots[a0].id@ == id);
            if a0 < i {
                assert(slots[a0].id@ != slots[i].id@);
            } else {
                assert(slots[i].id@ != slots[a0].id@);
            }
        }
        if holds(slots, id) && id != gone {
            let b = place(slots, id);
            let b1 = if b < i { b } else { b - 1 };
            assert(rest[b1] == slots[b]);
            assert(rest[b1].id@ == id);
        }
    }
    assert forall|id: Seq<char>| slots_map(rest).contains_key(id) implies slots_map(rest)[id]
        == slots_map(slots).remove(gone)[id] by {
        let a = place(rest, id);
        let a0 = if a < i { a } else { a + 1 };
        assert(rest[a] == slots[a0]);
        lemma_slot(rest, a);
        lemma_slot(slots, a0);
    }
    assert(slots_map(rest) =~= slots_map(slots).remove(gone));
}

/// Adding a slot under an id that no slot holds inserts it into the map.
proof fn lemma_push<T>(slots: Seq<Slot<T>>, slot: Slot<T>)
    requires
        distinct_ids(slots),
        !holds(slots, slot.id@),
    ensures
        distinct_ids(slots.push(slot)),
        slots_map(slots.push(slot)) == slots_map(slots).insert(slot.id@, slot.value),
{
    let more = slots.push(slot);
    assert(distinct_ids(more)) by {
        assert forall|a: int, b: int| 0 <= a < b < more.len() implies more[a].id@ != more[b].id@ by {
            if b == slots.len() {
                assert(more[a] == slots[a]);
                if slots[a].id@ == slot.id@ {
                    assert(holds(slots, slot.id@));
                }
            } else {
                assert(more[a] == slots[a] && more[b] == slots[b]);
            }
        }
    }
    assert forall|id: Seq<char>|
        slots_map(more).contains_key(id) <==> slots_map(slots).insert(
            slot.id@,
            slot.value,
        ).contains_key(id) by {
        if holds(more, id) {
            let a = place(more, id);
            if a < slots.len() {
                assert(more[a] == slots[a]);
                assert(holds(slots, id));
            }
        }
        if holds(slots, id) {
            let b = place(slots, id);
            assert(more[b] == slots[b]);
            assert(more[b].id@ == id);
        }
        if id == slot.id@ {
            assert(more[slots.len() as int].id@ == id);
        }
    }
    assert forall|id: Seq<char>| slots_map(more).contains_key(id) implies slots_map(more)[id]
        == slots_map(slots).insert(slot.id@, slot.value)[id] by {
        let a = place(more, id);
        lemma_slot(more, a);
        if a < slots.len() {
            assert(more[a] == slots[a]);
            lemma_slot(slots, a);
        }
    }
    assert(slots_map(more) =~= slots_map(slots).insert(slot.id@, slot.value));
}

/// The place of the slot that holds `id`, if any does.
fn find_slot<T>(slots: &Vec<Slot<T>>, id: &String) -> (at: Option<usize>)
    ensures
        match at {
            Some(i) => i < slots.len() && slots[i as int].id@ == id@,
            None => !holds(slots@, id@),
        },
{
    let mut i: usize = 0;
    while i < slots.len()
        invariant
            i <= slots.len(),
            forall|j: int| 0 <= j < i ==> slots[j].id@ != id@,
        decreases slots.len() - i,
    {
        if slots[i].id == *id {
            return Some(i);
        }
        i += 1;
    }
    None
}

impl<T> Registry<T> {
    #[verifier::type_invariant]
    spec fn distinct(self) -> bool {
        distinct_ids(self.slots@)
    }

    /// The map from ids to entries.
    pub closed spec fn view(&self) -> Map<Seq<char>, T> {
        slots_map(self.slots@)
    }

    /// An empty registry.
    pub fn new() -> (registry: Self)
        ensures
            registry@ == Map::<Seq<char>, T>::empty(),
    {
        let registry = Registry { slots: Vec::new() };
        assert(registry@ =~= Map::<Seq<char>, T>::empty());
        registry
    }

    /// Whether an entry stands under `id`.
    pub fn contains(&self, id: &str) -> (present: bool)
        ensures
            present == self@.contains_key(id@),
    {
        let key = owned(id);
        find_slot(&self.slots, &key).is_some()
    }

    /// The entry under `id`, if there is one.
    pub fn get(&self, id: &str) -> (entry: Option<&T>)
        ensures
            match entry {
                Some(value) => self@.contains_key(id@) && *value == self@[id@],
                None => !self@.contains_key(id@),
            },
    {
        proof {
            use_type_invariant(self);
        }
        let key = owned(id);
        match find_slot(&self.slots, &key) {
            Some(i) => {
                proof {
                    lemma_slot(self.slots@, i as int);
                }
                Some(&self.slots[i].value)
            },
            None => None,
        }
    }

    /// Takes the entry under `id` out, if there is one.
    pub fn take(&mut self, id: &str) -> (entry: Option<T>)
        ensures
            final(self)@ == old(self)@.remove(id@),
            entry == (if old(self)@.contains_key(id@) {
                Some(old(self)@[id@])
            } else {
                None
            }),
    {
        proof {
            use_type_invariant(&*self);
        }
        let key = owned(id);
        match find_slot(&self.slots, &key) {
            Some(i) => {
                proof {
                    lemma_slot(self.slots@, i as int);
                    lemma_remove(self.slots@, i as int);
                }
                let mut slots: Vec<Slot<T>> = Vec::new();
                std::mem::swap(&mut slots, &mut self.slots);
                let slot = slots.remove(i);
                self.slots = slots;
                Some(slot.value)
            },
            None => {
                assert(self@ =~= old(self)@.remove(id@));
                None
            },
        }
    }

    /// Puts `value` under `id`, in place of the entry that stood there, and
    /// hands that entry back.
    pub fn insert(&mut self, id: String, value: T) -> (previous: Option<T>)
        ensures
            final(self)@ == old(self)@.insert(id@, value),
            previous == (if old(self)@.contains_key(id@) {
                Some(old(self)@[id@])
            } else {
                None
            }),
    {
        proof {
            use_type_invariant(&*self);
        }
        let mut slots: Vec<Slot<T>> = Vec::new();
        std::mem::swap(&mut slots, &mut self.slots);
        let previous = match find_slot(&slots, &id) {
            Some(i) => {
                proof {
                    lemma_slot(slots@, i as int);
                    lemma_remove(slots@, i as int);
                }
                let slot = slots.remove(i);
                Some(slot.value)
            },
            None => None,
        };
        proof {
            let slot = Slot { id, value };
            assert(!holds(slots@, id@)) by {
                if old(self)@.contains_key(id@) {
                    assert(!slots_map(slots@).contains_key(id@));
                }
            }
            lemma_push(slots@, slot);
            assert(slots_map(slots@).insert(id@, value) =~= old(self)@.insert(id@, value));
        }
        slots.push(Slot { id, value });
        self.slots = slots;
        previous
    }
}

} // verus!
