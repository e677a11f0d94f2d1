//! Generational arenas.
//!
//! Every entity kind of the database (cells, nets, regions, pseudo-cell
//! plugs) lives in an arena that owns the values and hands out copyable
//! `ArenaIndex` handles instead of references.  A handle pairs a slot
//! number with the generation the slot had when the value was inserted;
//! removing a value retires that generation, so a lookup through a stale
//! handle answers `None` instead of aliasing whatever lives in the slot
//! now.
//!
//! Abstractly an arena is the map from valid handles to the values they
//! name; every operation's contract is stated over that map.

use core::marker::PhantomData;
use vstd::map::*;
use vstd::prelude::*;

verus! {

/// A handle into an [`Arena<T>`]: a slot number plus the generation the
/// slot had when this handle was issued.
#[derive(Debug, Hash)]
pub struct ArenaIndex<T> {
    slot: usize,
    generation: u64,
    phantom: PhantomData<T>,
}

impl<T> Clone for ArenaIndex<T> {
    /// Copies the handle.
    fn clone(&self) -> (r: Self)
        ensures
            r == *self,
    {
        ArenaIndex { slot: self.slot, generation: self.generation, phantom: PhantomData }
    }
}

impl<T> Copy for ArenaIndex<T> {}

impl<T> ArenaIndex<T> {
    /// The slot number of this handle.
    pub closed spec fn spec_slot(self) -> int {
        self.slot as int
    }

    /// The generation of this handle.
    pub closed spec fn spec_generation(self) -> int {
        self.generation as int
    }

    /// Handles that agree on slot and generation are equal.
    pub proof fn lemma_eq_from_parts(self, other: Self)
        requires
            self.spec_slot() == other.spec_slot(),
            self.spec_generation() == other.spec_generation(),
        ensures
            self == other,
    {
    }
}

impl<T> PartialEq for ArenaIndex<T> {
    /// Two handles are equal iff slot and generation agree.
    fn eq(&self, other: &Self) -> (r: bool) {
        self.slot == other.slot && self.generation == other.generation
    }
}

impl<T> vstd::std_specs::cmp::PartialEqSpecImpl for ArenaIndex<T> {
    open spec fn obeys_eq_spec() -> bool {
        true
    }

    open spec fn eq_spec(&self, other: &Self) -> bool {
        *self == *other
    }
}

impl<T> Eq for ArenaIndex<T> {}

/// One slot of an arena: its current generation and, if occupied, its
/// value.
#[derive(Debug, PartialEq)]
struct Slot<T> {
    generation: u64,
    val: Option<T>,
}

/// A pool that owns values of one entity kind and addresses them through
/// stable [`ArenaIndex`] handles.
#[derive(Debug, PartialEq)]
pub struct Arena<T> {
    slots: Vec<Slot<T>>,
    free_slots: Vec<usize>,
}

impl<T> View for Arena<T> {
    type V = Map<ArenaIndex<T>, T>;

    /// An arena is abstractly the map from valid handles to values.
    closed spec fn view(&self) -> Map<ArenaIndex<T>, T> {
        Map::new(
            |i: ArenaIndex<T>| self.spec_valid(i),
            |i: ArenaIndex<T>| self.slots@[i.slot as int].val->Some_0,
        )
    }
}

impl<T> Arena<T> {
    /// Whether the handle names a live value of this arena.
    pub closed spec fn spec_valid(&self, i: ArenaIndex<T>) -> bool {
        &&& i.slot < self.slots@.len()
        &&& self.slots@[i.slot as int].generation == i.generation
        &&& self.slots@[i.slot as int].val is Some
    }

    /// The arena's internal bookkeeping invariant: the free list points
    /// at distinct, unoccupied, reusable slots.
    pub closed spec fn inv(&self) -> bool {
        &&& forall|k: int|
            0 <= k < self.free_slots@.len() ==> {
                &&& #[trigger] self.free_slots@[k] < self.slots@.len()
                &&& self.slots@[self.free_slots@[k] as int].val is None
                &&& self.slots@[self.free_slots@[k] as int].generation < u64::MAX
            }
        &&& forall|j: int, k: int|
            0 <= j < k < self.free_slots@.len() ==> #[trigger] self.free_slots@[j]
                != #[trigger] self.free_slots@[k]
    }

    /// Whether a value taken out through `take` can be put back under
    /// the same handle.
    pub closed spec fn can_restore(&self, i: ArenaIndex<T>) -> bool {
        &&& i.slot < self.slots@.len()
        &&& self.slots@[i.slot as int].generation == i.generation
        &&& self.slots@[i.slot as int].val is None
        &&& forall|k: int|
            0 <= k < self.free_slots@.len() ==> #[trigger] self.free_slots@[k] != i.slot
    }

    /// The empty arena.
    pub fn new() -> (r: Self)
        ensures
            r.inv(),
            r@ == Map::<ArenaIndex<T>, T>::empty(),
    {
        let r = Arena { slots: Vec::new(), free_slots: Vec::new() };
        proof {
            assert_maps_equal!(r@, Map::<ArenaIndex<T>, T>::empty());
        }
        r
    }

    /// Stores a value and returns a fresh handle for it; every handle
    /// valid before stays valid and names the same value.
    pub fn insert(&mut self, value: T) -> (idx: ArenaIndex<T>)
        requires
            old(self).inv(),
        ensures
            final(self).inv(),
            !old(self)@.contains_key(idx),
            final(self)@ == old(self)@.insert(idx, value),
    {
        let ghost old_self = *self;
        match self.free_slots.pop() {
            Some(slot) => {
                let generation = self.slots[slot].generation;
                let idx = ArenaIndex { slot, generation, phantom: PhantomData };
                let old_slot = self.slots.remove(slot);
                self.slots.insert(slot, Slot { generation, val: Some(value) });
                proof {
                    assert(self.slots@ =~= old_self.slots@.update(
                        slot as int,
                        Slot { generation, val: Some(value) },
                    ));
                    assert forall|j: ArenaIndex<T>| j != idx implies
                        old_self.spec_valid(j) == self.spec_valid(j) by {
                        if j.slot == idx.slot && j.generation == idx.generation {
                            j.lemma_eq_from_parts(idx);
                        }
                    }
                    assert_maps_equal!(final(self)@, old(self)@.insert(idx, value));
                }
                idx
            },
            None => {
                let slot = self.slots.len();
                let idx = ArenaIndex { slot, generation: 0u64, phantom: PhantomData };
                self.slots.push(Slot { generation: 0u64, val: Some(value) });
                proof {
                    assert forall|j: ArenaIndex<T>| j != idx implies
                        old_self.spec_valid(j) == self.spec_valid(j) by {
                        if j.slot == idx.slot && j.generation == idx.generation {
                            j.lemma_eq_from_parts(idx);
                        }
                    }
                    assert_maps_equal!(final(self)@, old(self)@.insert(idx, value));
                }
                idx
            },
        }
    }

    /// Looks a handle up: the value it names, or `None` for a stale or
    /// foreign handle.
    pub fn get(&self, idx: ArenaIndex<T>) -> (r: Option<&T>)
        ensures
            match r {
                Some(v) => self@.contains_key(idx) && *v == self@[idx],
                None => !self@.contains_key(idx),
            },
    {
        if idx.slot < self.slots.len() {
            let slot = &self.slots[idx.slot];
            if slot.generation == idx.generation {
                match &slot.val {
                    Some(v) => Some(v),
                    None => None,
                }
            } else {
                None
            }
        } else {
            None
        }
    }

    /// Whether the handle names a live value.
    pub fn contains(&self, idx: ArenaIndex<T>) -> (r: bool)
        ensures
            r == self@.contains_key(idx),
    {
        match self.get(idx) {
            Some(_) => true,
            None => false,
        }
    }

    /// Removes the value a handle names and retires the handle; a stale
    /// or foreign handle removes nothing.
    pub fn remove(&mut self, idx: ArenaIndex<T>) -> (r: Option<T>)
        requires
            old(self).inv(),
        ensures
            final(self).inv(),
            match r {
                Some(v) => old(self)@.contains_key(idx) && v == old(self)@[idx],
                None => !old(self)@.contains_key(idx),
            },
            final(self)@ == old(self)@.remove(idx),
    {
        let ghost old_self = *self;
        if idx.slot >= self.slots.len() {
            proof {
                assert_maps_equal!(final(self)@, old(self)@.remove(idx));
            }
            return None;
        }
        let generation = self.slots[idx.slot].generation;
        let occupied = self.slots[idx.slot].val.is_some();
        if generation != idx.generation || !occupied {
            proof {
                if self@.contains_key(idx) {
                    assert(false);
                }
                assert_maps_equal!(final(self)@, old(self)@.remove(idx));
            }
            return None;
        }
        proof {
            assert forall|k: int| 0 <= k < old_self.free_slots@.len() implies
                old_self.free_slots@[k] != idx.slot by {
                assert(old_self.slots@[old_self.free_slots@[k] as int].val is None);
            }
        }
        let old_slot = self.slots.remove(idx.slot);
        let new_generation = if generation < u64::MAX {
            generation + 1
        } else {
            generation
        };
        self.slots.insert(idx.slot, Slot { generation: new_generation, val: None });
        proof {
            assert(self.slots@ =~= old_self.slots@.update(
                idx.slot as int,
                Slot { generation: new_generation, val: None },
            ));
        }
        if new_generation < u64::MAX {
            self.free_slots.push(idx.slot);
        }
        proof {
            assert forall|j: ArenaIndex<T>| j != idx implies
                old_self.spec_valid(j) == self.spec_valid(j) by {
                if j.slot == idx.slot && j.generation == idx.generation {
                    j.lemma_eq_from_parts(idx);
                }
            }
            assert_maps_equal!(final(self)@, old(self)@.remove(idx));
        }
        old_slot.val
    }

    /// Takes the value a handle names out of the arena without retiring
    /// the handle, so that `put` can store it back under the same handle.
    pub fn take(&mut self, idx: ArenaIndex<T>) -> (r: Option<T>)
        requires
            old(self).inv(),
        ensures
            final(self).inv(),
            match r {
                Some(v) => {
                    &&& old(self)@.contains_key(idx)
                    &&& v == old(self)@[idx]
                    &&& final(self).can_restore(idx)
                },
                None => !old(self)@.contains_key(idx) && *final(self) == *old(self),
            },
            final(self)@ == old(self)@.remove(idx),
    {
        let ghost old_self = *self;
        if idx.slot >= self.slots.len() {
            proof {
                assert_maps_equal!(final(self)@, old(self)@.remove(idx));
            }
            return None;
        }
        let generation = self.slots[idx.slot].generation;
        let occupied = self.slots[idx.slot].val.is_some();
        if generation != idx.generation || !occupied {
            proof {
                if self@.contains_key(idx) {
                    assert(false);
                }
                assert_maps_equal!(final(self)@, old(self)@.remove(idx));
            }
            return None;
        }
        proof {
            assert forall|k: int| 0 <= k < old_self.free_slots@.len() implies
                old_self.free_slots@[k] != idx.slot by {
                assert(old_self.slots@[old_self.free_slots@[k] as int].val is None);
            }
        }
        let old_slot = self.slots.remove(idx.slot);
        self.slots.insert(idx.slot, Slot { generation, val: None });
        proof {
            assert(self.slots@ =~= old_self.slots@.update(
                idx.slot as int,
                Slot { generation, val: None },
            ));
            assert forall|j: ArenaIndex<T>| j != idx implies
                old_self.spec_valid(j) == self.spec_valid(j) by {
                if j.slot == idx.slot && j.generation == idx.generation {
                    j.lemma_eq_from_parts(idx);
                }
            }
            assert_maps_equal!(final(self)@, old(self)@.remove(idx));
        }
        old_slot.val
    }

    /// Stores a value back under a handle that `take` emptied.
    pub fn put(&mut self, idx: ArenaIndex<T>, value: T)
        requires
            old(self).inv(),
            old(self).can_restore(idx),
        ensures
            final(self).inv(),
            final(self)@ == old(self)@.insert(idx, value),
    {
        let ghost old_self = *self;
        let generation = self.slots[idx.slot].generation;
        let old_slot = self.slots.remove(idx.slot);
        self.slots.insert(idx.slot, Slot { generation, val: Some(value) });
        proof {
            assert(self.slots@ =~= old_self.slots@.update(
                idx.slot as int,
                Slot { generation, val: Some(value) },
            ));
            assert forall|j: ArenaIndex<T>| j != idx implies
                old_self.spec_valid(j) == self.spec_valid(j) by {
                if j.slot == idx.slot && j.generation == idx.generation {
                    j.lemma_eq_from_parts(idx);
                }
            }
            assert_maps_equal!(final(self)@, old(self)@.insert(idx, value));
        }
    }
}

impl<T> Default for Arena<T> {
    /// The default arena is empty.
    fn default() -> (r: Self)
        ensures
            r.inv(),
            r@ == Map::<ArenaIndex<T>, T>::empty(),
    {
        Arena::new()
    }
}

} // verus!
