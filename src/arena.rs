//! Generational arenas: entities live in slots, and a handle names a slot
//! at one generation, so lookups of removed entities answer "not found".
use vstd::prelude::*;

verus! {

/// A stable handle to an entity: the slot it lives in and the generation of
/// that slot when it was created. A handle outlives its entity without
/// ever naming a later one.
#[derive(Clone, Copy, Debug, PartialEq, Eq, Structural)]
pub struct EntityId {
    pub index: usize,
    pub generation: u32,
}

#[derive(Clone, Copy, Debug)]
pub struct Slot<T> {
    pub generation: u32,
    pub value: Option<T>,
}

/// Entities of one kind, in slots that are reused with a new generation
/// once emptied.
pub struct Arena<T> {
    pub slots: Vec<Slot<T>>,
}

impl<T> Arena<T> {
    /// The entity a handle names, if it still exists.
    pub open spec fn lookup(&self, id: EntityId) -> Option<T> {
        if id.index < self.slots@.len() && self.slots@[id.index as int].generation == id.generation {
            self.slots@[id.index as int].value
        } else {
            None
        }
    }

    /// The handle of whatever slot `i` holds now.
    pub open spec fn id_at(&self, i: int) -> EntityId {
        EntityId { index: i as usize, generation: self.slots@[i].generation }
    }

    /// Slot `i` can take a new entity.
    pub open spec fn reusable(&self, i: int) -> bool {
        self.slots@[i].value is None && self.slots@[i].generation < u32::MAX
    }

    pub fn new() -> (r: Arena<T>)
        ensures
            r.slots@.len() == 0,
    {
        Arena { slots: Vec::new() }
    }

    /// The number of slots, full or empty.
    pub fn len(&self) -> (r: usize)
        ensures
            r == self.slots@.len(),
    {
        self.slots.len()
    }

    pub fn id_of(&self, i: usize) -> (r: EntityId)
        requires
            i < self.slots@.len(),
        ensures
            r == self.id_at(i as int),
    {
        EntityId { index: i, generation: self.slots[i].generation }
    }

    /// What slot `i` holds.
    pub fn at(&self, i: usize) -> (r: Option<&T>)
        requires
            i < self.slots@.len(),
        ensures
            match r {
                Some(v) => self.slots@[i as int].value == Some(*v),
                None => self.slots@[i as int].value is None,
            },
    {
        match &self.slots[i].value {
            Some(v) => Some(v),
            None => None,
        }
    }

    pub fn get(&self, id: EntityId) -> (r: Option<&T>)
        ensures
            match r {
                Some(v) => self.lookup(id) == Some(*v),
                None => self.lookup(id) is None,
            },
    {
        if id.index < self.slots.len() && self.slots[id.index].generation == id.generation {
            self.at(id.index)
        } else {
            None
        }
    }

    /// Replaces what slot `i` holds, keeping its generation.
    pub fn set_at(&mut self, i: usize, v: T)
        requires
            i < old(self).slots@.len(),
        ensures
            final(self).slots@ == old(self).slots@.update(
                i as int,
                Slot { generation: old(self).slots@[i as int].generation, value: Some(v) },
            ),
    {
        let generation = self.slots[i].generation;
        self.slots.set(i, Slot { generation, value: Some(v) });
    }

    /// Takes the value out of slot `i`, leaving it empty at the same
    /// generation.
    pub fn take_at(&mut self, i: usize) -> (r: Option<T>)
        requires
            i < old(self).slots@.len(),
        ensures
            r == old(self).slots@[i as int].value,
            final(self).slots@ == old(self).slots@.update(
                i as int,
                Slot { generation: old(self).slots@[i as int].generation, value: None },
            ),
    {
        let mut slot = Slot { generation: self.slots[i].generation, value: None };
        self.slots.set_and_swap(i, &mut slot);
        slot.value
    }

    /// Stores a new entity, in the first reusable slot or else in a new one.
    pub fn insert(&mut self, v: T) -> (id: EntityId)
        requires
            old(self).slots@.len() < usize::MAX,
        ensures
            old(self).lookup(id) is None,
            final(self).lookup(id) == Some(v),
            forall|j: EntityId| j != id ==> final(self).lookup(j) == old(self).lookup(j),
            id.index < final(self).slots@.len(),
            final(self).slots@.len() == old(self).slots@.len() || (final(self).slots@.len()
                == old(self).slots@.len() + 1 && id.index == old(self).slots@.len()),
            forall|i: int|
                0 <= i < old(self).slots@.len() && i != id.index ==> final(self).slots@[i]
                    == old(self).slots@[i],
            final(self).slots@[id.index as int] == (Slot { generation: id.generation, value: Some(v) }),
    {
        let n = self.slots.len();
        let mut i: usize = 0;
        while i < n
            invariant
                n == self.slots@.len(),
                self.slots@ == old(self).slots@,
                i <= n,
                forall|k: int| 0 <= k < i ==> !self.reusable(k),
            decreases n - i,
        {
            if self.slots[i].value.is_none() && self.slots[i].generation < u32::MAX {
                let generation = self.slots[i].generation;
                self.slots.set(i, Slot { generation, value: Some(v) });
                return EntityId { index: i, generation };
            }
            i = i + 1;
        }
        self.slots.push(Slot { generation: 0, value: Some(v) });
        let id = EntityId { index: n, generation: 0 };
        assert forall|j: EntityId| j != id implies self.lookup(j) == old(self).lookup(j) by {
            if j.index < n {
                assert(self.slots@[j.index as int] == old(self).slots@[j.index as int]);
            }
        }
        id
    }

    /// Removes the entity a handle names, if it exists, and gives it back.
    /// Its slot moves on to a new generation.
    pub fn remove(&mut self, id: EntityId) -> (r: Option<T>)
        ensures
            r == old(self).lookup(id),
            final(self).lookup(id) is None,
            forall|j: EntityId| j != id ==> final(self).lookup(j) == old(self).lookup(j),
            final(self).slots@.len() == old(self).slots@.len(),
            forall|i: int|
                0 <= i < old(self).slots@.len() && i != id.index ==> final(self).slots@[i]
                    == old(self).slots@[i],
            r is Some ==> final(self).slots@[id.index as int].value is None,
            r is None ==> final(self).slots@ == old(self).slots@,
    {
        if id.index < self.slots.len() && self.slots[id.index].generation == id.generation
            && self.slots[id.index].value.is_some() {
            let generation = id.generation;
            let next: u32 = if generation < u32::MAX {
                generation + 1
            } else {
                generation
            };
            let mut slot = Slot { generation: next, value: None };
            self.slots.set_and_swap(id.index, &mut slot);
            slot.value
        } else {
            None
        }
    }
}

} // verus!
