//! An arena with owner counting: the sequential model of an owning /
//! non-owning reference pair.
//!
//! A slot is allocated with one owning reference; owners can be added and
//! released, and the slot is reclaimed the moment its last owner is
//! released. A slot index held outside the arena is a non-owning reference:
//! it never keeps the slot alive, and resolving it answers the stored value
//! exactly while at least one owner remains, and "absent" afterwards.

use vstd::prelude::*;

verus! {

/// One allocation: its value and the number of owning references to it.
/// A slot with no owners has been reclaimed.
#[derive(Debug, Clone, Copy, PartialEq, Eq, Structural)]
pub struct ArenaSlot {
    pub value: i32,
    pub owners: u32,
}

/// The allocations, indexed by slot number. Slot numbers are never reused,
/// so an index uniquely names one allocation for the arena's whole life.
#[derive(Debug)]
pub struct Arena {
    pub slots: Vec<ArenaSlot>,
}

impl Arena {
    /// `id` names a slot that still has at least one owning reference.
    pub open spec fn live(self, id: int) -> bool {
        0 <= id < self.slots@.len() && self.slots@[id].owners > 0
    }

    /// An empty arena.
    pub fn new() -> (a: Arena)
        ensures
            a.slots@.len() == 0,
    {
        Arena { slots: Vec::new() }
    }

    /// Stores `value` in a fresh slot with exactly one owning reference and
    /// hands back the slot's index.
    pub fn allocate(&mut self, value: i32) -> (id: usize)
        ensures
            id == old(self).slots@.len(),
            final(self).slots@ == old(self).slots@.push((ArenaSlot { value, owners: 1 })),
            final(self).live(id as int),
    {
        let id = self.slots.len();
        self.slots.push(ArenaSlot { value, owners: 1 });
        id
    }

    /// Adds one owning reference to a live slot.
    pub fn add_owner(&mut self, id: usize)
        requires
            old(self).live(id as int),
            old(self).slots@[id as int].owners < u32::MAX,
        ensures
            final(self).slots@ == old(self).slots@.update(
                id as int,
                (ArenaSlot {
                    value: old(self).slots@[id as int].value,
                    owners: (old(self).slots@[id as int].owners + 1) as u32,
                }),
            ),
            final(self).live(id as int),
    {
        let owners = self.slots[id].owners;
        self.slots[id].owners = owners + 1;
    }

    /// Releases one owning reference. When the last owner goes, the slot is
    /// reclaimed: it stops being live, and no later operation can revive it.
    pub fn release(&mut self, id: usize)
        requires
            old(self).live(id as int),
        ensures
            final(self).slots@ == old(self).slots@.update(
                id as int,
                (ArenaSlot {
                    value: old(self).slots@[id as int].value,
                    owners: (old(self).slots@[id as int].owners - 1) as u32,
                }),
            ),
            final(self).live(id as int) <==> old(self).slots@[id as int].owners > 1,
    {
        let owners = self.slots[id].owners;
        self.slots[id].owners = owners - 1;
    }

    /// Resolves a non-owning reference: the stored value exactly while the
    /// slot has an owner, and `None` once the last owner has been released
    /// (or the index never named a slot).
    pub fn try_get(&self, id: usize) -> (r: Option<i32>)
        ensures
            self.live(id as int) ==> r == Some(self.slots@[id as int].value),
            !self.live(id as int) ==> r is None,
    {
        if id < self.slots.len() {
            let slot = self.slots[id];
            if slot.owners > 0 {
                Some(slot.value)
            } else {
                None
            }
        } else {
            None
        }
    }
}

} // verus!
