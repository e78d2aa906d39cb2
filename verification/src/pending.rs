//! The table of calls that wait for their reply.
//!
//! Each outstanding call has one entry: its id, and the slot through which the
//! caller is answered. An entry leaves the table exactly once: when its reply
//! arrives, or when the connection is lost and the table is cleared. A slot
//! that is dropped unanswered tells its caller that the call was abandoned.

use vstd::prelude::*;
use std::collections::HashMap;

verus! {

/// The outstanding calls, by id. `T` is the reply slot of a call.
#[derive(Debug)]
pub struct PendingTable<T> {
    slots: HashMap<i64, T>,
}

impl<T> View for PendingTable<T> {
    type V = Map<i64, T>;

    closed spec fn view(&self) -> Map<i64, T> {
        self.slots@
    }
}

impl<T> PendingTable<T> {
    /// An empty table.
    pub fn new() -> (r: Self)
        ensures
            r@ == Map::<i64, T>::empty(),
    {
        PendingTable { slots: HashMap::new() }
    }

    /// How many calls are outstanding.
    pub fn len(&self) -> (r: usize)
        ensures
            r == self@.len(),
            self@.dom().finite(),
    {
        broadcast use vstd::std_specs::hash::group_hash_axioms;

        self.slots.len()
    }

    /// Whether no call is outstanding.
    pub fn is_empty(&self) -> (r: bool)
        ensures
            r == (self@ == Map::<i64, T>::empty()),
    {
        broadcast use vstd::std_specs::hash::group_hash_axioms;

        let r = self.slots.len() == 0;
        proof {
            if r {
                assert(self@ =~= Map::<i64, T>::empty());
            }
        }
        r
    }

    /// Whether a call with this id is outstanding.
    pub fn contains(&self, id: i64) -> (r: bool)
        ensures
            r == self@.contains_key(id),
    {
        broadcast use vstd::std_specs::hash::group_hash_axioms;

        self.slots.contains_key(&id)
    }

    /// Records the slot of a new call. The caller supplies an id that no
    /// outstanding call has.
    pub fn insert(&mut self, id: i64, slot: T)
        requires
            !old(self)@.contains_key(id),
        ensures
            final(self)@ == old(self)@.insert(id, slot),
    {
        broadcast use vstd::std_specs::hash::group_hash_axioms;

        let _ = self.slots.insert(id, slot);
    }

    /// Takes the slot of the call with this id out of the table, if the call
    /// is outstanding. Other entries stay as they are.
    pub fn resolve(&mut self, id: i64) -> (r: Option<T>)
        ensures
            r == (if old(self)@.contains_key(id) {
                Some(old(self)@[id])
            } else {
                None
            }),
            final(self)@ == old(self)@.remove(id),
    {
        broadcast use vstd::std_specs::hash::group_hash_axioms;

        self.slots.remove(&id)
    }

    /// Drops every slot.
    pub fn clear(&mut self)
        ensures
            final(self)@ == Map::<i64, T>::empty(),
    {
        self.slots.clear()
    }
}

} // verus!
