//! The escrow record store: a mapping from escrow id to record together with
//! the monotonic id allocator. Records are only ever created or overwritten
//! whole, never deleted, and ids are never reused.

use vstd::prelude::*;
use std::collections::HashMap;
use crate::types::Error;
use crate::types::Escrow;
use crate::types::EscrowId;

verus! {

broadcast use vstd::std_specs::hash::group_hash_axioms;

/// The store that exclusively owns all escrow records. All access is by
/// value through id lookup; no caller holds a live handle into a record.
pub struct EscrowStore {
    /// The stored records, keyed by escrow id.
    pub records: HashMap<EscrowId, Escrow>,
    /// The next id the allocator will hand out; only ever increments.
    pub next_id: EscrowId,
}

impl EscrowStore {
    /// An empty store whose id allocator starts at 0.
    pub fn new() -> (s: EscrowStore)
        ensures
            s.records@ == Map::<EscrowId, Escrow>::empty(),
            s.next_id == 0,
    {
        EscrowStore { records: HashMap::new(), next_id: 0 }
    }

    /// Returns the current counter value and increments the counter; fails
    /// with `IdOverflow`, changing nothing, once the id space is exhausted.
    pub fn allocate_id(&mut self) -> (r: Result<EscrowId, Error>)
        ensures
            final(self).records@ == old(self).records@,
            match r {
                Ok(id) => {
                    &&& old(self).next_id < u64::MAX
                    &&& id == old(self).next_id
                    &&& final(self).next_id == old(self).next_id + 1
                },
                Err(e) => {
                    &&& e == Error::IdOverflow
                    &&& old(self).next_id == u64::MAX
                    &&& *final(self) == *old(self)
                },
            },
    {
        let id = self.next_id;
        match id.checked_add(1) {
            Some(n) => {
                self.next_id = n;
                Ok(id)
            },
            None => Err(Error::IdOverflow),
        }
    }

    /// Returns a copy of the record stored under `id`, or nothing if absent.
    /// Side-effect free.
    pub fn get(&self, id: EscrowId) -> (r: Option<Escrow>)
        ensures
            r == if self.records@.contains_key(id) {
                Some(self.records@[id])
            } else {
                None::<Escrow>
            },
    {
        match self.records.get(&id) {
            Some(record) => Some(*record),
            None => None,
        }
    }

    /// Unconditionally overwrites or creates the record stored under `id`.
    /// The record is replaced as a whole; no partial writes.
    pub fn put(&mut self, id: EscrowId, record: Escrow)
        ensures
            final(self).records@ == old(self).records@.insert(id, record),
            final(self).next_id == old(self).next_id,
    {
        self.records.insert(id, record);
    }

    /// Whether a record is stored under `id`. Side-effect free.
    pub fn contains(&self, id: EscrowId) -> (r: bool)
        ensures
            r == self.records@.contains_key(id),
    {
        self.records.contains_key(&id)
    }
}

} // verus!
