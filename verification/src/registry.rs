//! The side-table behind the closure bridge.
//!
//! The foreign engine can call a host closure only through one fixed native
//! entry point; which closure that entry point reaches is decided by data: an
//! opaque integer key stored in a hidden slot of the function object.  This
//! table owns the entries those keys name.  A key is handed out once and
//! never reused, so a stale key can only miss, never alias a later entry.
//! Entries leave the table only when the foreign garbage collector finalizes
//! the function object holding the key — until then the table is the sole
//! owner of the entry.

use vstd::prelude::*;

verus! {

/// A table of entries named by opaque, never-reused integer keys.
pub struct Registry<E> {
    slots: Vec<Option<E>>,
}

impl<E> Registry<E> {
    /// The live entries, as a map from key to entry.
    pub closed spec fn entries(&self) -> Map<u64, E> {
        Map::new(
            |k: u64| 0 <= k < self.slots@.len() && self.slots@[k as int] is Some,
            |k: u64| self.slots@[k as int]->0,
        )
    }

    /// How many keys have ever been handed out.
    pub closed spec fn keys_issued(&self) -> int {
        self.slots@.len() as int
    }

    /// An empty table.
    pub fn new() -> (r: Registry<E>)
        ensures
            r.entries() == Map::<u64, E>::empty(),
            r.keys_issued() == 0,
    {
        let r = Registry { slots: Vec::new() };
        proof {
            assert(r.entries() =~= Map::<u64, E>::empty());
        }
        r
    }

    /// How many keys have ever been handed out.
    pub fn issued(&self) -> (r: usize)
        ensures
            r == self.keys_issued(),
    {
        self.slots.len()
    }

    /// Store an entry under a fresh key and hand the key out.  The key was
    /// never issued before, so nothing else in the table — nor anything a
    /// caller remembered from it — is named by it.
    pub fn insert(&mut self, entry: E) -> (key: u64)
        requires
            old(self).keys_issued() < u64::MAX,
        ensures
            key == old(self).keys_issued(),
            !old(self).entries().dom().contains(key),
            final(self).entries() == old(self).entries().insert(key, entry),
            final(self).keys_issued() == old(self).keys_issued() + 1,
    {
        let key = self.slots.len() as u64;
        self.slots.push(Some(entry));
        proof {
            assert(self.entries() =~= old(self).entries().insert(key, entry));
        }
        key
    }

    /// Look an entry up by its key.
    pub fn get(&self, key: u64) -> (r: Option<&E>)
        ensures
            match r {
                Some(e) => self.entries().dom().contains(key) && *e == self.entries()[key],
                None => !self.entries().dom().contains(key),
            },
    {
        if key < self.slots.len() as u64 {
            match &self.slots[key as usize] {
                Some(e) => Some(e),
                None => None,
            }
        } else {
            None
        }
    }

    /// Drop the entry a key names, reporting whether one was present.  This
    /// is the finalization notice: the foreign garbage collector reclaimed
    /// the function object holding the key, so the entry's lifetime ends
    /// here and nowhere else.
    pub fn finalize(&mut self, key: u64) -> (present: bool)
        ensures
            present == old(self).entries().dom().contains(key),
            final(self).entries() == old(self).entries().remove(key),
            final(self).keys_issued() == old(self).keys_issued(),
    {
        if key < self.slots.len() as u64 {
            let idx = key as usize;
            let present = self.slots[idx].is_some();
            self.slots[idx] = None;
            proof {
                assert(self.entries() =~= old(self).entries().remove(key));
            }
            present
        } else {
            proof {
                assert(self.entries() =~= old(self).entries().remove(key));
            }
            false
        }
    }
}

} // verus!
