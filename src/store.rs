//! An in-memory store of key records, keyed by a store-assigned id.

use vstd::prelude::*;
use vstd::hash_map::HashMapWithView;
use crate::error::KeyError;
use crate::model::{Key, KeyRecord};

verus! {

broadcast use vstd::std_specs::hash::group_hash_axioms;

/// The record that `create_key` stores.
pub open spec fn new_record(id: u64, name: Seq<char>, encrypted_data: Seq<char>, at: i64) -> KeyRecord {
    KeyRecord { id, name, encrypted_data, created_at: at, updated_at: at }
}

/// Key records by id. Ids are assigned in increasing order from 1 and never
/// reused; each record carries its own id.
pub struct MemoryKeyStore {
    keys: HashMapWithView<u64, Key>,
    next_id: u64,
}

impl View for MemoryKeyStore {
    type V = Map<u64, KeyRecord>;

    closed spec fn view(&self) -> Map<u64, KeyRecord> {
        self.keys@.map_values(|k: Key| k@)
    }
}

impl MemoryKeyStore {
    /// The store's internal invariant.
    pub closed spec fn wf(&self) -> bool {
        &&& self.next_id >= 1
        &&& forall|id: u64| #[trigger]
            self.keys@.contains_key(id) ==> id < self.next_id && self.keys@[id].id == id
    }

    /// The id that the next record will get.
    pub closed spec fn next_id_spec(&self) -> u64 {
        self.next_id
    }

    /// No id is left to assign.
    pub open spec fn is_full(&self) -> bool {
        self.next_id_spec() == u64::MAX
    }

    /// An empty store.
    pub fn new() -> (r: MemoryKeyStore)
        ensures
            r.wf(),
            r@ == Map::<u64, KeyRecord>::empty(),
            r.next_id_spec() == 1,
    {
        let r = MemoryKeyStore { keys: HashMapWithView::new(), next_id: 1 };
        proof {
            assert(r@ =~= Map::<u64, KeyRecord>::empty());
        }
        r
    }

    /// Stores a new record with the next id and both timestamps set to
    /// `now`, and returns the id. Fails with `PersistenceError`, storing
    /// nothing, when no id is left.
    pub fn create_key(&mut self, name: String, encrypted_data: String, now: i64) -> (r: Result<
        u64,
        KeyError,
    >)
        requires
            old(self).wf(),
        ensures
            final(self).wf(),
            match r {
                Ok(id) => !old(self).is_full() && id == old(self).next_id_spec() && !old(
                    self,
                )@.contains_key(id) && final(self)@ == old(self)@.insert(
                    id,
                    new_record(id, name@, encrypted_data@, now),
                ) && final(self).next_id_spec() == id + 1,
                Err(e) => old(self).is_full() && e == KeyError::PersistenceError && final(self)@
                    == old(self)@ && final(self).next_id_spec() == old(self).next_id_spec(),
            },
    {
        if self.next_id == u64::MAX {
            return Err(KeyError::PersistenceError);
        }
        let id = self.next_id;
        let key = Key { id, name, encrypted_data, created_at: now, updated_at: now };
        self.keys.insert(id, key);
        self.next_id = id + 1;
        proof {
            assert(self@ =~= old(self)@.insert(id, new_record(id, name@, encrypted_data@, now)));
        }
        Ok(id)
    }

    /// The record with id `id`, if there is one.
    pub fn get_key_by_id(&self, id: u64) -> (r: Option<Key>)
        requires
            self.wf(),
        ensures
            match r {
                Some(k) => self@.contains_key(id) && k@ == self@[id] && k.id == id,
                None => !self@.contains_key(id),
            },
    {
        match self.keys.get(&id) {
            Some(k) => Some(k.duplicate()),
            None => None,
        }
    }

    /// Removes the record with id `id`; an absent id leaves the store as it is.
    pub fn delete_key(&mut self, id: u64)
        requires
            old(self).wf(),
        ensures
            final(self).wf(),
            final(self)@ == old(self)@.remove(id),
            final(self).next_id_spec() == old(self).next_id_spec(),
    {
        let _ = self.keys.remove(&id);
        proof {
            assert(self@ =~= old(self)@.remove(id));
        }
    }
}

} // verus!
