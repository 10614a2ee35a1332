//! The entity registry: two co-maintained mappings from device-assigned
//! keys to sequential hub-facing indices and back. Indices are assigned
//! monotonically and never recycled within a session's lifetime; the two
//! directions are exact inverses of each other.

use std::collections::HashMap;
use vstd::prelude::*;

use crate::model::EntityType;

verus! {

/// The key/index mapping owned by one device session.
pub struct EntityRegistry {
    key_to_index: HashMap<u32, usize>,
    index_to_info: Vec<(EntityType, u32)>,
}

impl EntityRegistry {
    /// The key-to-index direction.
    pub closed spec fn spec_key_map(&self) -> Map<u32, usize> {
        self.key_to_index@
    }

    /// The index-to-info direction: position `i` holds the entity type and
    /// key registered under index `i`.
    pub closed spec fn spec_infos(&self) -> Seq<(EntityType, u32)> {
        self.index_to_info@
    }

    /// How many entities have been registered.
    pub open spec fn spec_len(&self) -> nat {
        self.spec_infos().len()
    }

    /// The registry invariant: every registered index maps back to its key
    /// and every known key maps to the index it was registered under.
    pub open spec fn wf(&self) -> bool {
        &&& forall|i: int|
            0 <= i < self.spec_infos().len() ==> self.spec_key_map().contains_key(
                (#[trigger] self.spec_infos()[i]).1,
            ) && self.spec_key_map()[self.spec_infos()[i].1] == i
        &&& forall|k: u32|
            self.spec_key_map().contains_key(k) ==> (#[trigger] self.spec_key_map()[k])
                < self.spec_infos().len() && self.spec_infos()[self.spec_key_map()[k] as int].1
                == k
    }

    pub fn new() -> (r: Self)
        ensures
            r.wf(),
            r.spec_len() == 0,
            r.spec_key_map() == Map::<u32, usize>::empty(),
    {
        EntityRegistry { key_to_index: HashMap::new(), index_to_info: Vec::new() }
    }

    pub fn len(&self) -> (r: usize)
        ensures
            r == self.spec_len(),
    {
        self.index_to_info.len()
    }

    /// Whether `key` has already been registered.
    pub fn contains_key(&self, key: u32) -> (r: bool)
        ensures
            r == self.spec_key_map().contains_key(key),
    {
        self.key_to_index.contains_key(&key)
    }

    /// Register an entity under the next sequential index and return that
    /// index. Keys are never registered twice.
    pub fn register(&mut self, entity_type: EntityType, key: u32) -> (idx: usize)
        requires
            old(self).wf(),
            !old(self).spec_key_map().contains_key(key),
            old(self).spec_len() < usize::MAX,
        ensures
            final(self).wf(),
            idx == old(self).spec_len(),
            final(self).spec_infos() == old(self).spec_infos().push((entity_type, key)),
            final(self).spec_key_map() == old(self).spec_key_map().insert(key, idx),
    {
        let idx: usize = self.index_to_info.len();
        self.key_to_index.insert(key, idx);
        self.index_to_info.push((entity_type, key));
        idx
    }

    /// The index registered for `key`, if any.
    pub fn lookup_key(&self, key: u32) -> (r: Option<usize>)
        ensures
            (match r {
                Some(i) => self.spec_key_map().contains_key(key) && i == self.spec_key_map()[key],
                None => !self.spec_key_map().contains_key(key),
            }),
    {
        match self.key_to_index.get(&key) {
            Some(i) => Some(*i),
            None => None,
        }
    }

    /// The entity type and key registered under `index`, if any.
    pub fn lookup_index(&self, index: usize) -> (r: Option<(EntityType, u32)>)
        ensures
            (match r {
                Some(info) => index < self.spec_infos().len() && info == self.spec_infos()[index as int],
                None => index >= self.spec_infos().len(),
            }),
    {
        if index < self.index_to_info.len() {
            Some(self.index_to_info[index])
        } else {
            None
        }
    }
}

/// The registry law: after registering entities with distinct keys, the
/// index-to-info mapping has one entry per registration, every known key
/// maps to the one index whose entry carries it, and every index's entry
/// carries a key that maps back to that index.
pub proof fn lemma_registry_bijection(r: &EntityRegistry)
    requires
        r.wf(),
    ensures
        forall|i: int|
            0 <= i < r.spec_len() ==> r.spec_key_map().contains_key(
                (#[trigger] r.spec_infos()[i]).1,
            ) && r.spec_key_map()[r.spec_infos()[i].1] == i,
        forall|k: u32|
            r.spec_key_map().contains_key(k) ==> (#[trigger] r.spec_key_map()[k]) < r.spec_len()
                && r.spec_infos()[r.spec_key_map()[k] as int].1 == k,
        forall|i: int, j: int|
            0 <= i < r.spec_len() && 0 <= j < r.spec_len() && i != j ==> (
            #[trigger] r.spec_infos()[i]).1 != (#[trigger] r.spec_infos()[j]).1,
{
    assert forall|i: int, j: int|
        0 <= i < r.spec_len() && 0 <= j < r.spec_len() && i != j implies (
    #[trigger] r.spec_infos()[i]).1 != (#[trigger] r.spec_infos()[j]).1 by {
        if r.spec_infos()[i].1 == r.spec_infos()[j].1 {
            assert(r.spec_key_map()[r.spec_infos()[i].1] == i);
            assert(r.spec_key_map()[r.spec_infos()[j].1] == j);
        }
    }
}

} // verus!
