//! The table behind the pool: a `hashbrown::HashMap` keyed by pattern text.
//!
//! The table is opaque to the verifier. Its contents are named by
//! `registry_entries`, and each method states what the `hashbrown` call in its
//! body does to them.

use crate::matcher::CompiledMatcher;
use std::sync::Arc;
use vstd::prelude::*;

verus! {

/// What is stored for one pattern text: the pool's own reference to the
/// compiled matcher, and the number of handles given out for it.
pub type Slot = (Arc<CompiledMatcher>, usize);

/// A `hashbrown::HashMap` from pattern text to slot.
#[verifier::external_body]
pub struct Registry {
    map: hashbrown::HashMap<String, Slot>,
}

/// What a registry holds, by pattern text.
pub uninterp spec fn registry_entries(registry: Registry) -> Map<Seq<char>, Slot>;

/// The contents of a registry that holds nothing.
pub open spec fn no_entries() -> Map<Seq<char>, Slot> {
    Map::empty()
}

impl Registry {
    /// Calls `hashbrown::HashMap::new`, which creates an empty map.
    #[verifier::external_body]
    pub(crate) fn new() -> (registry: Registry)
        ensures
            registry_entries(registry) == no_entries(),
    {
        Registry { map: hashbrown::HashMap::new() }
    }

    /// Calls `hashbrown::HashMap::len`, the number of keys.
    #[verifier::external_body]
    pub(crate) fn len(&self) -> (count: usize)
        ensures
            count == registry_entries(*self).dom().len(),
    {
        self.map.len()
    }

    /// Calls `hashbrown::HashMap::get`: the slot stored under `key`, if any.
    #[verifier::external_body]
    pub(crate) fn get(&self, key: &str) -> (found: Option<&Slot>)
        ensures
            match found {
                Some(slot) => registry_entries(*self).contains_key(key@) && *slot
                    == registry_entries(*self)[key@],
                None => !registry_entries(*self).contains_key(key@),
            },
    {
        self.map.get(key)
    }

    /// Calls `hashbrown::HashMap::insert`: stores `slot` under `key`, in place
    /// of what was stored there, which is returned.
    #[verifier::external_body]
    pub(crate) fn insert(&mut self, key: String, slot: Slot) -> (previous: Option<Slot>)
        ensures
            registry_entries(*final(self)) == registry_entries(*old(self)).insert(key@, slot),
            previous == registry_entries(*old(self)).get(key@),
    {
        self.map.insert(key, slot)
    }

    /// Calls `hashbrown::HashMap::remove`: takes out what is stored under
    /// `key`, if anything, and returns it.
    #[verifier::external_body]
    pub(crate) fn remove(&mut self, key: &str) -> (removed: Option<Slot>)
        ensures
            registry_entries(*final(self)) == registry_entries(*old(self)).remove(key@),
            removed == registry_entries(*old(self)).get(key@),
    {
        self.map.remove(key)
    }
}

} // verus!
