//! A dedicated map from actor entities to their weapon-collider
//! entities, for collaborators that only need that one binding.

use std::collections::HashMap;

use vstd::prelude::*;

verus! {

broadcast use vstd::std_specs::hash::group_hash_axioms;

/// Maps each actor entity to its weapon-collider entity.
pub struct WeaponColliderMap {
    player_to_collider: HashMap<u64, u64>,
}

impl WeaponColliderMap {
    /// The bindings the map currently holds.
    pub closed spec fn view_map(self) -> Map<u64, u64> {
        self.player_to_collider@
    }

    /// Create a new empty weapon collider map.
    pub fn new() -> (r: WeaponColliderMap)
        ensures
            r.view_map() == Map::<u64, u64>::empty(),
    {
        WeaponColliderMap { player_to_collider: HashMap::new() }
    }

    /// Insert a mapping from an actor entity to its collider entity.
    pub fn insert(&mut self, player_entity: u64, collider_entity: u64)
        ensures
            final(self).view_map() == old(self).view_map().insert(player_entity, collider_entity),
    {
        self.player_to_collider.insert(player_entity, collider_entity);
    }

    /// The collider entity bound to an actor entity, if any.
    pub fn get(&self, player_entity: u64) -> (r: Option<u64>)
        ensures
            r == if self.view_map().contains_key(player_entity) {
                Some(self.view_map()[player_entity])
            } else {
                Option::<u64>::None
            },
    {
        match self.player_to_collider.get(&player_entity) {
            Some(c) => Some(*c),
            None => None,
        }
    }

    /// Remove the mapping of an actor entity, returning what it was
    /// bound to.
    pub fn remove(&mut self, player_entity: u64) -> (r: Option<u64>)
        ensures
            final(self).view_map() == old(self).view_map().remove(player_entity),
            r == if old(self).view_map().contains_key(player_entity) {
                Some(old(self).view_map()[player_entity])
            } else {
                Option::<u64>::None
            },
    {
        self.player_to_collider.remove(&player_entity)
    }

    /// Whether an actor has a collider bound.
    pub fn contains(&self, player_entity: u64) -> (r: bool)
        ensures
            r == self.view_map().contains_key(player_entity),
    {
        self.player_to_collider.contains_key(&player_entity)
    }

    /// Drop every binding.
    pub fn clear(&mut self)
        ensures
            final(self).view_map() == Map::<u64, u64>::empty(),
    {
        self.player_to_collider.clear();
    }

    /// The number of bound actors.
    pub fn len(&self) -> (r: usize)
        ensures
            r == self.view_map().dom().len(),
    {
        self.player_to_collider.len()
    }

    /// Whether no actor is bound.
    pub fn is_empty(&self) -> (r: bool)
        ensures
            r == (self.view_map().dom().len() == 0),
    {
        self.player_to_collider.is_empty()
    }
}

} // verus!
