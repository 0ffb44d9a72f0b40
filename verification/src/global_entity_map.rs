//! The cross-reference map: process-wide lookup tables binding an actor
//! entity to its weapon, its hit collider and its visual-trail anchor,
//! plus a per-entity position snapshot refreshed once per tick.
//!
//! Entries are inserted at character-assembly time and never removed
//! during normal play; simulation code treats the map as read-mostly.
//! A missing entry is an expected outcome — lookups return `Option` and
//! callers degrade to a no-op for that actor this tick.

use std::collections::HashMap;

use vstd::prelude::*;

use crate::constants::COORD_BOUND;

verus! {

broadcast use vstd::std_specs::hash::group_hash_axioms;

/// A world position snapshot in integer position units.
#[derive(Clone, Copy, Debug, PartialEq, Eq, Structural)]
pub struct Position {
    pub x: i64,
    pub y: i64,
}

impl Position {
    /// Coordinates small enough that any squared distance fits in `u64`.
    pub open spec fn wf(self) -> bool {
        &&& -COORD_BOUND <= self.x <= COORD_BOUND
        &&& -COORD_BOUND <= self.y <= COORD_BOUND
    }
}

/// Squared Euclidean distance between two positions. Comparing squared
/// distances against squared radii keeps every range rule exact.
pub open spec fn spec_dist_sq(a: Position, b: Position) -> int {
    (a.x - b.x) * (a.x - b.x) + (a.y - b.y) * (a.y - b.y)
}

/// Compute the squared distance between two bounded positions.
pub fn dist_sq(a: Position, b: Position) -> (r: u64)
    requires
        a.wf(),
        b.wf(),
    ensures
        r == spec_dist_sq(a, b),
{
    let dx: i64 = a.x - b.x;
    let dy: i64 = a.y - b.y;
    proof {
        let b2 = 2 * COORD_BOUND as int;
        assert(dx * dx <= b2 * b2 && dx * dx >= 0) by (nonlinear_arith)
            requires
                -b2 <= dx <= b2,
        ;
        assert(dy * dy <= b2 * b2 && dy * dy >= 0) by (nonlinear_arith)
            requires
                -b2 <= dy <= b2,
        ;
    }
    (dx * dx) as u64 + (dy * dy) as u64
}

/// The shared entity cross-reference tables.
pub struct GlobalEntityMap {
    /// Actor entity to the hit-collider entity of its weapon.
    pub player_to_collider: HashMap<u64, u64>,
    /// Actor entity to its sword-trail anchor entity.
    pub player_sword_trail: HashMap<u64, u64>,
    /// Weapon entity to its hit-collider entity.
    pub weapon_collider: HashMap<u64, u64>,
    /// Actor entity to its weapon entity.
    pub player_weapon: HashMap<u64, u64>,
    /// Weapon entity back to its owning actor entity.
    pub weapon_player: HashMap<u64, u64>,
    /// Position snapshot of every tracked entity, refreshed once per tick.
    pub entity_transform: HashMap<u64, Position>,
}

impl GlobalEntityMap {
    /// The actor that owns `weapon`, as the lookup tables record it.
    pub open spec fn spec_actor_of(self, weapon: u64) -> Option<u64> {
        if self.weapon_player@.contains_key(weapon) {
            Some(self.weapon_player@[weapon])
        } else {
            None
        }
    }

    /// The hit collider of `weapon`, as the lookup tables record it.
    pub open spec fn spec_collider_of(self, weapon: u64) -> Option<u64> {
        if self.weapon_collider@.contains_key(weapon) {
            Some(self.weapon_collider@[weapon])
        } else {
            None
        }
    }

    /// An empty map, before any character is assembled.
    pub fn new() -> (r: GlobalEntityMap)
        ensures
            r.player_to_collider@ == Map::<u64, u64>::empty(),
            r.player_sword_trail@ == Map::<u64, u64>::empty(),
            r.weapon_collider@ == Map::<u64, u64>::empty(),
            r.player_weapon@ == Map::<u64, u64>::empty(),
            r.weapon_player@ == Map::<u64, u64>::empty(),
            r.entity_transform@ == Map::<u64, Position>::empty(),
    {
        GlobalEntityMap {
            player_to_collider: HashMap::new(),
            player_sword_trail: HashMap::new(),
            weapon_collider: HashMap::new(),
            player_weapon: HashMap::new(),
            weapon_player: HashMap::new(),
            entity_transform: HashMap::new(),
        }
    }

    /// Record, at assembly time, that `weapon` belongs to `actor`,
    /// in both directions.
    pub fn bind_weapon(&mut self, actor: u64, weapon: u64)
        ensures
            final(self).player_weapon@ == old(self).player_weapon@.insert(actor, weapon),
            final(self).weapon_player@ == old(self).weapon_player@.insert(weapon, actor),
            final(self).player_to_collider@ == old(self).player_to_collider@,
            final(self).player_sword_trail@ == old(self).player_sword_trail@,
            final(self).weapon_collider@ == old(self).weapon_collider@,
            final(self).entity_transform@ == old(self).entity_transform@,
    {
        self.player_weapon.insert(actor, weapon);
        self.weapon_player.insert(weapon, actor);
    }

    /// Record, at assembly time, the hit collider of `weapon`, and the
    /// shortcut from the owning `actor` straight to that collider.
    pub fn bind_collider(&mut self, actor: u64, weapon: u64, collider: u64)
        ensures
            final(self).weapon_collider@ == old(self).weapon_collider@.insert(weapon, collider),
            final(self).player_to_collider@ == old(self).player_to_collider@.insert(
                actor,
                collider,
            ),
            final(self).player_weapon@ == old(self).player_weapon@,
            final(self).weapon_player@ == old(self).weapon_player@,
            final(self).player_sword_trail@ == old(self).player_sword_trail@,
            final(self).entity_transform@ == old(self).entity_transform@,
    {
        self.weapon_collider.insert(weapon, collider);
        self.player_to_collider.insert(actor, collider);
    }

    /// Record, at assembly time, the visual-trail anchor of `actor`.
    pub fn bind_trail(&mut self, actor: u64, trail: u64)
        ensures
            final(self).player_sword_trail@ == old(self).player_sword_trail@.insert(actor, trail),
            final(self).player_weapon@ == old(self).player_weapon@,
            final(self).weapon_player@ == old(self).weapon_player@,
            final(self).player_to_collider@ == old(self).player_to_collider@,
            final(self).weapon_collider@ == old(self).weapon_collider@,
            final(self).entity_transform@ == old(self).entity_transform@,
    {
        self.player_sword_trail.insert(actor, trail);
    }

    /// Refresh the cached position snapshot of one entity; the
    /// once-per-tick collaborator calls this for every tracked entity.
    pub fn set_transform(&mut self, entity: u64, pos: Position)
        ensures
            final(self).entity_transform@ == old(self).entity_transform@.insert(entity, pos),
            final(self).player_weapon@ == old(self).player_weapon@,
            final(self).weapon_player@ == old(self).weapon_player@,
            final(self).player_to_collider@ == old(self).player_to_collider@,
            final(self).weapon_collider@ == old(self).weapon_collider@,
            final(self).player_sword_trail@ == old(self).player_sword_trail@,
    {
        self.entity_transform.insert(entity, pos);
    }

    /// The weapon wielded by `actor`, if one was assembled.
    pub fn get_weapon(&self, actor: u64) -> (r: Option<u64>)
        ensures
            r == if self.player_weapon@.contains_key(actor) {
                Some(self.player_weapon@[actor])
            } else {
                Option::<u64>::None
            },
    {
        match self.player_weapon.get(&actor) {
            Some(w) => Some(*w),
            None => None,
        }
    }

    /// The actor owning `weapon`, if the pair was assembled.
    pub fn get_actor(&self, weapon: u64) -> (r: Option<u64>)
        ensures
            r == self.spec_actor_of(weapon),
    {
        match self.weapon_player.get(&weapon) {
            Some(a) => Some(*a),
            None => None,
        }
    }

    /// The hit collider of `weapon`, if one was assembled.
    pub fn get_collider(&self, weapon: u64) -> (r: Option<u64>)
        ensures
            r == self.spec_collider_of(weapon),
    {
        match self.weapon_collider.get(&weapon) {
            Some(c) => Some(*c),
            None => None,
        }
    }

    /// The hit collider reached straight from the owning `actor`.
    pub fn get_actor_collider(&self, actor: u64) -> (r: Option<u64>)
        ensures
            r == if self.player_to_collider@.contains_key(actor) {
                Some(self.player_to_collider@[actor])
            } else {
                Option::<u64>::None
            },
    {
        match self.player_to_collider.get(&actor) {
            Some(c) => Some(*c),
            None => None,
        }
    }

    /// The visual-trail anchor of `actor`, if one was assembled.
    pub fn get_trail(&self, actor: u64) -> (r: Option<u64>)
        ensures
            r == if self.player_sword_trail@.contains_key(actor) {
                Some(self.player_sword_trail@[actor])
            } else {
                Option::<u64>::None
            },
    {
        match self.player_sword_trail.get(&actor) {
            Some(t) => Some(*t),
            None => None,
        }
    }

    /// The cached position snapshot of `entity`, if it is tracked.
    pub fn get_transform(&self, entity: u64) -> (r: Option<Position>)
        ensures
            r == if self.entity_transform@.contains_key(entity) {
                Some(self.entity_transform@[entity])
            } else {
                Option::<Position>::None
            },
    {
        match self.entity_transform.get(&entity) {
            Some(p) => Some(*p),
            None => None,
        }
    }
}

} // verus!
