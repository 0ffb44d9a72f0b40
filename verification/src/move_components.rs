//! Consumers of the phase-change events: resolving which hit collider
//! and trail anchor to enable when a move becomes active, and to disable
//! when it enters recovery.
//!
//! These run, in order, after the move update and before the collision
//! pass, so a move can never land a hit before its collider is enabled.

use vstd::prelude::*;

use crate::custom_move::MoveActiveEvent;
use crate::custom_move::MoveRecoveryEvent;
use crate::global_entity_map::GlobalEntityMap;

verus! {

/// The entities to switch for one actor: its hit collider and its trail
/// anchor, either of which may be missing from the map.
#[derive(Clone, Copy, Debug, PartialEq, Eq, Structural)]
pub struct ColliderTrailTargets {
    pub collider: Option<u64>,
    pub trail: Option<u64>,
}

/// The map entries an actor's switch consults.
pub open spec fn spec_targets_of(em: GlobalEntityMap, actor: u64) -> ColliderTrailTargets {
    ColliderTrailTargets {
        collider: if em.player_to_collider@.contains_key(actor) {
            Some(em.player_to_collider@[actor])
        } else {
            None
        },
        trail: if em.player_sword_trail@.contains_key(actor) {
            Some(em.player_sword_trail@[actor])
        } else {
            None
        },
    }
}

/// Consume a move-active event: the returned collider is to be enabled
/// and the returned trail anchor to be made visible. A missing map entry
/// degrades to nothing for that part.
pub fn handle_start_move(event: &MoveActiveEvent, entity_map: &GlobalEntityMap) -> (r:
    ColliderTrailTargets)
    ensures
        r == spec_targets_of(*entity_map, event.actor),
{
    ColliderTrailTargets {
        collider: entity_map.get_actor_collider(event.actor),
        trail: entity_map.get_trail(event.actor),
    }
}

/// Consume a move-recovery event: the returned collider is to be
/// disabled and the returned trail anchor hidden.
pub fn handle_end_move(event: &MoveRecoveryEvent, entity_map: &GlobalEntityMap) -> (r:
    ColliderTrailTargets)
    ensures
        r == spec_targets_of(*entity_map, event.actor),
{
    ColliderTrailTargets {
        collider: entity_map.get_actor_collider(event.actor),
        trail: entity_map.get_trail(event.actor),
    }
}

} // verus!
