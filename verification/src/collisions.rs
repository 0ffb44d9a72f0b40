//! Collision-time combat rules: what happens when two damage-bearing
//! colliders clash, and how a hit lands on a living target.
//!
//! The geometric detection itself and the velocity impulse are the
//! physics collaborator's job; this module owns the decisions.

use vstd::prelude::*;

use crate::custom_move::ExecuteMoveEvent;
use crate::custom_move::MoveInput;
use crate::custom_move::MoveName;
use crate::custom_move::MoveType;
use crate::damage::Damage;
use crate::unit::HpChangeEvent;
use crate::unit::Unit;

verus! {

/// Which of the two clashing combatants counters with a reflect.
#[derive(Clone, Copy, Debug, PartialEq, Eq, Structural)]
pub enum ReflectSide {
    First,
    Second,
}

/// Rule for a clash of two damage-bearing colliders: a stab counters a
/// swing, so the stab's performer triggers the reflect move; any other
/// pairing has no special interaction.
pub fn handle_move_interaction(first: MoveType, second: MoveType) -> (r: Option<ReflectSide>)
    ensures
        first == MoveType::Swing && second == MoveType::Stub ==> r == Some(ReflectSide::Second),
        first == MoveType::Stub && second == MoveType::Swing ==> r == Some(ReflectSide::First),
        !(first == MoveType::Swing && second == MoveType::Stub) && !(first == MoveType::Stub
            && second == MoveType::Swing) ==> r is None,
{
    match (first, second) {
        (MoveType::Swing, MoveType::Stub) => Some(ReflectSide::Second),
        (MoveType::Stub, MoveType::Swing) => Some(ReflectSide::First),
        _ => None,
    }
}

/// The execution request a reflecting combatant issues for its weapon:
/// the reflect move, as a forced interrupt so it cannot be
/// out-prioritized.
pub fn reflect_request(weapon: u64) -> (r: ExecuteMoveEvent)
    ensures
        r == (ExecuteMoveEvent {
            entity: weapon,
            move_name: MoveName::Reflect,
            move_input: MoveInput::Interrupt,
        }),
{
    ExecuteMoveEvent {
        entity: weapon,
        move_name: MoveName::Reflect,
        move_input: MoveInput::Interrupt,
    }
}

/// Land a hit: apply the collider's damage amount to the struck unit,
/// saturating at zero, and report the change for the event consumers.
pub fn process_hit(target: &mut Unit, damage: &Damage, target_entity: u64) -> (ev: HpChangeEvent)
    ensures
        final(target).hp == if damage.amount >= old(target).hp {
            0u32
        } else {
            (old(target).hp - damage.amount) as u32
        },
        final(target).max_hp == old(target).max_hp,
        final(target).speed == old(target).speed,
        final(target).unit_type == old(target).unit_type,
        final(target).name == old(target).name,
        ev.entity == target_entity && ev.source == damage.source,
        ev.old_hp == old(target).hp && ev.new_hp == final(target).hp,
{
    target.damage(damage.amount, target_entity, damage.source)
}

} // verus!
