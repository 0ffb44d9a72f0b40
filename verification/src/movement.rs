//! Locomotion decisions: the walking speed an actor moves at this tick,
//! and the sprint cooldown gate.
//!
//! Applying the resulting velocity and rotation is the physics
//! collaborator's job; this module owns the numbers.

use vstd::prelude::*;

use crate::constants::ATTACK_SPEED_DEN;
use crate::constants::ATTACK_SPEED_NUM;
use crate::constants::BERSERKER_MOVE_SPEED;
use crate::constants::PLAYER_SPEED;
use crate::constants::SPRINT_CD_MS;

verus! {

/// How a movement intent is to be carried out.
#[derive(Clone, Copy, Debug, PartialEq, Eq, Structural)]
pub enum MovementType {
    Walk,
    Sprint,
}

/// When the actor last sprinted, in milliseconds of elapsed game time.
#[derive(Clone, Copy, Debug, PartialEq, Eq, Structural)]
pub struct SprintCD(pub u64);

/// Whether the sprint-ready notice has already been shown for the
/// current cooldown window.
#[derive(Clone, Copy, Debug, PartialEq, Eq, Structural)]
pub struct SprintReadyLogged(pub bool);

/// Speeds handed in must stay below this bound so the berserker bonus
/// and slowdown arithmetic cannot overflow.
pub const SPEED_BOUND: u32 = 0x100_0000;

/// The walking speed of an actor this tick: the executing move's speed
/// override when its weapon carries one (the default speed otherwise),
/// plus the berserker bonus in the active stance, scaled down by the
/// attacking-slowdown factor while a move executes.
pub fn walk_speed(
    weapon_move_speed: Option<u32>,
    berserker_level: Option<i32>,
    is_attacking: bool,
) -> (r: u32)
    requires
        weapon_move_speed matches Some(s) ==> s <= SPEED_BOUND,
    ensures
        ({
            let base = match weapon_move_speed {
                Some(s) => s,
                Option::None => PLAYER_SPEED,
            };
            let boosted = if berserker_level == Some(1i32) {
                base + BERSERKER_MOVE_SPEED
            } else {
                base as int
            };
            r == if is_attacking {
                boosted * ATTACK_SPEED_NUM / (ATTACK_SPEED_DEN as int)
            } else {
                boosted
            }
        }),
{
    let base: u32 = match weapon_move_speed {
        Some(s) => s,
        None => PLAYER_SPEED,
    };
    let is_active_berserker = match berserker_level {
        Some(level) => level == 1,
        None => false,
    };
    let boosted: u32 = if is_active_berserker {
        base + BERSERKER_MOVE_SPEED
    } else {
        base
    };
    if is_attacking {
        proof {
            let b = boosted as int;
            let n = ATTACK_SPEED_NUM as int;
            assert(0 <= b * n <= 0xFFFF_FFFF * 0xFFFF_FFFF) by (nonlinear_arith)
                requires
                    0 <= b <= 0xFFFF_FFFF && 0 <= n <= 0xFFFF_FFFF,
            ;
        }
        (boosted as u64 * ATTACK_SPEED_NUM as u64 / ATTACK_SPEED_DEN as u64) as u32
    } else {
        boosted
    }
}

/// Whether the sprint cooldown has elapsed since the last sprint.
pub fn sprint_ready(now_ms: u64, last_sprint_ms: u64) -> (r: bool)
    requires
        now_ms >= last_sprint_ms,
    ensures
        r == (now_ms - last_sprint_ms >= SPRINT_CD_MS),
{
    now_ms - last_sprint_ms >= SPRINT_CD_MS
}

/// The sprint-ready notice gate: once the cooldown elapses, signal the
/// notice exactly once until the next sprint resets the window.
pub fn check_sprint_ready(ready_logged: bool, now_ms: u64, last_sprint_ms: u64) -> (r: (
    bool,
    bool,
))
    requires
        now_ms >= last_sprint_ms,
    ensures
        now_ms - last_sprint_ms >= SPRINT_CD_MS ==> r == (true, !ready_logged),
        now_ms - last_sprint_ms < SPRINT_CD_MS ==> r == (false, false),
{
    if sprint_ready(now_ms, last_sprint_ms) {
        (true, !ready_logged)
    } else {
        (false, false)
    }
}

} // verus!
