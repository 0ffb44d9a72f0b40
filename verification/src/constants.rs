//! Tuning constants of the combat core.
//!
//! Durations are in milliseconds, speeds in position units per second,
//! ranges in position units, critical rates in percent.

use vstd::prelude::*;

verus! {

/// Default locomotion speed of the player character.
pub const PLAYER_SPEED: u32 = 450;

/// Locomotion speed bonus while the berserker stance is active.
pub const BERSERKER_MOVE_SPEED: u32 = 150;

/// While a move is executing, walking speed is scaled by
/// `ATTACK_SPEED_NUM / ATTACK_SPEED_DEN`.
pub const ATTACK_SPEED_NUM: u32 = 4;

/// Denominator of the attacking-slowdown factor.
pub const ATTACK_SPEED_DEN: u32 = 5;

/// Active window of the standard swing animation, in milliseconds.
pub const ATTACK_ANIMATION_MS: u32 = 200;

/// Light knockback force.
pub const KNOCK_BACK_LITE: u32 = 300;

/// Heavy knockback force.
pub const KNOCK_BACK_HEAVY: u32 = 600;

/// Extreme knockback force.
pub const KNOCK_BACK_SUPER: u32 = 1200;

/// No knockback.
pub const KNOCK_BACK_NONE: u32 = 0;

/// A knockback timer runs for
/// `force * KB_DURATION_NUM / KB_DURATION_DEN` milliseconds.
pub const KB_DURATION_NUM: u64 = 2250;

/// Denominator of the knockback duration factor.
pub const KB_DURATION_DEN: u64 = 800;

/// Default locomotion speed of a freshly built unit.
pub const DEFAULT_SPEED: u32 = 180;

/// Default hit points of a freshly built unit.
pub const DEFAULT_MAX_HP: u32 = 100;

/// Abstract action code: horizontal swing.
pub const ACTION_HENG: u32 = 1;

/// Abstract action code: stab.
pub const ACTION_ZHAN: u32 = 2;

/// Abstract action code: special attack.
pub const ACTION_SPECIAL: u32 = 3;

/// Abstract action code: dodge/space.
pub const ACTION_SPACE: u32 = 4;

/// Faction tag of the player side.
pub const FORCE_PLAYER: u32 = 0;

/// Faction tag of the enemy side.
pub const FORCE_ENEMY: u32 = 1;

/// Default target-acquisition radius.
pub const ALERT_RANGE: u32 = 1000;

/// Default disengage radius; must not be below `ALERT_RANGE`.
pub const DIS_ALERT_RANGE: u32 = 2000;

/// An AI actor holds position once closer to its target than this.
pub const STOP_CHASING_RANGE: u32 = 200;

/// Impulse magnitude of a sprint dash.
pub const SPRINT_IMPULSE_FORCE: u32 = 800;

/// Base critical-hit rate, in percent.
pub const BASE_CRITICAL_RATE: u32 = 20;

/// Critical-rate bonus of the follow-up swing, in percent.
pub const CRIT_A: u32 = 5;

/// Critical-rate bonus of the stab, in percent.
pub const CRIT_B: u32 = 10;

/// Sprint cooldown, in milliseconds.
pub const SPRINT_CD_MS: u64 = 2000;

/// Stun duration applied on a critical hit, in milliseconds.
pub const STUN_DURATION_MS: u64 = 1000;

/// Largest time delta one tick may carry, in milliseconds; keeps every
/// elapsed-time clock far from overflow.
pub const MAX_TICK_MS: u64 = 0x1_0000_0000_0000;

/// World coordinates handed to the core must fit in
/// `[-COORD_BOUND, COORD_BOUND]` so that squared distances fit in `u64`.
pub const COORD_BOUND: i64 = 0x4000_0000;

} // verus!
