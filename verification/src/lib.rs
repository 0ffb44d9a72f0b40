//! Combat resolution core of a top-down action game.
//!
//! The crate models the timing-sensitive heart of per-actor combat:
//! a move (ability) state machine with startup/active/recovery phases,
//! chaining and forced interrupts; the move definition catalog; the AI
//! targeting and decision loop; the cross-entity lookup map binding an
//! actor to its weapon, hit collider and visual trail; and the knockback
//! impulse-and-decay bookkeeping.
//!
//! All quantities are plain integers: durations are milliseconds, world
//! coordinates are integer position units, and range checks compare
//! squared distances, which keeps every rule exact. Everything that needs
//! a rendering or physics engine (meshes, rigid bodies, float vector
//! math, keyboard input) lives outside this crate; callers hand in plain
//! values and apply the returned events and outcomes in a fixed order
//! once per simulation tick.

pub mod ai;
pub mod berserker;
pub mod collisions;
pub mod constants;
pub mod custom_move;
pub mod damage;
pub mod global_entity_map;
pub mod global_weapon_collider;
pub mod input_move_map;
pub mod move_components;
pub mod move_database;
pub mod movement;
pub mod physics;
pub mod stun;
pub mod unit;
