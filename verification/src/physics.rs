//! Knockback bookkeeping: the per-collider knockback descriptor that the
//! move state machine refreshes whenever a move starts or chains, and the
//! one-shot decay timer attached to a struck entity.
//!
//! Knockback is an impulse-and-decay model: on a hit the caller adds one
//! velocity impulse of the descriptor's force and attaches a timer; when
//! the timer expires the caller applies a single damping step and the
//! timer is gone, so the decay can never re-trigger while pending.

use std::collections::HashMap;

use vstd::prelude::*;

use crate::constants::KB_DURATION_DEN;
use crate::constants::KB_DURATION_NUM;

verus! {

broadcast use vstd::std_specs::hash::group_hash_axioms;

/// Knockback parameters recorded on a weapon's hit collider; mirrors the
/// active move's knockback attributes.
#[derive(Clone, Copy, Debug, PartialEq, Eq, Structural)]
pub struct WeaponKnockback {
    /// Impulse magnitude added to a struck target's velocity.
    pub force: u32,
    /// How long the decay timer attached to the target runs, in
    /// milliseconds.
    pub duration: u64,
}

impl WeaponKnockback {
    /// Build a descriptor from explicit parameters.
    pub fn new(force: u32, duration: u64) -> (r: WeaponKnockback)
        ensures
            r == (WeaponKnockback { force, duration }),
    {
        WeaponKnockback { force, duration }
    }
}

/// Decay duration that a move's knockback force maps to, in milliseconds.
pub open spec fn spec_kb_duration(force: u32) -> int {
    force * KB_DURATION_NUM / (KB_DURATION_DEN as int)
}

/// Compute the decay duration for a knockback force.
pub fn kb_duration(force: u32) -> (r: u64)
    ensures
        r == spec_kb_duration(force),
{
    force as u64 * KB_DURATION_NUM / KB_DURATION_DEN
}

/// Effect of refreshing the descriptor on `collider` to `force`: a
/// tracked collider gets the force and its derived decay duration; an
/// untracked one is left alone.
pub open spec fn spec_refresh(
    m: Map<u64, WeaponKnockback>,
    collider: u64,
    force: u32,
) -> Map<u64, WeaponKnockback> {
    if m.contains_key(collider) {
        m.insert(collider, WeaponKnockback { force, duration: spec_kb_duration(force) as u64 })
    } else {
        m
    }
}

/// The world's knockback descriptors, keyed by hit-collider entity.
/// A descriptor is installed once at character assembly and refreshed in
/// place whenever a move starts or chains on the owning weapon.
pub struct KnockbackStore {
    descriptors: HashMap<u64, WeaponKnockback>,
}

impl KnockbackStore {
    /// The descriptor each tracked collider currently carries.
    pub closed spec fn view_map(self) -> Map<u64, WeaponKnockback> {
        self.descriptors@
    }

    /// An empty store, before any character is assembled.
    pub fn new() -> (r: KnockbackStore)
        ensures
            r.view_map() == Map::<u64, WeaponKnockback>::empty(),
    {
        KnockbackStore { descriptors: HashMap::new() }
    }

    /// Install a descriptor on `collider` at assembly time.
    pub fn install(&mut self, collider: u64, kb: WeaponKnockback)
        ensures
            final(self).view_map() == old(self).view_map().insert(collider, kb),
    {
        self.descriptors.insert(collider, kb);
    }

    /// The descriptor currently on `collider`, if one is installed.
    pub fn get(&self, collider: u64) -> (r: Option<WeaponKnockback>)
        ensures
            r == if self.view_map().contains_key(collider) {
                Some(self.view_map()[collider])
            } else {
                Option::<WeaponKnockback>::None
            },
    {
        match self.descriptors.get(&collider) {
            Some(kb) => Some(*kb),
            None => None,
        }
    }

    /// Refresh the descriptor on `collider` to a move's knockback force
    /// and the matching decay duration. A collider without an installed
    /// descriptor is left untouched: the miss degrades to a no-op.
    pub fn refresh(&mut self, collider: u64, force: u32)
        ensures
            final(self).view_map() == spec_refresh(old(self).view_map(), collider, force),
    {
        if self.descriptors.contains_key(&collider) {
            let duration = kb_duration(force);
            self.descriptors.insert(collider, WeaponKnockback { force, duration });
        }
    }
}

/// The transient decay timer attached to a struck entity while its
/// knockback is pending.
#[derive(Clone, Copy, Debug, PartialEq, Eq, Structural)]
pub struct KnockbackTimer {
    /// Time left until the one-shot damping step, in milliseconds.
    pub remaining: u64,
}

impl KnockbackTimer {
    /// Start a timer that expires after `duration` milliseconds.
    pub fn new(duration: u64) -> (r: KnockbackTimer)
        ensures
            r.remaining == duration,
    {
        KnockbackTimer { remaining: duration }
    }
}

/// Advance a struck entity's decay timer by `dt` milliseconds. Returns
/// whether the single damping step falls due now; when it does, the timer
/// slot is cleared, so the step cannot fire again. An empty slot stays
/// empty and never signals damping.
pub fn update_knockback_timer(slot: &mut Option<KnockbackTimer>, dt: u64) -> (damp: bool)
    ensures
        *old(slot) is None ==> *final(slot) is None && !damp,
        *old(slot) matches Some(t) ==> *final(slot) == (if dt < t.remaining {
            Some(KnockbackTimer { remaining: (t.remaining - dt) as u64 })
        } else {
            Option::<KnockbackTimer>::None
        }),
        *old(slot) matches Some(t) ==> damp == (dt >= t.remaining),
{
    match slot {
        Some(t) => {
            if dt >= t.remaining {
                *slot = None;
                true
            } else {
                t.remaining = t.remaining - dt;
                false
            }
        },
        None => false,
    }
}

} // verus!
