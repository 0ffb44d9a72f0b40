//! The berserker stance: a toggled level that trades steady hit-point
//! drain for lifesteal and speed, driven by hit-point change events.

use vstd::prelude::*;

use crate::unit::HpChangeEvent;

verus! {

/// Berserker stance marker; level 0 is passive lifesteal, level 1 the
/// active sacrifice stance.
#[derive(Clone, Copy, Debug, PartialEq, Eq, Structural)]
pub struct Berserker {
    pub level: i32,
}

/// Notification of one lifesteal heal on the berserker's own stream.
#[derive(Clone, Copy, Debug, PartialEq, Eq, Structural)]
pub struct BerserkerHealEvent {
    pub entity: u64,
    pub source: u64,
    pub old_hp: u32,
    pub new_hp: u32,
    pub max_hp: u32,
}

/// A request to toggle the berserker stance of an actor.
#[derive(Clone, Copy, Debug, PartialEq, Eq, Structural)]
pub struct BerserkerActiveEvent {
    pub entity: u64,
}

impl Berserker {
    /// Toggle between the passive and active stance.
    pub fn toggle(&mut self)
        ensures
            final(self).level == if old(self).level == 0 {
                1int
            } else {
                0int
            },
    {
        self.level = if self.level == 0 {
            1
        } else {
            0
        };
    }
}

/// How much lifesteal a hit-point change earns its source: the damage
/// dealt, but only when the source is a passive-stance berserker other
/// than the victim and the change actually lowered hit points.
pub fn berserker_lifesteal(
    event: &HpChangeEvent,
    source_is_berserker: bool,
    source_level: i32,
) -> (r: Option<u32>)
    ensures
        r == if source_is_berserker && event.source != event.entity && event.old_hp > event.new_hp
            && source_level == 0 {
            Some((event.old_hp - event.new_hp) as u32)
        } else {
            Option::<u32>::None
        },
{
    if source_is_berserker && event.source != event.entity && event.old_hp > event.new_hp
        && source_level == 0 {
        Some(event.old_hp - event.new_hp)
    } else {
        None
    }
}

} // verus!
