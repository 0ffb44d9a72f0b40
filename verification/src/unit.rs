//! Combatant hit-point bookkeeping: the `Unit` component, its builder,
//! and the change events the rest of the pipeline consumes.
//!
//! Hit points are whole integer points. Damage saturates at zero, heals
//! cap at the maximum, and every mutation reports an event describing
//! the old and new values.

use vstd::prelude::*;

use crate::berserker::BerserkerHealEvent;
use crate::constants::DEFAULT_MAX_HP;
use crate::constants::DEFAULT_SPEED;

verus! {

/// The archetype a combatant was spawned as.
#[derive(Clone, Copy, Debug, PartialEq, Eq, Hash, Structural)]
pub enum UnitType {
    Hero,
    SwordMan,
    Dummy,
}

/// A living combatant.
#[derive(Clone, Debug)]
pub struct Unit {
    pub name: String,
    pub unit_type: UnitType,
    /// Current hit points; zero means dead.
    pub hp: u32,
    pub max_hp: u32,
    /// Base locomotion speed in position units per second.
    pub speed: u32,
}

/// What kind of hit-point change an event reports.
#[derive(Clone, Copy, Debug, PartialEq, Eq, Structural)]
pub enum HpChangeType {
    Damage,
    Heal,
    SetValue,
}

/// Notification of one hit-point change, consumed by lifesteal, death
/// handling and the health-bar collaborators.
#[derive(Clone, Copy, Debug, PartialEq, Eq, Structural)]
pub struct HpChangeEvent {
    /// The unit whose hit points changed.
    pub entity: u64,
    /// The entity that caused the change.
    pub source: u64,
    pub old_hp: u32,
    pub new_hp: u32,
    pub max_hp: u32,
    pub change_type: HpChangeType,
}

impl Unit {
    /// Start building a unit from the defaults.
    pub fn builder() -> (r: UnitBuilder)
        ensures
            r.hp == DEFAULT_MAX_HP,
            r.max_hp == DEFAULT_MAX_HP,
            r.speed == DEFAULT_SPEED,
            r.unit_type == UnitType::Dummy,
    {
        UnitBuilder::default()
    }

    /// A unit with no hit points left is dead.
    pub fn is_dead(&self) -> (r: bool)
        ensures
            r == (self.hp == 0),
    {
        self.hp == 0
    }

    /// Take `amount` damage from `source`, saturating at zero, and
    /// report the change.
    pub fn damage(&mut self, amount: u32, entity: u64, source: u64) -> (ev: HpChangeEvent)
        ensures
            final(self).hp == if amount >= old(self).hp {
                0u32
            } else {
                (old(self).hp - amount) as u32
            },
            final(self).max_hp == old(self).max_hp,
            final(self).speed == old(self).speed,
            final(self).unit_type == old(self).unit_type,
            final(self).name == old(self).name,
            ev == (HpChangeEvent {
                entity,
                source,
                old_hp: old(self).hp,
                new_hp: final(self).hp,
                max_hp: old(self).max_hp,
                change_type: HpChangeType::Damage,
            }),
    {
        let old_hp = self.hp;
        self.hp = if amount >= self.hp {
            0
        } else {
            self.hp - amount
        };
        HpChangeEvent {
            entity,
            source,
            old_hp,
            new_hp: self.hp,
            max_hp: self.max_hp,
            change_type: HpChangeType::Damage,
        }
    }

    /// Heal `amount` points, capped at the maximum, and report the
    /// change.
    pub fn heal(&mut self, amount: u32, entity: u64, source: u64) -> (ev: HpChangeEvent)
        ensures
            final(self).hp == if old(self).hp + amount >= old(self).max_hp {
                old(self).max_hp
            } else {
                (old(self).hp + amount) as u32
            },
            final(self).max_hp == old(self).max_hp,
            final(self).speed == old(self).speed,
            final(self).unit_type == old(self).unit_type,
            final(self).name == old(self).name,
            ev == (HpChangeEvent {
                entity,
                source,
                old_hp: old(self).hp,
                new_hp: final(self).hp,
                max_hp: old(self).max_hp,
                change_type: HpChangeType::Heal,
            }),
    {
        let old_hp = self.hp;
        self.hp = if self.hp as u64 + amount as u64 >= self.max_hp as u64 {
            self.max_hp
        } else {
            self.hp + amount
        };
        HpChangeEvent {
            entity,
            source,
            old_hp,
            new_hp: self.hp,
            max_hp: self.max_hp,
            change_type: HpChangeType::Heal,
        }
    }

    /// Heal from lifesteal, capped at the maximum, reporting the change
    /// on the berserker's own event stream.
    pub fn berserker_heal(&mut self, amount: u32, entity: u64, source: u64) -> (ev:
        BerserkerHealEvent)
        ensures
            final(self).hp == if old(self).hp + amount >= old(self).max_hp {
                old(self).max_hp
            } else {
                (old(self).hp + amount) as u32
            },
            final(self).max_hp == old(self).max_hp,
            final(self).speed == old(self).speed,
            final(self).unit_type == old(self).unit_type,
            final(self).name == old(self).name,
            ev == (BerserkerHealEvent {
                entity,
                source,
                old_hp: old(self).hp,
                new_hp: final(self).hp,
                max_hp: old(self).max_hp,
            }),
    {
        let old_hp = self.hp;
        self.hp = if self.hp as u64 + amount as u64 >= self.max_hp as u64 {
            self.max_hp
        } else {
            self.hp + amount
        };
        BerserkerHealEvent {
            entity,
            source,
            old_hp,
            new_hp: self.hp,
            max_hp: self.max_hp,
        }
    }

    /// Overwrite the hit points, clamped to `[0, max_hp]`, and report
    /// the change, attributed to the unit itself.
    pub fn set_hp(&mut self, new_hp: u32, entity: u64) -> (ev: HpChangeEvent)
        ensures
            final(self).hp == if new_hp >= old(self).max_hp {
                old(self).max_hp
            } else {
                new_hp
            },
            final(self).max_hp == old(self).max_hp,
            final(self).speed == old(self).speed,
            final(self).unit_type == old(self).unit_type,
            final(self).name == old(self).name,
            ev == (HpChangeEvent {
                entity,
                source: entity,
                old_hp: old(self).hp,
                new_hp: final(self).hp,
                max_hp: old(self).max_hp,
                change_type: HpChangeType::SetValue,
            }),
    {
        let old_hp = self.hp;
        self.hp = if new_hp >= self.max_hp {
            self.max_hp
        } else {
            new_hp
        };
        HpChangeEvent {
            entity,
            source: entity,
            old_hp,
            new_hp: self.hp,
            max_hp: self.max_hp,
            change_type: HpChangeType::SetValue,
        }
    }

    /// Remaining hit points as a percentage of the maximum, rounded
    /// down.
    pub fn hp_percentage(&self) -> (r: u32)
        requires
            self.max_hp > 0,
            self.hp <= self.max_hp,
        ensures
            r == self.hp * 100 / (self.max_hp as int),
            r <= 100,
    {
        proof {
            let h = self.hp as int;
            let m = self.max_hp as int;
            assert(h * 100 <= m * 100) by (nonlinear_arith)
                requires
                    h <= m,
            ;
            assert(h * 100 / m <= 100) by (nonlinear_arith)
                requires
                    h * 100 <= m * 100 && m > 0,
            ;
        }
        ((self.hp as u64 * 100) / (self.max_hp as u64)) as u32
    }
}

/// Whether a hit-point change event means its unit just died and is to
/// be despawned.
pub fn handle_unit_death(event: &HpChangeEvent) -> (r: bool)
    ensures
        r == (event.new_hp == 0),
{
    event.new_hp == 0
}

/// Step-by-step construction of a `Unit` with sensible defaults.
#[derive(Clone, Debug)]
pub struct UnitBuilder {
    pub name: String,
    pub hp: u32,
    pub max_hp: u32,
    pub unit_type: UnitType,
    pub speed: u32,
}

impl Default for UnitBuilder {
    /// The default unit: an unnamed dummy at full default hit points.
    fn default() -> (r: UnitBuilder)
        ensures
            r.name@ == "Unnamed Unit"@,
            r.hp == DEFAULT_MAX_HP,
            r.max_hp == DEFAULT_MAX_HP,
            r.speed == DEFAULT_SPEED,
            r.unit_type == UnitType::Dummy,
    {
        UnitBuilder {
            name: "Unnamed Unit".to_string(),
            hp: DEFAULT_MAX_HP,
            max_hp: DEFAULT_MAX_HP,
            speed: DEFAULT_SPEED,
            unit_type: UnitType::Dummy,
        }
    }
}

impl UnitBuilder {
    /// Set the display name.
    pub fn name(self, name: String) -> (r: UnitBuilder)
        ensures
            r.name == name,
            r.hp == self.hp,
            r.max_hp == self.max_hp,
            r.unit_type == self.unit_type,
            r.speed == self.speed,
    {
        UnitBuilder { name, ..self }
    }

    /// Set the starting hit points.
    pub fn hp(self, hp: u32) -> (r: UnitBuilder)
        ensures
            r.hp == hp,
            r.name == self.name,
            r.max_hp == self.max_hp,
            r.unit_type == self.unit_type,
            r.speed == self.speed,
    {
        UnitBuilder { hp, ..self }
    }

    /// Set the archetype.
    #[allow(non_snake_case)]
    pub fn unitType(self, unit_type: UnitType) -> (r: UnitBuilder)
        ensures
            r.unit_type == unit_type,
            r.name == self.name,
            r.hp == self.hp,
            r.max_hp == self.max_hp,
            r.speed == self.speed,
    {
        UnitBuilder { unit_type, ..self }
    }

    /// Set the maximum hit points; starting hit points still at the
    /// default follow along.
    pub fn max_hp(self, max_hp: u32) -> (r: UnitBuilder)
        ensures
            r.max_hp == max_hp,
            r.hp == if self.hp == DEFAULT_MAX_HP {
                max_hp
            } else {
                self.hp
            },
            r.name == self.name,
            r.unit_type == self.unit_type,
            r.speed == self.speed,
    {
        let hp = if self.hp == DEFAULT_MAX_HP {
            max_hp
        } else {
            self.hp
        };
        UnitBuilder { hp, max_hp, ..self }
    }

    /// Finish: produce the unit.
    pub fn build(self) -> (r: Unit)
        ensures
            r.name == self.name,
            r.hp == self.hp,
            r.max_hp == self.max_hp,
            r.unit_type == self.unit_type,
            r.speed == self.speed,
    {
        Unit {
            name: self.name,
            hp: self.hp,
            max_hp: self.max_hp,
            speed: self.speed,
            unit_type: self.unit_type,
        }
    }
}

} // verus!
