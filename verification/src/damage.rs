//! The damage descriptor attached to a hit collider: amount, category
//! and the entity that caused it. Read at collision time; the core only
//! scales it for critical hits.

use vstd::prelude::*;

verus! {

/// Categories of damage a collider can deal.
#[derive(Clone, Copy, Debug, PartialEq, Eq, Structural)]
pub enum DamageType {
    Physical,
    Magical,
    Fire,
    Ice,
    Lightning,
    Poison,
    Holy,
    Dark,
}

impl DamageType {
    /// Display name of the damage category.
    pub fn name(&self) -> (r: &'static str)
        ensures
            self == DamageType::Physical ==> r@ == "Physical"@,
            self == DamageType::Magical ==> r@ == "Magical"@,
            self == DamageType::Fire ==> r@ == "Fire"@,
            self == DamageType::Ice ==> r@ == "Ice"@,
            self == DamageType::Lightning ==> r@ == "Lightning"@,
            self == DamageType::Poison ==> r@ == "Poison"@,
            self == DamageType::Holy ==> r@ == "Holy"@,
            self == DamageType::Dark ==> r@ == "Dark"@,
    {
        match self {
            DamageType::Physical => "Physical",
            DamageType::Magical => "Magical",
            DamageType::Fire => "Fire",
            DamageType::Ice => "Ice",
            DamageType::Lightning => "Lightning",
            DamageType::Poison => "Poison",
            DamageType::Holy => "Holy",
            DamageType::Dark => "Dark",
        }
    }
}

/// A damage-dealing descriptor: how much, of what kind, and who dealt
/// it.
#[derive(Clone, Copy, Debug, PartialEq, Eq, Structural)]
pub struct Damage {
    pub amount: u32,
    pub damage_type: DamageType,
    /// The actor responsible for this damage.
    pub source: u64,
}

impl Damage {
    /// Build a descriptor with the given amount, kind and source.
    pub fn new(amount: u32, damage_type: DamageType, source: u64) -> (r: Damage)
        ensures
            r == (Damage { amount, damage_type, source }),
    {
        Damage { amount, damage_type, source }
    }

    /// Build a physical-damage descriptor.
    pub fn physical(amount: u32, entity: u64) -> (r: Damage)
        ensures
            r == (Damage { amount, damage_type: DamageType::Physical, source: entity }),
    {
        Damage::new(amount, DamageType::Physical, entity)
    }

    /// The damage amount.
    pub fn get_amount(&self) -> (r: u32)
        ensures
            r == self.amount,
    {
        self.amount
    }

    /// Overwrite the damage amount.
    pub fn set_amount(&mut self, amount: u32)
        ensures
            final(self).amount == amount,
            final(self).damage_type == old(self).damage_type,
            final(self).source == old(self).source,
    {
        self.amount = amount;
    }

    /// The damage category.
    pub fn get_type(&self) -> (r: DamageType)
        ensures
            r == self.damage_type,
    {
        self.damage_type
    }

    /// Scale the amount by `factor_percent` percent, rounding down —
    /// critical hits, weaknesses and the like.
    pub fn multiply(&mut self, factor_percent: u32)
        requires
            old(self).amount * factor_percent <= u32::MAX * 100,
        ensures
            final(self).amount == old(self).amount * factor_percent / 100,
            final(self).damage_type == old(self).damage_type,
            final(self).source == old(self).source,
    {
        let scaled: u64 = self.amount as u64 * factor_percent as u64 / 100;
        proof {
            let a = old(self).amount as int;
            let f = factor_percent as int;
            assert(a * f / 100 <= u32::MAX) by (nonlinear_arith)
                requires
                    0 <= a * f <= u32::MAX * 100,
            ;
        }
        self.amount = scaled as u32;
    }
}

} // verus!
