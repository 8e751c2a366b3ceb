//! Amounts of energy named subsystem by subsystem.

use vstd::prelude::*;

use crate::system::System;

verus! {

/// A map from subsystems to amounts of energy. A subsystem either has an
/// entry or has none; entries are visited reactor first, then life support,
/// weapons and the shield generator.
#[derive(Debug, Clone, Copy, PartialEq, Eq)]
pub struct EnergyMap {
    pub fusion_reactor: Option<i32>,
    pub life_support: Option<i32>,
    pub weapons: Option<i32>,
    pub shield_generator: Option<i32>,
}

impl EnergyMap {
    /// The entry of `system`, if it has one.
    pub open spec fn entry(self, system: System) -> Option<i32> {
        match system {
            System::FusionReactor => self.fusion_reactor,
            System::LifeSupport => self.life_support,
            System::Weapons => self.weapons,
            System::ShieldGenerator => self.shield_generator,
        }
    }

    /// The amount named for `system`: 0 where it has no entry.
    pub open spec fn amount(self, system: System) -> int {
        match self.entry(system) {
            Some(energy) => energy as int,
            None => 0,
        }
    }

    /// The sum of all entries.
    pub open spec fn total(self) -> int {
        self.amount(System::FusionReactor) + self.amount(System::LifeSupport) + self.amount(
            System::Weapons,
        ) + self.amount(System::ShieldGenerator)
    }

    /// The map without entries.
    pub open spec fn empty() -> EnergyMap {
        EnergyMap { fusion_reactor: None, life_support: None, weapons: None, shield_generator: None }
    }

    /// The map with the entry of `system` set to `energy`.
    pub open spec fn with_entry(self, system: System, energy: i32) -> EnergyMap {
        match system {
            System::FusionReactor => EnergyMap { fusion_reactor: Some(energy), ..self },
            System::LifeSupport => EnergyMap { life_support: Some(energy), ..self },
            System::Weapons => EnergyMap { weapons: Some(energy), ..self },
            System::ShieldGenerator => EnergyMap { shield_generator: Some(energy), ..self },
        }
    }

    /// Returns the map without entries.
    pub fn new() -> (map: EnergyMap)
        ensures
            map == EnergyMap::empty(),
    {
        EnergyMap { fusion_reactor: None, life_support: None, weapons: None, shield_generator: None }
    }

    /// Sets the entry of `system` and returns the entry it had before.
    pub fn insert(&mut self, system: System, energy: i32) -> (previous: Option<i32>)
        ensures
            *final(self) == old(self).with_entry(system, energy),
            previous == old(self).entry(system),
    {
        let previous = self.get(system);
        match system {
            System::FusionReactor => {
                self.fusion_reactor = Some(energy);
            },
            System::LifeSupport => {
                self.life_support = Some(energy);
            },
            System::Weapons => {
                self.weapons = Some(energy);
            },
            System::ShieldGenerator => {
                self.shield_generator = Some(energy);
            },
        }
        previous
    }

    /// Returns the entry of `system`, if it has one.
    pub fn get(&self, system: System) -> (entry: Option<i32>)
        ensures
            entry == self.entry(system),
    {
        match system {
            System::FusionReactor => self.fusion_reactor,
            System::LifeSupport => self.life_support,
            System::Weapons => self.weapons,
            System::ShieldGenerator => self.shield_generator,
        }
    }

    /// Returns the amount named for `system`: 0 where it has no entry.
    pub fn amount_of(&self, system: System) -> (energy: i32)
        ensures
            energy == self.amount(system),
    {
        match self.get(system) {
            Some(energy) => energy,
            None => 0,
        }
    }

    /// Returns the sum of all entries.
    pub fn sum(&self) -> (total: i64)
        ensures
            total == self.total(),
    {
        let reactor = self.amount_of(System::FusionReactor) as i64;
        let life = self.amount_of(System::LifeSupport) as i64;
        let weapons = self.amount_of(System::Weapons) as i64;
        let shield = self.amount_of(System::ShieldGenerator) as i64;
        reactor + life + weapons + shield
    }
}

} // verus!
