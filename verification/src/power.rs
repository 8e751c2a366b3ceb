//! Energy: distributing it from the reactor, drawing it for an activation,
//! and moving single units.

use vstd::prelude::*;

use crate::energy::EnergyMap;
use crate::error::UserActionError;
use crate::player::PlayerState;
use crate::subsystem::holds_system;
use crate::system::System;

verus! {

impl PlayerState {
    /// Tells whether `distribution` puts energy on the overloaded
    /// subsystem `system`.
    pub fn is_blocked(&self, distribution: &EnergyMap, system: System) -> (blocked: bool)
        ensures
            blocked == self@.blocks(*distribution, system),
    {
        distribution.amount_of(system) > 0 && self.system_state(system).overloads > 0
    }

    /// Tells whether the reactor can be activated with `distribution`.
    pub fn can_distribute(&self, distribution: &Option<EnergyMap>) -> (result: Result<
        (),
        UserActionError,
    >)
        requires
            self@.fusion_reactor.countable(),
        ensures
            result == self@.distribution_verdict(*distribution),
    {
        match distribution {
            None => Err(UserActionError::MissingEnergyDistribution),
            Some(distribution) => {
                if distribution.sum() != self.fusion_reactor.get_allowed_energy() as i64 {
                    Err(UserActionError::InvalidEnergyDistribution)
                } else if self.is_blocked(distribution, System::FusionReactor) || self.is_blocked(
                    distribution,
                    System::LifeSupport,
                ) || self.is_blocked(distribution, System::Weapons) || self.is_blocked(
                    distribution,
                    System::ShieldGenerator,
                ) {
                    Err(UserActionError::CannotPutEnergyOnDisabledSystem)
                } else {
                    Ok(())
                }
            },
        }
    }

    /// Sets the energy of every subsystem that `distribution` has an entry
    /// for to that entry.
    pub fn distribute(&mut self, distribution: &EnergyMap)
        ensures
            final(self)@ == old(self)@.distributed(*distribution),
    {
        if let Some(energy) = distribution.fusion_reactor {
            self.fusion_reactor.energy = energy;
        }
        if let Some(energy) = distribution.life_support {
            self.life_support.energy = energy;
        }
        if let Some(energy) = distribution.weapons {
            self.weapons_system.energy = energy;
        }
        if let Some(energy) = distribution.shield_generator {
            self.shield_generator.energy = energy;
        }
    }

    /// Returns the sources of an activation of `system` as a map: the
    /// sources given, or, where none are given, the subsystem itself for
    /// all the energy that the activation uses.
    pub fn draw_plan(&self, system: System, energy_to_use: &Option<EnergyMap>) -> (plan: EnergyMap)
        requires
            self@.system(system).countable(),
        ensures
            forall|source: System|
                plan.entry(source) is Some <==> #[trigger] self@.names_source(
                    system,
                    *energy_to_use,
                    source,
                ),
            forall|source: System|
                plan.amount(source) == #[trigger] self@.drawn(system, *energy_to_use, source),
    {
        match energy_to_use {
            Some(sources) => *sources,
            None => {
                let mut plan = EnergyMap::new();
                plan.insert(system, self.system_state(system).get_energy_used());
                plan
            },
        }
    }

    /// Tells what is wrong with drawing from `source` for an activation of
    /// `system`, if anything.
    pub fn source_fault(
        &self,
        system: System,
        energy_to_use: &Option<EnergyMap>,
        source: System,
    ) -> (fault: Option<UserActionError>)
        requires
            self@.system(system).countable(),
        ensures
            fault == self@.draw_fault(system, *energy_to_use, source),
    {
        let plan = self.draw_plan(system, energy_to_use);
        match plan.get(source) {
            None => None,
            Some(amount) => {
                let allowed = self.system_state(system).get_allowed_systems_to_draw_energy_from();
                if amount != 0 && !holds_system(&allowed, source) {
                    Some(UserActionError::CannotDrawPowerFromSystem)
                } else if amount > self.system_state(source).energy {
                    Some(UserActionError::NotEnoughEnergyToActivate)
                } else {
                    None
                }
            },
        }
    }

    /// Tells whether `system`, which is not the reactor, can be activated
    /// with the sources `energy_to_use`.
    pub fn can_draw_power(&self, system: System, energy_to_use: &Option<EnergyMap>) -> (result:
        Result<(), UserActionError>)
        requires
            self@.system(system).countable(),
        ensures
            result == self@.draw_verdict(system, *energy_to_use),
    {
        let plan = self.draw_plan(system, energy_to_use);
        if plan.sum() != self.system_state(system).get_energy_used() as i64 {
            return Err(UserActionError::IncorrectAmountOfEnergyToUse);
        }
        if let Some(fault) = self.source_fault(system, energy_to_use, System::FusionReactor) {
            return Err(fault);
        }
        if let Some(fault) = self.source_fault(system, energy_to_use, System::LifeSupport) {
            return Err(fault);
        }
        if let Some(fault) = self.source_fault(system, energy_to_use, System::Weapons) {
            return Err(fault);
        }
        if let Some(fault) = self.source_fault(system, energy_to_use, System::ShieldGenerator) {
            return Err(fault);
        }
        Ok(())
    }

    /// Takes from every source but the reactor what an activation of
    /// `system` draws from it, and puts all of that on the reactor.
    pub fn draw_power(&mut self, system: System, energy_to_use: &Option<EnergyMap>)
        requires
            old(self)@.system(system).countable(),
            old(self)@.powered(system, *energy_to_use).representable(),
        ensures
            final(self)@ == old(self)@.powered(system, *energy_to_use),
    {
        let plan = self.draw_plan(system, energy_to_use);
        let life = plan.amount_of(System::LifeSupport) as i64;
        let weapons = plan.amount_of(System::Weapons) as i64;
        let shield = plan.amount_of(System::ShieldGenerator) as i64;
        self.fusion_reactor.energy = (self.fusion_reactor.energy as i64 + life + weapons
            + shield) as i32;
        self.life_support.energy = (self.life_support.energy as i64 - life) as i32;
        self.weapons_system.energy = (self.weapons_system.energy as i64 - weapons) as i32;
        self.shield_generator.energy = (self.shield_generator.energy as i64 - shield) as i32;
    }

    /// Tells whether one unit of energy can move from `from` to `to`.
    pub fn can_shift_energy(&self, from: System, to: System) -> (result: Result<
        (),
        UserActionError,
    >)
        requires
            self@.system(to).countable(),
        ensures
            result == self@.move_verdict(from, to),
    {
        if self.system_state(from).energy <= 0 {
            return Err(UserActionError::NoEnergyToMoveOnSystem);
        }
        let destination = self.system_state(to);
        if destination.overloads > 0 {
            return Err(UserActionError::CannotPutEnergyOnDisabledSystem);
        }
        let held = if from == to {
            destination.energy - 1
        } else {
            destination.energy
        };
        if held == destination.get_allowed_energy() {
            return Err(UserActionError::SystemAlreadyHasMaxEnergy);
        }
        Ok(())
    }

    /// Moves one unit of energy from `from` to `to`.
    pub fn shift_energy(&mut self, from: System, to: System)
        requires
            old(self)@.system(from).energy > 0,
            old(self)@.moved(from, to).representable(),
        ensures
            final(self)@ == old(self)@.moved(from, to),
    {
        let source = self.get_system_state(from);
        source.energy -= 1;
        let destination = self.get_system_state(to);
        destination.energy += 1;
    }
}

} // verus!
