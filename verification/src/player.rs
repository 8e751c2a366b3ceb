//! The two seats at the table and what a player holds.

use vstd::prelude::*;

use crate::card::Card;
use crate::subsystem::{SystemModel, SystemState};
use crate::system::System;

verus! {

/// One of the two seats at the table.
#[derive(Clone, Copy, Debug, PartialEq, Eq, Structural)]
pub enum Player {
    Player1,
    Player2,
}

impl Player {
    /// The seat across the table.
    pub open spec fn other(self) -> Player {
        match self {
            Player::Player1 => Player::Player2,
            Player::Player2 => Player::Player1,
        }
    }

    /// Returns the seat across the table.
    pub fn other_player(&self) -> (opponent: Player)
        ensures
            opponent == self.other(),
    {
        match self {
            Player::Player1 => Player::Player2,
            Player::Player2 => Player::Player1,
        }
    }
}

/// What one player holds: counters, hand and the four subsystems.
#[derive(Debug, Clone, PartialEq, Eq)]
pub struct PlayerState {
    pub hull_damage: i32,
    pub shields: i32,
    pub short_circuits: i32,
    pub hand: Vec<Card>,
    pub fusion_reactor: SystemState,
    pub life_support: SystemState,
    pub shield_generator: SystemState,
    pub weapons_system: SystemState,
}

/// The mathematical value of a [`PlayerState`].
pub struct PlayerModel {
    pub hull_damage: int,
    pub shields: int,
    pub short_circuits: int,
    pub hand: Seq<Card>,
    pub fusion_reactor: SystemModel,
    pub life_support: SystemModel,
    pub shield_generator: SystemModel,
    pub weapons_system: SystemModel,
}

impl View for PlayerState {
    type V = PlayerModel;

    open spec fn view(&self) -> PlayerModel {
        PlayerModel {
            hull_damage: self.hull_damage as int,
            shields: self.shields as int,
            short_circuits: self.short_circuits as int,
            hand: self.hand@,
            fusion_reactor: self.fusion_reactor@,
            life_support: self.life_support@,
            shield_generator: self.shield_generator@,
            weapons_system: self.weapons_system@,
        }
    }
}

/// Whether `value` fits a counter of the machine.
pub open spec fn fits_counter(value: int) -> bool {
    i32::MIN <= value <= i32::MAX
}

impl SystemModel {
    /// Whether energy and overloads fit the machine's counters.
    pub open spec fn representable(self) -> bool {
        fits_counter(self.energy) && fits_counter(self.overloads)
    }
}

impl PlayerModel {
    /// The state of one of the player's subsystems.
    pub open spec fn system(self, system: System) -> SystemModel {
        match system {
            System::FusionReactor => self.fusion_reactor,
            System::LifeSupport => self.life_support,
            System::Weapons => self.weapons_system,
            System::ShieldGenerator => self.shield_generator,
        }
    }

    /// The player with one subsystem replaced.
    pub open spec fn with_system(self, system: System, state: SystemModel) -> PlayerModel {
        match system {
            System::FusionReactor => PlayerModel { fusion_reactor: state, ..self },
            System::LifeSupport => PlayerModel { life_support: state, ..self },
            System::Weapons => PlayerModel { weapons_system: state, ..self },
            System::ShieldGenerator => PlayerModel { shield_generator: state, ..self },
        }
    }

    /// The player with the energy of one subsystem replaced.
    pub open spec fn with_energy(self, system: System, energy: int) -> PlayerModel {
        self.with_system(system, SystemModel { energy, ..self.system(system) })
    }

    /// The player with the overloads of one subsystem replaced.
    pub open spec fn with_overloads(self, system: System, overloads: int) -> PlayerModel {
        self.with_system(system, SystemModel { overloads, ..self.system(system) })
    }

    /// The number of cards the player holds: hand and installed cards.
    pub open spec fn cards(self) -> nat {
        self.hand.len() + self.fusion_reactor.hot_wires.len() + self.life_support.hot_wires.len()
            + self.weapons_system.hot_wires.len() + self.shield_generator.hot_wires.len()
    }

    /// Whether the derived figures of all four subsystems fit the machine's
    /// counters.
    pub open spec fn countable(self) -> bool {
        &&& self.fusion_reactor.countable()
        &&& self.life_support.countable()
        &&& self.weapons_system.countable()
        &&& self.shield_generator.countable()
    }

    /// Whether every counter fits the machine's counters.
    pub open spec fn representable(self) -> bool {
        &&& fits_counter(self.hull_damage)
        &&& fits_counter(self.shields)
        &&& fits_counter(self.short_circuits)
        &&& self.fusion_reactor.representable()
        &&& self.life_support.representable()
        &&& self.weapons_system.representable()
        &&& self.shield_generator.representable()
    }
}

impl PlayerState {
    /// A player at the start of a session: an empty hand, two shields and
    /// five units of energy on the subsystems.
    pub fn start_state() -> (state: PlayerState)
        ensures
            state@ == PlayerModel::start(),
    {
        PlayerState {
            hull_damage: 0,
            shields: 2,
            short_circuits: 0,
            hand: Vec::new(),
            fusion_reactor: SystemState::with_energy(0, System::FusionReactor),
            life_support: SystemState::with_energy(2, System::LifeSupport),
            shield_generator: SystemState::with_energy(1, System::ShieldGenerator),
            weapons_system: SystemState::with_energy(2, System::Weapons),
        }
    }

    /// Returns one of the player's subsystems.
    pub fn system_state(&self, system: System) -> (state: &SystemState)
        ensures
            state@ == self@.system(system),
    {
        match system {
            System::FusionReactor => &self.fusion_reactor,
            System::LifeSupport => &self.life_support,
            System::Weapons => &self.weapons_system,
            System::ShieldGenerator => &self.shield_generator,
        }
    }

    /// Returns one of the player's subsystems for change; nothing else of
    /// the player changes through it.
    pub fn get_system_state(&mut self, system: System) -> (state: &mut SystemState)
        ensures
            *state == old(self).system_of(system),
            *final(self) == old(self).with_system_of(system, *final(state)),
    {
        match system {
            System::FusionReactor => &mut self.fusion_reactor,
            System::LifeSupport => &mut self.life_support,
            System::Weapons => &mut self.weapons_system,
            System::ShieldGenerator => &mut self.shield_generator,
        }
    }

    /// The subsystem that [`PlayerState::get_system_state`] hands out.
    pub open spec fn system_of(self, system: System) -> SystemState {
        match system {
            System::FusionReactor => self.fusion_reactor,
            System::LifeSupport => self.life_support,
            System::Weapons => self.weapons_system,
            System::ShieldGenerator => self.shield_generator,
        }
    }

    /// The player with one subsystem replaced.
    pub open spec fn with_system_of(self, system: System, state: SystemState) -> PlayerState {
        match system {
            System::FusionReactor => PlayerState { fusion_reactor: state, ..self },
            System::LifeSupport => PlayerState { life_support: state, ..self },
            System::Weapons => PlayerState { weapons_system: state, ..self },
            System::ShieldGenerator => PlayerState { shield_generator: state, ..self },
        }
    }
}

impl PlayerModel {
    /// A player at the start of a session.
    pub open spec fn start() -> PlayerModel {
        PlayerModel {
            hull_damage: 0,
            shields: 2,
            short_circuits: 0,
            hand: Seq::empty(),
            fusion_reactor: SystemModel {
                system: System::FusionReactor,
                energy: 0,
                overloads: 0,
                hot_wires: Seq::empty(),
            },
            life_support: SystemModel {
                system: System::LifeSupport,
                energy: 2,
                overloads: 0,
                hot_wires: Seq::empty(),
            },
            shield_generator: SystemModel {
                system: System::ShieldGenerator,
                energy: 1,
                overloads: 0,
                hot_wires: Seq::empty(),
            },
            weapons_system: SystemModel {
                system: System::Weapons,
                energy: 2,
                overloads: 0,
                hot_wires: Seq::empty(),
            },
        }
    }
}

} // verus!
