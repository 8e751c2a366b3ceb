//! What a player can submit.

use vstd::prelude::*;

use crate::effect::ResolveEffect;
use crate::energy::EnergyMap;
use crate::player::Player;
use crate::system::System;

verus! {

/// A top-level action, chosen while no effect is pending.
#[derive(Debug, Clone)]
pub enum Action {
    /// Install a hand card on a subsystem, discarding other hand cards as
    /// its cost asks. The indices to discard count the hand as it is before
    /// the installed card leaves it.
    HotWireCard { card_index: usize, system: System, indices_to_discard: Vec<usize> },
    /// Play a hand card for its instant effects.
    PlayInstantCard { card_index: usize },
    /// Activate a subsystem. The reactor takes an energy distribution; any
    /// other subsystem takes the sources to draw its energy from, or draws
    /// all of it from itself.
    ActivateSystem {
        system: System,
        energy_to_use: Option<EnergyMap>,
        energy_distribution: Option<EnergyMap>,
    },
    /// Take one overload token off a subsystem.
    DiscardOverload { system: System },
    /// Lower the short-circuit counter by 2.
    ReduceShortCircuits,
}

/// A submission, without the player who makes it.
#[derive(Debug, Clone)]
pub enum UserAction {
    ChooseAction { action: Action },
    ResolveEffect { resolve_effect: ResolveEffect },
    Pass { card_indices_to_discard: Vec<usize> },
    StopResolvingEffects,
}

/// A submission and the player who makes it.
#[derive(Debug, Clone)]
pub struct UserActionWithPlayer {
    pub player: Player,
    pub user_action: UserAction,
}

impl Action {
    /// The action points that the action costs.
    pub open spec fn points(self) -> int {
        match self {
            Action::HotWireCard { .. } => 1,
            Action::PlayInstantCard { .. } => 0,
            Action::ActivateSystem { system, .. } => if system == System::FusionReactor {
                2
            } else {
                1
            },
            Action::DiscardOverload { .. } => 1,
            Action::ReduceShortCircuits => 1,
        }
    }

    /// Returns the action points that the action costs.
    pub fn action_points(&self) -> (points: i32)
        ensures
            points == self.points(),
    {
        match self {
            Action::HotWireCard { .. } => 1,
            Action::PlayInstantCard { .. } => 0,
            Action::ActivateSystem { system, .. } => match system {
                System::FusionReactor => 2,
                System::LifeSupport => 1,
                System::Weapons => 1,
                System::ShieldGenerator => 1,
            },
            Action::DiscardOverload { .. } => 1,
            Action::ReduceShortCircuits => 1,
        }
    }
}

} // verus!
