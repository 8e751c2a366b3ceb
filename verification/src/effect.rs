//! The effect vocabulary: what cards and subsystems can do, and the
//! submissions that resolve a pending effect.

use vstd::prelude::*;

use crate::system::System;

verus! {

/// An atomic capability tag carried by cards and subsystems.
#[derive(Clone, Copy, Debug, PartialEq, Eq, PartialOrd, Ord, Structural)]
pub enum Effect {
    GainShortCircuit,
    LoseShortCircuit,
    StoreMoreEnergy,
    UseMoreEnergy,
    UseLessEnergy,
    Shield,
    Attack,
    DiscardOverload,
    GainAction,
    PlayHotWire,
    Draw,
    OpponentDiscard,
    OpponentGainShortCircuit,
    OpponentLoseShield,
    OpponentMoveEnergy,
    OpponentGainOverload,
    DrawPowerFrom(System),
    MoveEnergy,
    MoveEnergyTo(System),
    UseSystemCards(System),
    BypassShield,
}

/// A submission that resolves one pending effect, with the parameters that
/// the resolution needs.
#[derive(Debug, Clone, PartialEq, Eq)]
pub enum ResolveEffect {
    GainShortCircuit,
    LoseShortCircuit,
    Shield,
    Attack,
    DiscardOverload { system: System },
    GainAction,
    PlayHotWire { card_index: usize, system: System, indices_to_discard: Vec<usize> },
    Draw,
    OpponentDiscard { card_index: usize },
    OpponentGainShortCircuit,
    OpponentLoseShield,
    OpponentMoveEnergy { from_system: System, to_system: System },
    OpponentGainOverload { system: System },
    MoveEnergy { from_system: System, to_system: System },
    MoveEnergyTo { from_system: System, to_system: System },
    BypassShield,
}

impl Effect {
    /// Whether the effect can be resolved by a submission. The permanent
    /// modifiers only enter the derived subsystem figures and are never
    /// resolved.
    pub open spec fn is_immediate(self) -> bool {
        match self {
            Effect::StoreMoreEnergy
            | Effect::UseMoreEnergy
            | Effect::UseLessEnergy
            | Effect::UseSystemCards(_)
            | Effect::DrawPowerFrom(_) => false,
            _ => true,
        }
    }

    /// Whether the effect blocks the return to choosing actions while it is
    /// pending.
    pub open spec fn is_mandatory(self) -> bool {
        self == Effect::GainShortCircuit || self == Effect::OpponentDiscard
    }

    /// Whether two effects are of the same kind, whatever subsystem they
    /// name.
    pub open spec fn same_kind(self, other: Effect) -> bool {
        match self {
            Effect::DrawPowerFrom(_) => other is DrawPowerFrom,
            Effect::MoveEnergyTo(_) => other is MoveEnergyTo,
            Effect::UseSystemCards(_) => other is UseSystemCards,
            _ => self == other,
        }
    }

    /// Tells whether a submission can resolve this effect.
    pub fn has_immediate_effect(&self) -> (immediate: bool)
        ensures
            immediate == self.is_immediate(),
    {
        match self {
            Effect::GainShortCircuit
            | Effect::LoseShortCircuit
            | Effect::Shield
            | Effect::Attack
            | Effect::DiscardOverload
            | Effect::GainAction
            | Effect::PlayHotWire
            | Effect::Draw
            | Effect::OpponentGainShortCircuit
            | Effect::OpponentLoseShield
            | Effect::OpponentGainOverload
            | Effect::OpponentMoveEnergy
            | Effect::MoveEnergy
            | Effect::MoveEnergyTo(_)
            | Effect::OpponentDiscard
            | Effect::BypassShield => true,
            Effect::StoreMoreEnergy
            | Effect::UseMoreEnergy
            | Effect::UseLessEnergy
            | Effect::UseSystemCards(_)
            | Effect::DrawPowerFrom(_) => false,
        }
    }

    /// Tells whether this effect has to be resolved before the player may
    /// stop resolving.
    pub fn must_resolve(&self) -> (mandatory: bool)
        ensures
            mandatory == self.is_mandatory(),
    {
        match self {
            Effect::GainShortCircuit | Effect::OpponentDiscard => true,
            Effect::LoseShortCircuit
            | Effect::StoreMoreEnergy
            | Effect::UseMoreEnergy
            | Effect::UseLessEnergy
            | Effect::Shield
            | Effect::Attack
            | Effect::DiscardOverload
            | Effect::GainAction
            | Effect::PlayHotWire
            | Effect::Draw
            | Effect::OpponentGainShortCircuit
            | Effect::OpponentLoseShield
            | Effect::OpponentGainOverload
            | Effect::OpponentMoveEnergy
            | Effect::MoveEnergy
            | Effect::MoveEnergyTo(_)
            | Effect::UseSystemCards(_)
            | Effect::DrawPowerFrom(_)
            | Effect::BypassShield => false,
        }
    }

    /// Tells whether `other` is of the same kind as this effect.
    pub fn is_same_kind(&self, other: &Effect) -> (same: bool)
        ensures
            same == self.same_kind(*other),
    {
        match self {
            Effect::DrawPowerFrom(_) => match other {
                Effect::DrawPowerFrom(_) => true,
                _ => false,
            },
            Effect::MoveEnergyTo(_) => match other {
                Effect::MoveEnergyTo(_) => true,
                _ => false,
            },
            Effect::UseSystemCards(_) => match other {
                Effect::UseSystemCards(_) => true,
                _ => false,
            },
            _ => *self == *other,
        }
    }
}

impl ResolveEffect {
    /// The effect that this submission resolves. For a move to a named
    /// subsystem it names the submission's destination.
    pub open spec fn kind(self) -> Effect {
        match self {
            ResolveEffect::Attack => Effect::Attack,
            ResolveEffect::GainShortCircuit => Effect::GainShortCircuit,
            ResolveEffect::LoseShortCircuit => Effect::LoseShortCircuit,
            ResolveEffect::Shield => Effect::Shield,
            ResolveEffect::DiscardOverload { .. } => Effect::DiscardOverload,
            ResolveEffect::GainAction => Effect::GainAction,
            ResolveEffect::PlayHotWire { .. } => Effect::PlayHotWire,
            ResolveEffect::Draw => Effect::Draw,
            ResolveEffect::OpponentGainShortCircuit => Effect::OpponentGainShortCircuit,
            ResolveEffect::OpponentLoseShield => Effect::OpponentLoseShield,
            ResolveEffect::OpponentGainOverload { .. } => Effect::OpponentGainOverload,
            ResolveEffect::OpponentMoveEnergy { .. } => Effect::OpponentMoveEnergy,
            ResolveEffect::MoveEnergy { .. } => Effect::MoveEnergy,
            ResolveEffect::MoveEnergyTo { to_system, .. } => Effect::MoveEnergyTo(to_system),
            ResolveEffect::OpponentDiscard { .. } => Effect::OpponentDiscard,
            ResolveEffect::BypassShield => Effect::BypassShield,
        }
    }

    /// Returns the effect that this submission resolves.
    pub fn effect_this_resolves(&self) -> (effect: Effect)
        ensures
            effect == self.kind(),
    {
        match self {
            ResolveEffect::Attack => Effect::Attack,
            ResolveEffect::GainShortCircuit => Effect::GainShortCircuit,
            ResolveEffect::LoseShortCircuit => Effect::LoseShortCircuit,
            ResolveEffect::Shield => Effect::Shield,
            ResolveEffect::DiscardOverload { .. } => Effect::DiscardOverload,
            ResolveEffect::GainAction => Effect::GainAction,
            ResolveEffect::PlayHotWire { .. } => Effect::PlayHotWire,
            ResolveEffect::Draw => Effect::Draw,
            ResolveEffect::OpponentGainShortCircuit => Effect::OpponentGainShortCircuit,
            ResolveEffect::OpponentLoseShield => Effect::OpponentLoseShield,
            ResolveEffect::OpponentGainOverload { .. } => Effect::OpponentGainOverload,
            ResolveEffect::OpponentMoveEnergy { .. } => Effect::OpponentMoveEnergy,
            ResolveEffect::MoveEnergy { .. } => Effect::MoveEnergy,
            ResolveEffect::MoveEnergyTo { to_system, .. } => Effect::MoveEnergyTo(*to_system),
            ResolveEffect::OpponentDiscard { .. } => Effect::OpponentDiscard,
            ResolveEffect::BypassShield => Effect::BypassShield,
        }
    }
}

} // verus!
