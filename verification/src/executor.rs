//! The action executor: applies the action that the active player chose
//! and charges its action points.

use vstd::prelude::*;

use crate::action::Action;
use crate::effect::Effect;
use crate::energy::EnergyMap;
use crate::error::UserActionError;
use crate::game::{GameState, TurnState};
use crate::player::Player;
use crate::system::System;

verus! {

/// Returns a copy of `effects`.
pub fn copy_effects(effects: &Vec<Effect>) -> (copy: Vec<Effect>)
    ensures
        copy@ == effects@,
{
    let mut copy: Vec<Effect> = Vec::new();
    let mut i: usize = 0;
    while i < effects.len()
        invariant
            i <= effects@.len(),
            copy@ == effects@.take(i as int),
        decreases effects@.len() - i,
    {
        copy.push(effects[i]);
        i += 1;
    }
    copy
}

impl GameState {
    /// Tells whether `player` can take `action` now: the action points
    /// left have to cover its cost, and the rules of the action have to be
    /// met.
    pub fn can_choose_action(&self, action: &Action, player: Player) -> (result: Result<
        (),
        UserActionError,
    >)
        requires
            self@.countable(),
        ensures
            result == self@.action_verdict(player, *action),
    {
        if action.action_points() > self.actions_left {
            return Err(UserActionError::NotEnoughActionsLeft);
        }
        let me = self.my_state_immut(player);
        match action {
            Action::HotWireCard {
                card_index,
                system,
                indices_to_discard,
            } => self.can_hot_wire_card(*card_index, *system, indices_to_discard, player),
            Action::PlayInstantCard { card_index } => {
                if *card_index >= me.hand.len() {
                    Err(UserActionError::InvalidCardIndex)
                } else {
                    Ok(())
                }
            },
            Action::ActivateSystem { system, energy_to_use, energy_distribution } => {
                if me.system_state(*system).overloads > 0 {
                    Err(UserActionError::CannotActivateOverloadedSystem)
                } else if *system == System::FusionReactor {
                    me.can_distribute(energy_distribution)
                } else {
                    me.can_draw_power(*system, energy_to_use)
                }
            },
            Action::DiscardOverload { system } => {
                if me.system_state(*system).overloads > 0 {
                    Ok(())
                } else {
                    Err(UserActionError::SystemHasNoOverload)
                }
            },
            Action::ReduceShortCircuits => Ok(()),
        }
    }

    /// Plays the hand card of `player` at `card_index` for its instant
    /// effects.
    pub fn play_instant_card(&mut self, card_index: usize, player: Player)
        requires
            card_index < old(self)@.state_of(player).hand.len(),
        ensures
            final(self)@ == old(self)@.played(player, card_index),
    {
        let me = self.my_state(player);
        let card = me.hand.remove(card_index);
        self.turn_state = TurnState::ResolvingEffects {
            effects: copy_effects(&card.instant_effects),
        };
        self.discard_pile.push(card);
    }

    /// Activates `system` for `player`: puts the energy where the
    /// submission says and makes the effect pool of the subsystem pending.
    pub fn activate_system(
        &mut self,
        system: System,
        energy_to_use: &Option<EnergyMap>,
        energy_distribution: &Option<EnergyMap>,
        player: Player,
    )
        requires
            old(self)@.countable(),
            old(self)@.activate_verdict(player, system, *energy_to_use, *energy_distribution) is Ok,
            old(self)@.activated(
                player,
                system,
                *energy_to_use,
                *energy_distribution,
            ).representable(),
        ensures
            final(self)@ == old(self)@.activated(
                player,
                system,
                *energy_to_use,
                *energy_distribution,
            ),
    {
        let me = self.my_state(player);
        if system == System::FusionReactor {
            if let Some(distribution) = energy_distribution {
                me.distribute(distribution);
            }
        } else {
            me.draw_power(system, energy_to_use);
        }
        let effects = me.system_state(system).get_hot_wire_effects();
        self.turn_state = TurnState::ResolvingEffects { effects };
    }

    /// Takes one overload token off `system` of `player`.
    pub fn discard_overload(&mut self, system: System, player: Player)
        requires
            old(self)@.state_of(player).system(system).overloads > 0,
        ensures
            final(self)@ == old(self)@.overload_discarded(player, system),
    {
        let me = self.my_state(player);
        let target = me.get_system_state(system);
        target.overloads -= 1;
    }

    /// Lowers the short-circuit counter of `player` by 2, but not below 0.
    pub fn reduce_short_circuits(&mut self, player: Player)
        ensures
            final(self)@ == old(self)@.short_circuits_reduced(player),
    {
        let me = self.my_state(player);
        me.short_circuits = if me.short_circuits >= 2 {
            me.short_circuits - 2
        } else {
            0
        };
    }

    /// Applies `action` for `player` and takes its cost from the action
    /// points. Installing a card costs 1, playing a card for its instant
    /// effects 0, activating the reactor 2 and any other subsystem 1,
    /// discarding an overload 1, reducing short circuits 1. Where a rule is
    /// broken, nothing changes.
    pub fn choose_action(&mut self, action: Action, player: Player) -> (result: Result<
        (),
        UserActionError,
    >)
        requires
            old(self)@.countable(),
            old(self)@.action_verdict(player, action) is Ok ==> old(self)@.acted(
                player,
                action,
            ).representable(),
        ensures
            result == old(self)@.action_verdict(player, action),
            result is Ok ==> final(self)@ == old(self)@.acted(player, action),
            result is Err ==> *final(self) == *old(self),
    {
        match self.can_choose_action(&action, player) {
            Err(error) => {
                return Err(error);
            },
            Ok(()) => {},
        }
        let points = action.action_points();
        match action {
            Action::HotWireCard { card_index, system, indices_to_discard } => {
                let installed = self.hot_wire_card(card_index, system, indices_to_discard, player);
                assert(installed is Ok);
            },
            Action::PlayInstantCard { card_index } => {
                self.play_instant_card(card_index, player);
            },
            Action::ActivateSystem { system, energy_to_use, energy_distribution } => {
                self.activate_system(system, &energy_to_use, &energy_distribution, player);
            },
            Action::DiscardOverload { system } => {
                self.discard_overload(system, player);
            },
            Action::ReduceShortCircuits => {
                self.reduce_short_circuits(player);
            },
        }
        self.actions_left -= points;
        Ok(())
    }
}

} // verus!
