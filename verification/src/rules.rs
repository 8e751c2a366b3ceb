//! The rules of the game as functions on the mathematical value of a
//! session: for every submission a verdict, and for every accepted
//! submission the session that follows.

use vstd::prelude::*;

use crate::action::{Action, UserAction, UserActionWithPlayer};
use crate::card::Card;
use crate::effect::{Effect, ResolveEffect};
use crate::energy::EnergyMap;
use crate::error::UserActionError;
use crate::model::{
    descending, discarded_onto, first_of_kind, floor_zero, has_kind, has_mandatory, phase_for,
    removable, renumbered, resolvable, unforced, without, GameModel, TurnModel,
};
use crate::player::{Player, PlayerModel};
use crate::subsystem::SystemModel;
use crate::system::System;

verus! {

impl PlayerModel {
    /// Whether `distribution` puts energy on the overloaded subsystem
    /// `system`.
    pub open spec fn blocks(self, distribution: EnergyMap, system: System) -> bool {
        distribution.amount(system) > 0 && self.system(system).overloads > 0
    }

    /// The verdict on a reactor activation: a distribution has to come with
    /// it, its entries have to sum to the energy the reactor can store, and
    /// it may put nothing on an overloaded subsystem.
    pub open spec fn distribution_verdict(self, distribution: Option<EnergyMap>) -> Result<
        (),
        UserActionError,
    > {
        match distribution {
            None => Err(UserActionError::MissingEnergyDistribution),
            Some(distribution) => if distribution.total() != self.fusion_reactor.allowed_energy() {
                Err(UserActionError::InvalidEnergyDistribution)
            } else if self.blocks(distribution, System::FusionReactor) || self.blocks(
                distribution,
                System::LifeSupport,
            ) || self.blocks(distribution, System::Weapons) || self.blocks(
                distribution,
                System::ShieldGenerator,
            ) {
                Err(UserActionError::CannotPutEnergyOnDisabledSystem)
            } else {
                Ok(())
            },
        }
    }

    /// The energy of `system` once `distribution` is applied: its entry, or
    /// what the subsystem has where there is none.
    pub open spec fn allotted(self, distribution: EnergyMap, system: System) -> int {
        match distribution.entry(system) {
            Some(energy) => energy as int,
            None => self.system(system).energy,
        }
    }

    /// The player after a reactor activation with `distribution`.
    pub open spec fn distributed(self, distribution: EnergyMap) -> PlayerModel {
        PlayerModel {
            fusion_reactor: SystemModel {
                energy: self.allotted(distribution, System::FusionReactor),
                ..self.fusion_reactor
            },
            life_support: SystemModel {
                energy: self.allotted(distribution, System::LifeSupport),
                ..self.life_support
            },
            weapons_system: SystemModel {
                energy: self.allotted(distribution, System::Weapons),
                ..self.weapons_system
            },
            shield_generator: SystemModel {
                energy: self.allotted(distribution, System::ShieldGenerator),
                ..self.shield_generator
            },
            ..self
        }
    }

    /// Whether an activation of `system` names `source` as a source of
    /// energy: by an entry of `energy_to_use`, or, where none is given, the
    /// subsystem itself.
    pub open spec fn names_source(
        self,
        system: System,
        energy_to_use: Option<EnergyMap>,
        source: System,
    ) -> bool {
        match energy_to_use {
            Some(sources) => sources.entry(source) is Some,
            None => source == system,
        }
    }

    /// The energy that an activation of `system` draws from `source`.
    pub open spec fn drawn(
        self,
        system: System,
        energy_to_use: Option<EnergyMap>,
        source: System,
    ) -> int {
        match energy_to_use {
            Some(sources) => sources.amount(source),
            None => if source == system {
                self.system(system).energy_used()
            } else {
                0
            },
        }
    }

    /// The energy that an activation of `system` draws from all sources
    /// but the reactor.
    pub open spec fn inflow(self, system: System, energy_to_use: Option<EnergyMap>) -> int {
        self.drawn(system, energy_to_use, System::LifeSupport) + self.drawn(
            system,
            energy_to_use,
            System::Weapons,
        ) + self.drawn(system, energy_to_use, System::ShieldGenerator)
    }

    /// What is wrong with drawing from `source`, if anything: a source that
    /// gives or takes energy has to be one the subsystem may draw from, and
    /// no source gives more than it has.
    pub open spec fn draw_fault(
        self,
        system: System,
        energy_to_use: Option<EnergyMap>,
        source: System,
    ) -> Option<UserActionError> {
        let amount = self.drawn(system, energy_to_use, source);
        if !self.names_source(system, energy_to_use, source) {
            None
        } else if amount != 0 && !self.system(system).draws_power_from(source) {
            Some(UserActionError::CannotDrawPowerFromSystem)
        } else if amount > self.system(source).energy {
            Some(UserActionError::NotEnoughEnergyToActivate)
        } else {
            None
        }
    }

    /// The verdict on the sources of an activation of `system`, which is
    /// not the reactor: they have to give exactly the energy the activation
    /// uses, and the first faulty source, reactor first, decides.
    pub open spec fn draw_verdict(self, system: System, energy_to_use: Option<EnergyMap>) -> Result<
        (),
        UserActionError,
    > {
        let total = self.drawn(system, energy_to_use, System::FusionReactor) + self.inflow(
            system,
            energy_to_use,
        );
        if total != self.system(system).energy_used() {
            Err(UserActionError::IncorrectAmountOfEnergyToUse)
        } else if let Some(fault) = self.draw_fault(system, energy_to_use, System::FusionReactor) {
            Err(fault)
        } else if let Some(fault) = self.draw_fault(system, energy_to_use, System::LifeSupport) {
            Err(fault)
        } else if let Some(fault) = self.draw_fault(system, energy_to_use, System::Weapons) {
            Err(fault)
        } else if let Some(fault) = self.draw_fault(system, energy_to_use, System::ShieldGenerator) {
            Err(fault)
        } else {
            Ok(())
        }
    }

    /// The player after an activation of `system`, which is not the
    /// reactor: every source but the reactor loses what is drawn from it,
    /// and the reactor gains all of that.
    pub open spec fn powered(self, system: System, energy_to_use: Option<EnergyMap>) -> PlayerModel {
        PlayerModel {
            fusion_reactor: SystemModel {
                energy: self.fusion_reactor.energy + self.inflow(system, energy_to_use),
                ..self.fusion_reactor
            },
            life_support: SystemModel {
                energy: self.life_support.energy - self.drawn(
                    system,
                    energy_to_use,
                    System::LifeSupport,
                ),
                ..self.life_support
            },
            weapons_system: SystemModel {
                energy: self.weapons_system.energy - self.drawn(
                    system,
                    energy_to_use,
                    System::Weapons,
                ),
                ..self.weapons_system
            },
            shield_generator: SystemModel {
                energy: self.shield_generator.energy - self.drawn(
                    system,
                    energy_to_use,
                    System::ShieldGenerator,
                ),
                ..self.shield_generator
            },
            ..self
        }
    }

    /// The verdict on moving one unit of energy from `from` to `to`: the
    /// source has to hold energy, and the destination, seen after the unit
    /// has left the source, may be neither overloaded nor full.
    pub open spec fn move_verdict(self, from: System, to: System) -> Result<(), UserActionError> {
        if self.system(from).energy <= 0 {
            Err(UserActionError::NoEnergyToMoveOnSystem)
        } else {
            let drained = self.with_energy(from, self.system(from).energy - 1);
            if drained.system(to).overloads > 0 {
                Err(UserActionError::CannotPutEnergyOnDisabledSystem)
            } else if drained.system(to).energy == drained.system(to).allowed_energy() {
                Err(UserActionError::SystemAlreadyHasMaxEnergy)
            } else {
                Ok(())
            }
        }
    }

    /// The player after one unit of energy moved from `from` to `to`.
    pub open spec fn moved(self, from: System, to: System) -> PlayerModel {
        let drained = self.with_energy(from, self.system(from).energy - 1);
        drained.with_energy(to, drained.system(to).energy + 1)
    }

    /// The player after an attack: a shield absorbs it if there is one,
    /// else the hull takes the damage.
    pub open spec fn attacked(self) -> PlayerModel {
        if self.shields > 0 {
            PlayerModel { shields: self.shields - 1, ..self }
        } else {
            PlayerModel { hull_damage: self.hull_damage + 1, ..self }
        }
    }
}

impl GameModel {
    /// The hand positions that an installation discards, as they count
    /// once the installed card has left the hand, highest first.
    pub open spec fn install_positions(card_index: usize, indices: Seq<usize>) -> Seq<usize> {
        renumbered(indices, card_index).sort_by(descending())
    }

    /// The verdict on installing the hand card at `card_index` on `system`
    /// while discarding the hand cards at `indices`.
    pub open spec fn install_verdict(
        self,
        player: Player,
        card_index: usize,
        system: System,
        indices: Seq<usize>,
    ) -> Result<(), UserActionError> {
        let me = self.state_of(player);
        if card_index >= me.hand.len() {
            Err(UserActionError::InvalidCardIndex)
        } else {
            let card = me.hand[card_index as int];
            if card.system is Some && !me.system(system).accepts_cards_of(card.system->0) {
                Err(UserActionError::CannotHotWireCardOnThisSystem)
            } else if card.hot_wire_cost.cards_to_discard > me.hand.len() - 1 {
                Err(UserActionError::NotEnoughCardsToDiscard)
            } else if indices.contains(card_index) {
                Err(UserActionError::DiscardingCardPlayed)
            } else if indices.len() != card.hot_wire_cost.cards_to_discard {
                Err(UserActionError::WrongNumberOfDiscardIndices)
            } else if !removable(
                me.hand.len() - 1,
                GameModel::install_positions(card_index, indices),
            ) {
                Err(UserActionError::InvalidDiscardIndices)
            } else {
                Ok(())
            }
        }
    }

    /// The session after the installation: the card lies on the subsystem,
    /// its cost is paid, and the discarded cards lie on the discard pile.
    pub open spec fn installed(
        self,
        player: Player,
        card_index: usize,
        system: System,
        indices: Seq<usize>,
    ) -> GameModel {
        let me = self.state_of(player);
        let card = me.hand[card_index as int];
        let rest = me.hand.remove(card_index as int);
        let positions = GameModel::install_positions(card_index, indices);
        let target = me.system(system);
        let paid = PlayerModel {
            hand: without(rest, positions),
            short_circuits: floor_zero(me.short_circuits + card.hot_wire_cost.short_circuits),
            ..me
        };
        GameModel {
            discard_pile: discarded_onto(self.discard_pile, rest, positions),
            ..self
        }.with_state(
            player,
            paid.with_system(system, SystemModel { hot_wires: target.hot_wires.push(card), ..target }),
        )
    }

    /// The verdict on discarding the hand cards at `indices`, highest
    /// position first.
    pub open spec fn discard_verdict(self, player: Player, indices: Seq<usize>) -> Result<
        (),
        UserActionError,
    > {
        if removable(self.state_of(player).hand.len() as int, indices.sort_by(descending())) {
            Ok(())
        } else {
            Err(UserActionError::InvalidDiscardIndices)
        }
    }

    /// The session after the hand cards at `indices` went to the discard
    /// pile, highest position first.
    pub open spec fn discarded(self, player: Player, indices: Seq<usize>) -> GameModel {
        let me = self.state_of(player);
        let positions = indices.sort_by(descending());
        GameModel {
            discard_pile: discarded_onto(self.discard_pile, me.hand, positions),
            ..self
        }.with_state(player, PlayerModel { hand: without(me.hand, positions), ..me })
    }

    /// The verdict on activating `system`.
    pub open spec fn activate_verdict(
        self,
        player: Player,
        system: System,
        energy_to_use: Option<EnergyMap>,
        energy_distribution: Option<EnergyMap>,
    ) -> Result<(), UserActionError> {
        let me = self.state_of(player);
        if me.system(system).overloads > 0 {
            Err(UserActionError::CannotActivateOverloadedSystem)
        } else if system == System::FusionReactor {
            me.distribution_verdict(energy_distribution)
        } else {
            me.draw_verdict(system, energy_to_use)
        }
    }

    /// The session after the activation: the energy is where the
    /// submission put it, and the whole effect pool of the subsystem is
    /// pending.
    pub open spec fn activated(
        self,
        player: Player,
        system: System,
        energy_to_use: Option<EnergyMap>,
        energy_distribution: Option<EnergyMap>,
    ) -> GameModel {
        let me = self.state_of(player);
        GameModel {
            turn_state: TurnModel::ResolvingEffects { effects: me.system(system).effect_pool() },
            ..self
        }.with_state(
            player,
            if system == System::FusionReactor {
                me.distributed(energy_distribution->0)
            } else {
                me.powered(system, energy_to_use)
            },
        )
    }

    /// The verdict on an action, the action points apart.
    pub open spec fn action_body_verdict(self, player: Player, action: Action) -> Result<
        (),
        UserActionError,
    > {
        let me = self.state_of(player);
        match action {
            Action::HotWireCard { card_index, system, indices_to_discard } => self.install_verdict(
                player,
                card_index,
                system,
                indices_to_discard@,
            ),
            Action::PlayInstantCard { card_index } => if card_index >= me.hand.len() {
                Err(UserActionError::InvalidCardIndex)
            } else {
                Ok(())
            },
            Action::ActivateSystem {
                system,
                energy_to_use,
                energy_distribution,
            } => self.activate_verdict(player, system, energy_to_use, energy_distribution),
            Action::DiscardOverload { system } => if me.system(system).overloads > 0 {
                Ok(())
            } else {
                Err(UserActionError::SystemHasNoOverload)
            },
            Action::ReduceShortCircuits => Ok(()),
        }
    }

    /// The verdict on an action: the action points left have to cover its
    /// cost, then its own rules decide.
    pub open spec fn action_verdict(self, player: Player, action: Action) -> Result<
        (),
        UserActionError,
    > {
        if action.points() > self.actions_left {
            Err(UserActionError::NotEnoughActionsLeft)
        } else {
            self.action_body_verdict(player, action)
        }
    }

    /// The session after the hand card at `card_index` was played for its
    /// instant effects: the card lies on the discard pile and its instant
    /// effects are pending.
    pub open spec fn played(self, player: Player, card_index: usize) -> GameModel {
        let me = self.state_of(player);
        GameModel {
            discard_pile: self.discard_pile.push(me.hand[card_index as int]),
            turn_state: TurnModel::ResolvingEffects {
                effects: me.hand[card_index as int].instant_effects@,
            },
            ..self
        }.with_state(player, PlayerModel { hand: me.hand.remove(card_index as int), ..me })
    }

    /// The session after `player` took one overload token off `system`.
    pub open spec fn overload_discarded(self, player: Player, system: System) -> GameModel {
        let me = self.state_of(player);
        self.with_state(player, me.with_overloads(system, me.system(system).overloads - 1))
    }

    /// The session after `player` lowered the short-circuit counter by 2,
    /// but not below 0.
    pub open spec fn short_circuits_reduced(self, player: Player) -> GameModel {
        let me = self.state_of(player);
        self.with_state(
            player,
            PlayerModel { short_circuits: floor_zero(me.short_circuits - 2), ..me },
        )
    }

    /// The session after an action, the action points apart.
    pub open spec fn acted_body(self, player: Player, action: Action) -> GameModel {
        match action {
            Action::HotWireCard { card_index, system, indices_to_discard } => self.installed(
                player,
                card_index,
                system,
                indices_to_discard@,
            ),
            Action::PlayInstantCard { card_index } => self.played(player, card_index),
            Action::ActivateSystem { system, energy_to_use, energy_distribution } => self.activated(
                player,
                system,
                energy_to_use,
                energy_distribution,
            ),
            Action::DiscardOverload { system } => self.overload_discarded(player, system),
            Action::ReduceShortCircuits => self.short_circuits_reduced(player),
        }
    }

    /// The session after an action: what the action does, and its cost
    /// taken from the action points.
    pub open spec fn acted(self, player: Player, action: Action) -> GameModel {
        GameModel {
            actions_left: self.actions_left - action.points(),
            ..self.acted_body(player, action)
        }
    }

    /// The verdict on a resolution submitted by the active player: an
    /// effect of its kind has to be pending, then the rules of the kind
    /// decide.
    pub open spec fn resolution_verdict(self, player: Player, resolution: ResolveEffect) -> Result<
        (),
        UserActionError,
    > {
        let me = self.state_of(player);
        let opponent = self.state_of(player.other());
        if !has_kind(self.pending(), resolution.kind()) {
            Err(UserActionError::NoMatchingEffectToResolve)
        } else {
            match resolution {
                ResolveEffect::Attack => Ok(()),
                ResolveEffect::GainShortCircuit => Ok(()),
                ResolveEffect::LoseShortCircuit => if me.short_circuits > 0 {
                    Ok(())
                } else {
                    Err(UserActionError::NoShortCircuitToRemove)
                },
                ResolveEffect::Shield => if me.shields < me.shield_generator.allowed_energy() {
                    Ok(())
                } else {
                    Err(UserActionError::AlreadyAtMaxShields)
                },
                ResolveEffect::DiscardOverload { system } => if me.system(system).overloads > 0 {
                    Ok(())
                } else {
                    Err(UserActionError::NoOverloadToDiscard)
                },
                ResolveEffect::GainAction => Ok(()),
                ResolveEffect::PlayHotWire {
                    card_index,
                    system,
                    indices_to_discard,
                } => self.install_verdict(player, card_index, system, indices_to_discard@),
                ResolveEffect::Draw => if self.deck.len() == 0 && self.discard_pile.len() == 0 {
                    Err(UserActionError::NoCardToDraw)
                } else {
                    Ok(())
                },
                ResolveEffect::OpponentDiscard { .. } => Err(
                    UserActionError::ActivePlayerCannotResolveOpponentDiscard,
                ),
                ResolveEffect::OpponentGainShortCircuit => Ok(()),
                ResolveEffect::OpponentLoseShield => if opponent.shields > 0 {
                    Ok(())
                } else {
                    Err(UserActionError::NoShieldsToLose)
                },
                ResolveEffect::OpponentMoveEnergy { from_system, to_system } => opponent.move_verdict(
                    from_system,
                    to_system,
                ),
                ResolveEffect::OpponentGainOverload { .. } => Ok(()),
                ResolveEffect::MoveEnergy { from_system, to_system } => me.move_verdict(
                    from_system,
                    to_system,
                ),
                ResolveEffect::MoveEnergyTo { from_system, to_system } => me.move_verdict(
                    from_system,
                    to_system,
                ),
                ResolveEffect::BypassShield => if has_kind(self.pending(), Effect::Attack) {
                    Ok(())
                } else {
                    Err(UserActionError::CannotResolveBypassShieldWithoutAttack)
                },
            }
        }
    }

    /// The session after the top card of the deck went to the hand of
    /// `player`. Where the deck is empty, `refill`, which stands for the
    /// shuffled discard pile, takes its place first.
    pub open spec fn card_drawn(self, player: Player, refill: Seq<Card>) -> GameModel {
        let me = self.state_of(player);
        let deck = if self.deck.len() == 0 {
            refill
        } else {
            self.deck
        };
        let pile = if self.deck.len() == 0 {
            Seq::empty()
        } else {
            self.discard_pile
        };
        GameModel { deck: deck.drop_last(), discard_pile: pile, ..self }.with_state(
            player,
            PlayerModel { hand: me.hand.push(deck.last()), ..me },
        )
    }

    /// What a resolution does to the session, the queue apart.
    pub open spec fn resolved_body(
        self,
        player: Player,
        resolution: ResolveEffect,
        refill: Seq<Card>,
    ) -> GameModel {
        let me = self.state_of(player);
        let rival = player.other();
        let opponent = self.state_of(rival);
        match resolution {
            ResolveEffect::Attack => self.with_state(rival, opponent.attacked()),
            ResolveEffect::GainShortCircuit => self.with_state(
                player,
                PlayerModel { short_circuits: me.short_circuits + 1, ..me },
            ),
            ResolveEffect::LoseShortCircuit => self.with_state(
                player,
                PlayerModel { short_circuits: me.short_circuits - 1, ..me },
            ),
            ResolveEffect::Shield => self.with_state(
                player,
                PlayerModel { shields: me.shields + 1, ..me },
            ),
            ResolveEffect::DiscardOverload { system } => self.with_state(
                player,
                me.with_overloads(system, me.system(system).overloads - 1),
            ),
            ResolveEffect::GainAction => GameModel { actions_left: self.actions_left + 1, ..self },
            ResolveEffect::PlayHotWire { card_index, system, indices_to_discard } => self.installed(
                player,
                card_index,
                system,
                indices_to_discard@,
            ),
            ResolveEffect::Draw => self.card_drawn(player, refill),
            ResolveEffect::OpponentDiscard { .. } => self,
            ResolveEffect::OpponentGainShortCircuit => self.with_state(
                rival,
                PlayerModel { short_circuits: opponent.short_circuits + 1, ..opponent },
            ),
            ResolveEffect::OpponentLoseShield => self.with_state(
                rival,
                PlayerModel { shields: opponent.shields - 1, ..opponent },
            ),
            ResolveEffect::OpponentMoveEnergy { from_system, to_system } => self.with_state(
                rival,
                opponent.moved(from_system, to_system),
            ),
            ResolveEffect::OpponentGainOverload { system } => self.with_state(
                rival,
                opponent.with_overloads(system, opponent.system(system).overloads + 1),
            ),
            ResolveEffect::MoveEnergy { from_system, to_system } => self.with_state(
                player,
                me.moved(from_system, to_system),
            ),
            ResolveEffect::MoveEnergyTo { from_system, to_system } => self.with_state(
                player,
                me.moved(from_system, to_system),
            ),
            ResolveEffect::BypassShield => self.with_state(
                rival,
                PlayerModel { hull_damage: opponent.hull_damage + 1, ..opponent },
            ),
        }
    }

    /// The pending effects once `resolution` is resolved: the first effect
    /// of its kind has left, and with a shield bypass the first attack too.
    pub open spec fn remaining(queue: Seq<Effect>, resolution: ResolveEffect) -> Seq<Effect> {
        let i = first_of_kind(queue, resolution.kind());
        if resolution is BypassShield {
            let attack = first_of_kind(queue, Effect::Attack);
            queue.remove(attack).remove(
                if i > attack {
                    i - 1
                } else {
                    i
                },
            )
        } else {
            queue.remove(i)
        }
    }

    /// The session after a resolution by the active player.
    pub open spec fn resolved(
        self,
        player: Player,
        resolution: ResolveEffect,
        refill: Seq<Card>,
    ) -> GameModel {
        GameModel {
            turn_state: phase_for(GameModel::remaining(self.pending(), resolution)),
            ..self.resolved_body(player, resolution, refill)
        }
    }

    /// The verdict on a forced discard, submitted by the player who is not
    /// active.
    pub open spec fn forced_discard_verdict(self, player: Player, card_index: usize) -> Result<
        (),
        UserActionError,
    > {
        if !has_kind(self.pending(), Effect::OpponentDiscard) {
            Err(UserActionError::NoMatchingEffectToResolve)
        } else if card_index >= self.state_of(player).hand.len() {
            Err(UserActionError::InvalidCardIndex)
        } else {
            Ok(())
        }
    }

    /// The session after a forced discard.
    pub open spec fn forced_discarded(self, player: Player, card_index: usize) -> GameModel {
        let me = self.state_of(player);
        let queue = self.pending();
        GameModel {
            discard_pile: self.discard_pile.push(me.hand[card_index as int]),
            turn_state: phase_for(queue.remove(first_of_kind(queue, Effect::OpponentDiscard))),
            ..self
        }.with_state(player, PlayerModel { hand: me.hand.remove(card_index as int), ..me })
    }

    /// The verdict on passing the turn: a hand of more than five cards has
    /// to be brought down to five.
    pub open spec fn pass_verdict(self, player: Player, indices: Seq<usize>) -> Result<
        (),
        UserActionError,
    > {
        let hand = self.state_of(player).hand;
        if hand.len() <= 5 {
            Ok(())
        } else if hand.len() - 5 != indices.len() {
            Err(UserActionError::WrongNumberOfDiscardIndices)
        } else {
            self.discard_verdict(player, indices)
        }
    }

    /// The session after the turn was passed: the other player is active
    /// and has three action points.
    pub open spec fn passed(self, player: Player, indices: Seq<usize>) -> GameModel {
        let kept = if self.state_of(player).hand.len() > 5 {
            self.discarded(player, indices)
        } else {
            self
        };
        GameModel { actions_left: 3, players_turn: self.players_turn.other(), ..kept }
    }

    /// The verdict on a submission. `Ok` means that it is applied, an
    /// error that it is rejected for that reason.
    pub open spec fn verdict(self, submission: UserActionWithPlayer) -> Result<(), UserActionError> {
        let player = submission.player;
        if self.players_turn == player {
            match (self.turn_state, submission.user_action) {
                (
                    TurnModel::ChoosingAction,
                    UserAction::ChooseAction { action },
                ) => self.action_verdict(player, action),
                (
                    TurnModel::ResolvingEffects { .. },
                    UserAction::ResolveEffect { resolve_effect },
                ) => self.resolution_verdict(player, resolve_effect),
                (
                    TurnModel::ChoosingAction,
                    UserAction::Pass { card_indices_to_discard },
                ) => self.pass_verdict(player, card_indices_to_discard@),
                (
                    TurnModel::ResolvingEffects { effects },
                    UserAction::StopResolvingEffects,
                ) => if has_mandatory(effects) {
                    Err(UserActionError::StillHaveSomeEffectsThatMustBeResolved)
                } else {
                    Ok(())
                },
                _ => Err(UserActionError::InvalidUserAction),
            }
        } else {
            match (self.turn_state, submission.user_action) {
                (
                    TurnModel::ResolvingEffects { .. },
                    UserAction::ResolveEffect {
                        resolve_effect: ResolveEffect::OpponentDiscard { card_index },
                    },
                ) => self.forced_discard_verdict(player, card_index),
                _ => Err(UserActionError::NotYourTurn),
            }
        }
    }

    /// The session that follows an accepted submission, before the queue is
    /// tidied. `refill` stands for the shuffled discard pile and is used
    /// only by a draw from an empty deck.
    pub open spec fn successor(self, submission: UserActionWithPlayer, refill: Seq<Card>) -> GameModel {
        let player = submission.player;
        match submission.user_action {
            UserAction::ChooseAction { action } => self.acted(player, action),
            UserAction::ResolveEffect { resolve_effect } => if self.players_turn == player {
                self.resolved(player, resolve_effect, refill)
            } else {
                match resolve_effect {
                    ResolveEffect::OpponentDiscard { card_index } => self.forced_discarded(
                        player,
                        card_index,
                    ),
                    _ => self,
                }
            },
            UserAction::Pass { card_indices_to_discard } => self.passed(
                player,
                card_indices_to_discard@,
            ),
            UserAction::StopResolvingEffects => GameModel {
                turn_state: TurnModel::ChoosingAction,
                ..self
            },
        }
    }

    /// The session after `submission` was taken: the session that follows
    /// an accepted submission, or the session as it was after a rejected
    /// one, in both cases with its queue tidied. `refill` stands for the
    /// shuffled discard pile and is used only by a draw from an empty deck.
    pub open spec fn outcome(self, submission: UserActionWithPlayer, refill: Seq<Card>) -> GameModel {
        if self.verdict(submission) is Ok {
            self.successor(submission, refill).settled()
        } else {
            self.settled()
        }
    }

    /// Whether the session that follows `submission` can be held: where
    /// the submission is accepted, every counter of the session that
    /// follows fits the machine's counters. The order of a reshuffled deck
    /// plays no part in the counters.
    pub open spec fn successor_fits(self, submission: UserActionWithPlayer) -> bool {
        self.verdict(submission) is Ok ==> self.successor(
            submission,
            self.discard_pile,
        ).representable()
    }

    /// The session without the pending effects that no submission can
    /// resolve.
    pub open spec fn pruned(self) -> GameModel {
        match self.turn_state {
            TurnModel::ChoosingAction => self,
            TurnModel::ResolvingEffects { effects } => GameModel {
                turn_state: TurnModel::ResolvingEffects { effects: effects.filter(resolvable()) },
                ..self
            },
        }
    }

    /// The session without the pending forced discards, where the player
    /// who is not active holds no card; else the session as it is.
    pub open spec fn relieved(self) -> GameModel {
        match self.turn_state {
            TurnModel::ChoosingAction => self,
            TurnModel::ResolvingEffects { effects } => if self.state_of(
                self.players_turn.other(),
            ).hand.len() == 0 {
                GameModel {
                    turn_state: TurnModel::ResolvingEffects { effects: effects.filter(unforced()) },
                    ..self
                }
            } else {
                self
            },
        }
    }

    /// The session with its queue tidied: effects that no submission can
    /// resolve leave the queue, and then the forced discards where the
    /// player who is not active holds no card.
    pub open spec fn settled(self) -> GameModel {
        self.pruned().relieved()
    }
}

} // verus!
