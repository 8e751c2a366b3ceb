//! Room in the machine's counters: a test that a session and a submission
//! can be told to pass before the submission is taken, and an entry point
//! that makes the test itself.

use vstd::prelude::*;

use crate::action::{Action, UserAction, UserActionWithPlayer};
use crate::card::Card;
use crate::effect::ResolveEffect;
use crate::energy::EnergyMap;
use crate::error::UserActionError;
use crate::game::GameState;
use crate::model::{is_shuffle_of, GameModel};
use crate::player::{Player, PlayerModel, PlayerState};
use crate::subsystem::{SystemModel, SystemState};
use crate::system::System;

verus! {

/// How far a counter may be from zero for a session to have room: far
/// enough from the ends of the machine's counters that no submission can
/// reach them.
pub const COUNTER_ROOM: i32 = 500_000_000;

/// Whether `value` is no further from zero than [`COUNTER_ROOM`].
pub open spec fn has_room(value: int) -> bool {
    -COUNTER_ROOM <= value <= COUNTER_ROOM
}

/// Whether every card of `hand` costs no more short circuits, and refunds
/// no more, than [`COUNTER_ROOM`].
pub open spec fn hand_has_room(hand: Seq<Card>) -> bool {
    forall|i: int| 0 <= i < hand.len() ==> has_room((#[trigger] hand[i]).hot_wire_cost.short_circuits as int)
}

impl EnergyMap {
    /// Whether every amount is no further from zero than [`COUNTER_ROOM`].
    pub open spec fn roomy(self) -> bool {
        &&& has_room(self.amount(System::FusionReactor))
        &&& has_room(self.amount(System::LifeSupport))
        &&& has_room(self.amount(System::Weapons))
        &&& has_room(self.amount(System::ShieldGenerator))
    }

    /// Tells whether every amount is no further from zero than
    /// [`COUNTER_ROOM`].
    pub fn is_roomy(&self) -> (roomy: bool)
        ensures
            roomy == self.roomy(),
    {
        within_room(self.amount_of(System::FusionReactor)) && within_room(
            self.amount_of(System::LifeSupport),
        ) && within_room(self.amount_of(System::Weapons)) && within_room(
            self.amount_of(System::ShieldGenerator),
        )
    }
}

/// Tells whether `value` is no further from zero than [`COUNTER_ROOM`].
pub fn within_room(value: i32) -> (roomy: bool)
    ensures
        roomy == has_room(value as int),
{
    -COUNTER_ROOM <= value && value <= COUNTER_ROOM
}

/// Whether `map`, if there is one, has room.
pub open spec fn map_has_room(map: Option<EnergyMap>) -> bool {
    match map {
        Some(map) => map.roomy(),
        None => true,
    }
}

impl UserActionWithPlayer {
    /// Whether the energy maps that the submission carries have room.
    pub open spec fn roomy(self) -> bool {
        match self.user_action {
            UserAction::ChooseAction {
                action: Action::ActivateSystem { energy_to_use, energy_distribution, .. },
            } => map_has_room(energy_to_use) && map_has_room(energy_distribution),
            _ => true,
        }
    }

    /// Tells whether the energy maps that the submission carries have
    /// room.
    pub fn is_roomy(&self) -> (roomy: bool)
        ensures
            roomy == self.roomy(),
    {
        match &self.user_action {
            UserAction::ChooseAction {
                action: Action::ActivateSystem { energy_to_use, energy_distribution, .. },
            } => {
                let sources = match energy_to_use {
                    Some(map) => map.is_roomy(),
                    None => true,
                };
                let distribution = match energy_distribution {
                    Some(map) => map.is_roomy(),
                    None => true,
                };
                sources && distribution
            },
            _ => true,
        }
    }
}

impl SystemModel {
    /// Whether the subsystem has room: its counters are no further from
    /// zero than [`COUNTER_ROOM`] and its derived figures fit the machine's
    /// counters.
    pub open spec fn roomy(self) -> bool {
        &&& has_room(self.energy)
        &&& has_room(self.overloads)
        &&& self.countable()
    }
}

impl PlayerModel {
    /// Whether the player has room: counters, subsystems and the costs of
    /// the hand cards.
    pub open spec fn roomy(self) -> bool {
        &&& has_room(self.hull_damage)
        &&& has_room(self.shields)
        &&& has_room(self.short_circuits)
        &&& hand_has_room(self.hand)
        &&& self.fusion_reactor.roomy()
        &&& self.life_support.roomy()
        &&& self.weapons_system.roomy()
        &&& self.shield_generator.roomy()
    }
}

impl GameModel {
    /// Whether the session has room: both players and the action points.
    pub open spec fn roomy(self) -> bool {
        &&& self.player1.roomy()
        &&& self.player2.roomy()
        &&& has_room(self.actions_left)
    }
}

impl SystemState {
    /// Tells whether the subsystem has room.
    pub fn is_roomy(&self) -> (roomy: bool)
        ensures
            roomy == self@.roomy(),
    {
        within_room(self.energy) && within_room(self.overloads) && self.get_hot_wire_effects().len()
            <= i32::MAX as usize
    }
}

impl PlayerState {
    /// Tells whether the player has room.
    pub fn is_roomy(&self) -> (roomy: bool)
        ensures
            roomy == self@.roomy(),
    {
        let mut i: usize = 0;
        while i < self.hand.len()
            invariant
                i <= self.hand@.len(),
                forall|k: int|
                    0 <= k < i ==> has_room(
                        (#[trigger] self.hand@[k]).hot_wire_cost.short_circuits as int,
                    ),
            decreases self.hand@.len() - i,
        {
            if !within_room(self.hand[i].hot_wire_cost.short_circuits) {
                return false;
            }
            i += 1;
        }
        within_room(self.hull_damage) && within_room(self.shields) && within_room(
            self.short_circuits,
        ) && self.fusion_reactor.is_roomy() && self.life_support.is_roomy()
            && self.weapons_system.is_roomy() && self.shield_generator.is_roomy()
    }
}

/// An installation in a session with room leaves counters that fit the
/// machine's counters.
pub proof fn lemma_install_fits(
    session: GameModel,
    player: Player,
    card_index: usize,
    system: System,
    indices: Seq<usize>,
)
    requires
        session.roomy(),
        session.install_verdict(player, card_index, system, indices) is Ok,
    ensures
        session.installed(player, card_index, system, indices).representable(),
{
}

/// An activation in a session with room, with energy maps that have room,
/// leaves counters that fit the machine's counters.
pub proof fn lemma_activation_fits(
    session: GameModel,
    player: Player,
    system: System,
    energy_to_use: Option<EnergyMap>,
    energy_distribution: Option<EnergyMap>,
)
    requires
        session.roomy(),
        map_has_room(energy_to_use),
        map_has_room(energy_distribution),
        session.activate_verdict(player, system, energy_to_use, energy_distribution) is Ok,
    ensures
        session.activated(
            player,
            system,
            energy_to_use,
            energy_distribution,
        ).representable(),
{
}

/// An action in a session with room leaves counters that fit the
/// machine's counters.
pub proof fn lemma_action_fits(session: GameModel, submission: UserActionWithPlayer)
    requires
        session.roomy(),
        submission.roomy(),
        submission.user_action is ChooseAction,
        session.action_verdict(submission.player, submission.user_action->action) is Ok,
    ensures
        session.acted(submission.player, submission.user_action->action).representable(),
{
    let player = submission.player;
    match submission.user_action->action {
        Action::HotWireCard { card_index, system, indices_to_discard } => {
            lemma_install_fits(session, player, card_index, system, indices_to_discard@);
        },
        Action::ActivateSystem { system, energy_to_use, energy_distribution } => {
            lemma_activation_fits(session, player, system, energy_to_use, energy_distribution);
        },
        _ => {},
    }
}

/// Moving a unit of energy, for a player with room, leaves counters that
/// fit the machine's counters.
pub proof fn lemma_move_fits(me: PlayerModel, from: System, to: System)
    requires
        me.roomy(),
    ensures
        me.moved(from, to).representable(),
{
}

/// A resolution in a session with room leaves counters that fit the
/// machine's counters.
pub proof fn lemma_resolution_fits(
    session: GameModel,
    player: Player,
    resolution: ResolveEffect,
    refill: Seq<Card>,
)
    requires
        session.roomy(),
        session.resolution_verdict(player, resolution) is Ok,
    ensures
        session.resolved(player, resolution, refill).representable(),
{
    let me = session.state_of(player);
    let opponent = session.state_of(player.other());
    match resolution {
        ResolveEffect::PlayHotWire { card_index, system, indices_to_discard } => {
            lemma_install_fits(session, player, card_index, system, indices_to_discard@);
        },
        ResolveEffect::OpponentMoveEnergy { from_system, to_system } => {
            lemma_move_fits(opponent, from_system, to_system);
        },
        ResolveEffect::MoveEnergy { from_system, to_system } => {
            lemma_move_fits(me, from_system, to_system);
        },
        ResolveEffect::MoveEnergyTo { from_system, to_system } => {
            lemma_move_fits(me, from_system, to_system);
        },
        _ => {},
    }
}

/// Room suffices: a session with room can take every submission whose
/// energy maps have room.
pub proof fn lemma_room_suffices(session: GameModel, submission: UserActionWithPlayer)
    requires
        session.roomy(),
        submission.roomy(),
    ensures
        session.countable(),
        session.successor_fits(submission),
{
    let player = submission.player;
    if session.verdict(submission) is Ok {
        match submission.user_action {
            UserAction::ChooseAction { action } => {
                lemma_action_fits(session, submission);
            },
            UserAction::ResolveEffect { resolve_effect } => {
                if session.players_turn == player {
                    lemma_resolution_fits(session, player, resolve_effect, session.discard_pile);
                }
            },
            _ => {},
        }
    }
}

impl GameState {
    /// Tells whether the session has room for `submission`: then the
    /// session can take it.
    pub fn has_room_for(&self, submission: &UserActionWithPlayer) -> (roomy: bool)
        ensures
            roomy == (self@.roomy() && submission.roomy()),
            roomy ==> self@.countable() && self@.successor_fits(*submission),
    {
        let roomy = self.player1.is_roomy() && self.player2.is_roomy() && within_room(
            self.actions_left,
        ) && submission.is_roomy();
        proof {
            if roomy {
                lemma_room_suffices(self@, *submission);
            }
        }
        roomy
    }

    /// Takes one submission where the session has room for it, and tells
    /// with `None` that it has not. With room the outcome is that of
    /// [`GameState::receive_user_action`]; without room nothing changes.
    pub fn try_receive_user_action(&mut self, user_action_with_player: UserActionWithPlayer) -> (outcome:
        Option<Result<(), UserActionError>>)
        ensures
            outcome is Some <==> old(self)@.roomy() && user_action_with_player.roomy(),
            outcome is None ==> *final(self) == *old(self),
            outcome is Some ==> outcome->0 == old(self)@.verdict(user_action_with_player),
            outcome is Some ==> exists|refill: Seq<Card>| #[trigger]
                is_shuffle_of(refill, old(self)@.discard_pile) && final(self)@ == old(
                    self,
                )@.outcome(user_action_with_player, refill),
            final(self)@.total_cards() == old(self)@.total_cards(),
            outcome matches Some(Err(_)) && old(self)@.is_tidy() ==> *final(self) == *old(self),
    {
        if self.has_room_for(&user_action_with_player) {
            Some(self.receive_user_action(user_action_with_player))
        } else {
            None
        }
    }
}

} // verus!
