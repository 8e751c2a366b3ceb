//! A player that picks its submissions by chance.

use rand::thread_rng;
use vstd::prelude::*;

use crate::action::{Action, UserAction, UserActionWithPlayer};
use crate::card::Card;
use crate::effect::{Effect, ResolveEffect};
use crate::energy::EnergyMap;
use crate::game::GameState;
use crate::model::GameModel;
use crate::random::random_below;
use crate::system::System;

verus! {

/// The positions `1, 2, ..., count`.
pub open spec fn counting_from_one(count: usize) -> Seq<usize> {
    Seq::new(count as nat, |i: int| (i + 1) as usize)
}

/// The positions `0, 1, ..., count - 1`.
pub open spec fn counting_from_zero(count: usize) -> Seq<usize> {
    Seq::new(count as nat, |i: int| i as usize)
}

/// Returns the positions `1, 2, ..., count`.
pub fn positions_from_one(count: usize) -> (positions: Vec<usize>)
    ensures
        positions@ == counting_from_one(count),
{
    let mut positions: Vec<usize> = Vec::new();
    let mut i: usize = 0;
    while i < count
        invariant
            i <= count,
            positions@ =~= counting_from_one(i),
        decreases count - i,
    {
        i += 1;
        positions.push(i);
    }
    positions
}

/// Returns the positions `0, 1, ..., count - 1`.
pub fn positions_from_zero(count: usize) -> (positions: Vec<usize>)
    ensures
        positions@ == counting_from_zero(count),
{
    let mut positions: Vec<usize> = Vec::new();
    let mut i: usize = 0;
    while i < count
        invariant
            i <= count,
            positions@ =~= counting_from_zero(i),
        decreases count - i,
    {
        positions.push(i);
        i += 1;
    }
    positions
}

/// The subsystem that a roll of four stands for.
pub open spec fn system_of_roll(roll: usize) -> System {
    if roll == 0 {
        System::FusionReactor
    } else if roll == 1 {
        System::ShieldGenerator
    } else if roll == 2 {
        System::LifeSupport
    } else {
        System::Weapons
    }
}

/// Returns the subsystem that a roll of four stands for.
pub fn system_for_roll(roll: usize) -> (system: System)
    ensures
        system == system_of_roll(roll),
{
    match roll {
        0 => System::FusionReactor,
        1 => System::ShieldGenerator,
        2 => System::LifeSupport,
        _ => System::Weapons,
    }
}

/// Picks a number below `options` by chance.
pub fn random_option(options: usize) -> (choice: usize)
    requires
        options > 0,
    ensures
        choice < options,
{
    let mut generator = thread_rng();
    random_below(options, &mut generator)
}

/// Picks a subsystem by chance: the one that a roll of four stands for.
/// Every subsystem can come out.
pub fn random_system() -> (system: System)
    ensures
        exists|roll: usize| roll < 4 && system == system_of_roll(roll),
{
    system_for_roll(random_option(4))
}

/// The number of actions to pick from: installing and playing a card need
/// a card in the hand.
pub open spec fn action_options(hand: Seq<Card>) -> usize {
    if hand.len() == 0 {
        3
    } else {
        5
    }
}

/// How many hand cards a player with `held` cards has over five.
pub open spec fn overflow(held: nat) -> usize {
    if held > 5 {
        (held - 5) as usize
    } else {
        0
    }
}

/// Whether `distribution` is the one that the player by chance gives with
/// a reactor activation: two units each on weapons and life support, one
/// on the shield generator, and on the reactor what it can store beyond
/// five.
pub open spec fn is_standard_distribution(allowed: int, distribution: EnergyMap) -> bool {
    &&& distribution.weapons == Some(2i32)
    &&& distribution.life_support == Some(2i32)
    &&& distribution.shield_generator == Some(1i32)
    &&& distribution.fusion_reactor is Some
    &&& distribution.fusion_reactor->0 == allowed - 5
}

/// Whether `action` is what the player by chance does on `roll`, with
/// `system` as the subsystem picked. With a card in the hand the rolls
/// stand for: activate, discard an overload, install the first hand card
/// with the cards behind it as its discards, play the first hand card,
/// reduce short circuits. With an empty hand: activate, discard an
/// overload, reduce short circuits.
pub open spec fn is_action_for(session: GameModel, roll: usize, system: System, action: Action) -> bool {
    let me = session.state_of(session.players_turn);
    if roll == 0 {
        &&& action matches Action::ActivateSystem { system: s, energy_to_use, energy_distribution }
        &&& s == system
        &&& energy_to_use is None
        &&& if system == System::FusionReactor {
            energy_distribution is Some && is_standard_distribution(
                me.fusion_reactor.allowed_energy(),
                energy_distribution->0,
            )
        } else {
            energy_distribution is None
        }
    } else if roll == 1 {
        action matches Action::DiscardOverload { system: s } && s == system
    } else if me.hand.len() > 0 && roll == 2 {
        &&& action matches Action::HotWireCard { card_index, system: s, indices_to_discard }
        &&& card_index == 0
        &&& s == system
        &&& indices_to_discard@ == counting_from_one(me.hand[0].hot_wire_cost.cards_to_discard)
    } else if me.hand.len() > 0 && roll == 3 {
        action matches Action::PlayInstantCard { card_index } && card_index == 0
    } else {
        action is ReduceShortCircuits
    }
}

/// Whether `resolution` is what the player by chance answers `effect`
/// with, `first` and `second` being the subsystems picked. An effect that
/// no submission can resolve gets no answer, and neither does an
/// installation while the hand is empty.
pub open spec fn is_resolution_for(
    effect: Effect,
    hand: Seq<Card>,
    first: System,
    second: System,
    resolution: Option<ResolveEffect>,
) -> bool {
    match effect {
        Effect::GainShortCircuit => resolution == Some(ResolveEffect::GainShortCircuit),
        Effect::LoseShortCircuit => resolution == Some(ResolveEffect::LoseShortCircuit),
        Effect::Shield => resolution == Some(ResolveEffect::Shield),
        Effect::Attack => resolution == Some(ResolveEffect::Attack),
        Effect::DiscardOverload => resolution == Some(
            ResolveEffect::DiscardOverload { system: first },
        ),
        Effect::GainAction => resolution == Some(ResolveEffect::GainAction),
        Effect::PlayHotWire => if hand.len() == 0 {
            resolution is None
        } else {
            &&& resolution matches Some(
                ResolveEffect::PlayHotWire { card_index, system, indices_to_discard },
            )
            &&& card_index == 0
            &&& system == first
            &&& indices_to_discard@ == counting_from_one(hand[0].hot_wire_cost.cards_to_discard)
        },
        Effect::Draw => resolution == Some(ResolveEffect::Draw),
        Effect::OpponentDiscard => resolution == Some(
            ResolveEffect::OpponentDiscard { card_index: 0 },
        ),
        Effect::OpponentGainShortCircuit => resolution == Some(
            ResolveEffect::OpponentGainShortCircuit,
        ),
        Effect::OpponentLoseShield => resolution == Some(ResolveEffect::OpponentLoseShield),
        Effect::OpponentMoveEnergy => resolution == Some(
            ResolveEffect::OpponentMoveEnergy { from_system: first, to_system: second },
        ),
        Effect::OpponentGainOverload => resolution == Some(
            ResolveEffect::OpponentGainOverload { system: first },
        ),
        Effect::MoveEnergy => resolution == Some(
            ResolveEffect::MoveEnergy { from_system: first, to_system: second },
        ),
        Effect::MoveEnergyTo(to_system) => resolution == Some(
            ResolveEffect::MoveEnergyTo { from_system: first, to_system },
        ),
        Effect::BypassShield => resolution == Some(ResolveEffect::BypassShield),
        Effect::StoreMoreEnergy
        | Effect::UseMoreEnergy
        | Effect::UseLessEnergy
        | Effect::UseSystemCards(_)
        | Effect::DrawPowerFrom(_) => resolution is None,
    }
}

/// Whether `submission` passes the turn of the active player and discards
/// the first hand cards beyond five.
pub open spec fn is_pass_for(session: GameModel, submission: UserActionWithPlayer) -> bool {
    &&& submission.player == session.players_turn
    &&& submission.user_action matches UserAction::Pass { card_indices_to_discard }
    &&& card_indices_to_discard@ == counting_from_zero(
        overflow(session.state_of(session.players_turn).hand.len()),
    )
}

impl Effect {
    /// Returns the resolution that answers this effect, with `first` and
    /// `second` as the subsystems to name.
    pub fn resolution_with(&self, game_state: &GameState, first: System, second: System) -> (resolution:
        Option<ResolveEffect>)
        ensures
            is_resolution_for(
                *self,
                game_state@.state_of(game_state@.players_turn).hand,
                first,
                second,
                resolution,
            ),
    {
        let my_state = game_state.my_state_immut(game_state.players_turn);
        match self {
            Effect::GainShortCircuit => Some(ResolveEffect::GainShortCircuit),
            Effect::LoseShortCircuit => Some(ResolveEffect::LoseShortCircuit),
            Effect::Shield => Some(ResolveEffect::Shield),
            Effect::Attack => Some(ResolveEffect::Attack),
            Effect::DiscardOverload => Some(ResolveEffect::DiscardOverload { system: first }),
            Effect::GainAction => Some(ResolveEffect::GainAction),
            Effect::PlayHotWire => {
                if my_state.hand.len() == 0 {
                    return None;
                }
                let cards_to_discard = my_state.hand[0].hot_wire_cost.cards_to_discard;
                Some(
                    ResolveEffect::PlayHotWire {
                        card_index: 0,
                        system: first,
                        indices_to_discard: positions_from_one(cards_to_discard),
                    },
                )
            },
            Effect::Draw => Some(ResolveEffect::Draw),
            Effect::OpponentGainShortCircuit => Some(ResolveEffect::OpponentGainShortCircuit),
            Effect::OpponentLoseShield => Some(ResolveEffect::OpponentLoseShield),
            Effect::OpponentMoveEnergy => Some(
                ResolveEffect::OpponentMoveEnergy { from_system: first, to_system: second },
            ),
            Effect::OpponentGainOverload => Some(
                ResolveEffect::OpponentGainOverload { system: first },
            ),
            Effect::MoveEnergy => Some(
                ResolveEffect::MoveEnergy { from_system: first, to_system: second },
            ),
            Effect::MoveEnergyTo(to_system) => Some(
                ResolveEffect::MoveEnergyTo { from_system: first, to_system: *to_system },
            ),
            Effect::OpponentDiscard => Some(ResolveEffect::OpponentDiscard { card_index: 0 }),
            Effect::BypassShield => Some(ResolveEffect::BypassShield),
            Effect::StoreMoreEnergy
            | Effect::UseMoreEnergy
            | Effect::UseLessEnergy
            | Effect::UseSystemCards(_)
            | Effect::DrawPowerFrom(_) => None,
        }
    }

    /// Returns a resolution that answers this effect, with subsystems
    /// picked by chance.
    pub fn get_resolution(&self, game_state: &GameState) -> (resolution: Option<ResolveEffect>)
        ensures
            exists|first: System, second: System|
                is_resolution_for(
                    *self,
                    game_state@.state_of(game_state@.players_turn).hand,
                    first,
                    second,
                    resolution,
                ),
    {
        let first = random_system();
        let second = random_system();
        self.resolution_with(game_state, first, second)
    }
}

/// Returns the submission that passes the turn of the active player and
/// discards the first hand cards beyond five.
pub fn pass_for(game_state: &GameState) -> (submission: UserActionWithPlayer)
    ensures
        is_pass_for(game_state@, submission),
{
    let player = game_state.players_turn;
    let held = game_state.my_state_immut(player).hand.len();
    let beyond = if held > 5 {
        held - 5
    } else {
        0
    };
    UserActionWithPlayer {
        player,
        user_action: UserAction::Pass { card_indices_to_discard: positions_from_zero(beyond) },
    }
}

/// Returns the action that the player by chance takes on `roll`, with
/// `system` as the subsystem picked.
pub fn action_for_roll(game_state: &GameState, roll: usize, system: System) -> (action: Action)
    requires
        game_state@.countable(),
    ensures
        is_action_for(game_state@, roll, system, action),
{
    let my_state = game_state.my_state_immut(game_state.players_turn);
    let holds_cards = my_state.hand.len() > 0;
    if roll == 0 {
        let mut energy_distribution = None;
        if system == System::FusionReactor {
            let total = my_state.fusion_reactor.get_allowed_energy();
            let mut distribution = EnergyMap::new();
            distribution.insert(System::Weapons, 2);
            distribution.insert(System::LifeSupport, 2);
            distribution.insert(System::ShieldGenerator, 1);
            distribution.insert(System::FusionReactor, total - 5);
            energy_distribution = Some(distribution);
        }
        Action::ActivateSystem { system, energy_to_use: None, energy_distribution }
    } else if roll == 1 {
        Action::DiscardOverload { system }
    } else if holds_cards && roll == 2 {
        let cards_to_discard = my_state.hand[0].hot_wire_cost.cards_to_discard;
        Action::HotWireCard {
            card_index: 0,
            system,
            indices_to_discard: positions_from_one(cards_to_discard),
        }
    } else if holds_cards && roll == 3 {
        Action::PlayInstantCard { card_index: 0 }
    } else {
        Action::ReduceShortCircuits
    }
}

/// Whether `submission` resolves the pending effect at place `i` as the
/// player by chance does, `first` and `second` being the subsystems
/// picked: the active player submits it, but a forced discard the other
/// player.
pub open spec fn is_answer_to(
    session: GameModel,
    i: int,
    first: System,
    second: System,
    submission: UserActionWithPlayer,
) -> bool {
    &&& 0 <= i < session.pending().len()
    &&& submission.user_action is ResolveEffect
    &&& is_resolution_for(
        session.pending()[i],
        session.state_of(session.players_turn).hand,
        first,
        second,
        Some(submission.user_action->resolve_effect),
    )
    &&& submission.player == if submission.user_action->resolve_effect is OpponentDiscard {
        session.players_turn.other()
    } else {
        session.players_turn
    }
}

/// Picks the next submission by chance. With no action point left the
/// active player passes. While an action is to be chosen, one is picked.
/// While effects are pending, the first one for which an accepted
/// resolution is found is resolved, a forced discard by the player who is
/// not active; where none is found, the active player stops resolving.
pub fn get_user_action(game_state: &GameState) -> (submission: UserActionWithPlayer)
    requires
        game_state@.countable(),
    ensures
        game_state@.turn_state is ChoosingAction && game_state@.actions_left == 0 ==> is_pass_for(
            game_state@,
            submission,
        ),
        game_state@.turn_state is ChoosingAction && game_state@.actions_left != 0 ==> {
            &&& submission.player == game_state@.players_turn
            &&& submission.user_action is ChooseAction
            &&& exists|roll: usize, system: System|
                roll < action_options(game_state@.state_of(game_state@.players_turn).hand)
                    && is_action_for(game_state@, roll, system, submission.user_action->action)
        },
        game_state@.turn_state is ResolvingEffects ==> {
            ||| submission.player == game_state@.players_turn
                && submission.user_action is StopResolvingEffects
            ||| game_state@.verdict(submission) is Ok && exists|i: int, first: System, second: System|
                is_answer_to(game_state@, i, first, second, submission)
        },
{
    let player = game_state.players_turn;
    if game_state.is_choosing_action() {
        if game_state.actions_left == 0 {
            return pass_for(game_state);
        }
        let options: usize = if game_state.my_state_immut(player).hand.len() == 0 {
            3
        } else {
            5
        };
        let roll = random_option(options);
        let system = random_system();
        let action = action_for_roll(game_state, roll, system);
        return UserActionWithPlayer { player, user_action: UserAction::ChooseAction { action } };
    }
    let queue = game_state.pending_effects();
    let mut i: usize = 0;
    while i < queue.len()
        invariant
            i <= queue@.len(),
            queue@ == game_state@.pending(),
            player == game_state@.players_turn,
            game_state@.countable(),
        decreases queue@.len() - i,
    {
        if let Some(resolve_effect) = queue[i].get_resolution(game_state) {
            let by = match resolve_effect {
                ResolveEffect::OpponentDiscard { .. } => player.other_player(),
                _ => player,
            };
            let candidate = UserActionWithPlayer {
                player: by,
                user_action: UserAction::ResolveEffect { resolve_effect },
            };
            if game_state.check_user_action(&candidate).is_ok() {
                proof {
                    let (first, second) = choose|first: System, second: System|
                        is_resolution_for(
                            queue@[i as int],
                            game_state@.state_of(game_state@.players_turn).hand,
                            first,
                            second,
                            Some(resolve_effect),
                        );
                    assert(is_answer_to(game_state@, i as int, first, second, candidate));
                }
                return candidate;
            }
        }
        i += 1;
    }
    UserActionWithPlayer { player, user_action: UserAction::StopResolvingEffects }
}

} // verus!
