//! The session: two players, the shared cards, and the turn state machine
//! that takes one submission at a time.

use vstd::prelude::*;

use crate::card::Card;
use crate::cards::{get_deck, is_shuffled_deck, lemma_shuffled_deck_costs, DECK_SIZE};
use crate::effect::Effect;
use crate::error::UserActionError;
use crate::laws::{law_dealt_session_is_sound, lemma_filter_same_len};
use crate::model::{resolvable, unforced, GameModel, TurnModel};
use crate::player::{Player, PlayerModel, PlayerState};
use crate::positions::{can_remove, holds_index, move_cards, renumber, sort_descending};
use crate::subsystem::holds_system;
use crate::system::System;

verus! {

/// Where the turn stands.
#[derive(Clone, Debug, Eq, PartialEq)]
pub enum TurnState {
    /// The active player chooses the next action.
    ChoosingAction,
    /// Effects wait to be resolved.
    ResolvingEffects { effects: Vec<Effect> },
}

/// One game session.
#[derive(Clone, Debug, PartialEq, Eq)]
pub struct GameState {
    pub player1: PlayerState,
    pub player2: PlayerState,
    /// The cards to draw from; the top card is the last one.
    pub deck: Vec<Card>,
    pub discard_pile: Vec<Card>,
    /// The active player.
    pub players_turn: Player,
    /// The action points that the active player has left.
    pub actions_left: i32,
    pub turn_state: TurnState,
}

impl View for TurnState {
    type V = TurnModel;

    open spec fn view(&self) -> TurnModel {
        match self {
            TurnState::ChoosingAction => TurnModel::ChoosingAction,
            TurnState::ResolvingEffects { effects } => TurnModel::ResolvingEffects {
                effects: effects@,
            },
        }
    }
}

impl View for GameState {
    type V = GameModel;

    open spec fn view(&self) -> GameModel {
        GameModel {
            player1: self.player1@,
            player2: self.player2@,
            deck: self.deck@,
            discard_pile: self.discard_pile@,
            players_turn: self.players_turn,
            actions_left: self.actions_left as int,
            turn_state: self.turn_state@,
        }
    }
}

/// Returns the effects of `effects` that a submission can resolve, in
/// their order.
pub fn keep_resolvable(effects: &Vec<Effect>) -> (kept: Vec<Effect>)
    ensures
        kept@ == effects@.filter(resolvable()),
{
    let mut kept: Vec<Effect> = Vec::new();
    let mut i: usize = 0;
    proof {
        reveal(Seq::filter);
    }
    while i < effects.len()
        invariant
            i <= effects@.len(),
            kept@ == effects@.take(i as int).filter(resolvable()),
        decreases effects@.len() - i,
    {
        proof {
            let before = effects@.take(i as int);
            assert(effects@.take(i + 1) =~= before.push(effects@[i as int]));
            before.lemma_filter_push(effects@[i as int], resolvable());
        }
        if effects[i].has_immediate_effect() {
            kept.push(effects[i]);
        }
        i += 1;
    }
    assert(effects@.take(i as int) =~= effects@);
    kept
}

/// Returns the effects of `effects` that are no forced discard, in their
/// order.
pub fn drop_forced_discards(effects: &Vec<Effect>) -> (kept: Vec<Effect>)
    ensures
        kept@ == effects@.filter(unforced()),
{
    let mut kept: Vec<Effect> = Vec::new();
    let mut i: usize = 0;
    proof {
        reveal(Seq::filter);
    }
    while i < effects.len()
        invariant
            i <= effects@.len(),
            kept@ == effects@.take(i as int).filter(unforced()),
        decreases effects@.len() - i,
    {
        proof {
            let before = effects@.take(i as int);
            assert(effects@.take(i + 1) =~= before.push(effects@[i as int]));
            before.lemma_filter_push(effects@[i as int], unforced());
        }
        if effects[i] != Effect::OpponentDiscard {
            kept.push(effects[i]);
        }
        i += 1;
    }
    assert(effects@.take(i as int) =~= effects@);
    kept
}

/// Takes the first `count` cards off `deck` and returns them in their
/// order.
pub fn take_front(deck: &mut Vec<Card>, count: usize) -> (taken: Vec<Card>)
    requires
        count <= old(deck)@.len(),
    ensures
        taken@ == old(deck)@.subrange(0, count as int),
        final(deck)@ == old(deck)@.subrange(count as int, old(deck)@.len() as int),
{
    let mut taken: Vec<Card> = Vec::new();
    let mut i: usize = 0;
    while i < count
        invariant
            i <= count <= old(deck)@.len(),
            taken@ =~= old(deck)@.subrange(0, i as int),
            deck@ =~= old(deck)@.subrange(i as int, old(deck)@.len() as int),
        decreases count - i,
    {
        let card = deck.remove(0);
        taken.push(card);
        i += 1;
    }
    taken
}

impl GameModel {
    /// The session at its start, dealt from `deck`: the first three cards
    /// are the hand of the first player, the next three the hand of the
    /// second, the rest is the deck. The first player is active and has
    /// three action points.
    pub open spec fn dealt(deck: Seq<Card>) -> GameModel {
        GameModel {
            player1: PlayerModel { hand: deck.subrange(0, 3), ..PlayerModel::start() },
            player2: PlayerModel { hand: deck.subrange(3, 6), ..PlayerModel::start() },
            deck: deck.subrange(6, deck.len() as int),
            discard_pile: Seq::empty(),
            players_turn: Player::Player1,
            actions_left: 3,
            turn_state: TurnModel::ChoosingAction,
        }
    }
}

impl GameState {
    /// Deals a session from `deck`.
    pub fn deal(deck: Vec<Card>) -> (state: GameState)
        requires
            deck@.len() >= 6,
        ensures
            state@ == GameModel::dealt(deck@),
    {
        let mut deck = deck;
        let ghost whole = deck@;
        let mut player1 = PlayerState::start_state();
        let mut player2 = PlayerState::start_state();
        player1.hand = take_front(&mut deck, 3);
        player2.hand = take_front(&mut deck, 3);
        assert(player2.hand@ =~= whole.subrange(3, 6));
        assert(deck@ =~= whole.subrange(6, whole.len() as int));
        GameState {
            players_turn: Player::Player1,
            turn_state: TurnState::ChoosingAction,
            player1,
            player2,
            deck,
            discard_pile: Vec::new(),
            actions_left: 3,
        }
    }

    /// Starts a session: shuffles a deck and deals it. The session starts
    /// with twenty-five cards, within all caps, with no negative counter,
    /// with a tidy queue and with room in its counters.
    pub fn start_state() -> (state: GameState)
        ensures
            exists|deck: Seq<Card>| #[trigger] is_shuffled_deck(deck) && state@ == GameModel::dealt(deck),
            state@.total_cards() == DECK_SIZE,
            state@.is_tidy(),
            state@.shields_within_caps(),
            state@.energy_within_caps(),
            state@.nonnegative(),
            state@.roomy(),
    {
        let deck = get_deck();
        let ghost shuffled = deck@;
        let state = GameState::deal(deck);
        proof {
            law_dealt_session_is_sound(shuffled);
            lemma_shuffled_deck_costs(shuffled);
        }
        state
    }

    /// What [`GameState::my_state`] hands out.
    pub open spec fn player_of(self, player: Player) -> PlayerState {
        match player {
            Player::Player1 => self.player1,
            Player::Player2 => self.player2,
        }
    }

    /// The session with the holdings of `player` replaced.
    pub open spec fn with_player_of(self, player: Player, state: PlayerState) -> GameState {
        match player {
            Player::Player1 => GameState { player1: state, ..self },
            Player::Player2 => GameState { player2: state, ..self },
        }
    }

    /// Returns what `player` holds.
    pub fn my_state_immut(&self, player: Player) -> (state: &PlayerState)
        ensures
            *state == self.player_of(player),
            state@ == self@.state_of(player),
    {
        match player {
            Player::Player1 => &self.player1,
            Player::Player2 => &self.player2,
        }
    }

    /// Returns what `player` holds, for change; nothing else of the session
    /// changes through it.
    pub fn my_state(&mut self, player: Player) -> (state: &mut PlayerState)
        ensures
            *state == old(self).player_of(player),
            *final(self) == old(self).with_player_of(player, *final(state)),
            final(self)@ == old(self)@.with_state(player, final(state)@),
    {
        match player {
            Player::Player1 => &mut self.player1,
            Player::Player2 => &mut self.player2,
        }
    }

    /// Returns what the opponent of `player` holds, for change; nothing
    /// else of the session changes through it.
    pub fn opponent_state(&mut self, player: Player) -> (state: &mut PlayerState)
        ensures
            *state == old(self).player_of(player.other()),
            *final(self) == old(self).with_player_of(player.other(), *final(state)),
            final(self)@ == old(self)@.with_state(player.other(), final(state)@),
    {
        match player {
            Player::Player1 => &mut self.player2,
            Player::Player2 => &mut self.player1,
        }
    }

    /// Drops the pending effects that no submission can resolve. Where
    /// there is none to drop, the session is left untouched.
    pub fn remove_effects_without_immediate_effects(&mut self)
        ensures
            final(self)@ == old(self)@.pruned(),
            old(self)@.pruned() == old(self)@ ==> *final(self) == *old(self),
    {
        if let TurnState::ResolvingEffects { effects } = &self.turn_state {
            let kept = keep_resolvable(effects);
            proof {
                lemma_filter_same_len(effects@, resolvable());
            }
            if kept.len() != effects.len() {
                self.turn_state = TurnState::ResolvingEffects { effects: kept };
            }
        }
    }

    /// Drops the pending forced discards where the player who is not active
    /// holds no card. Where there is none to drop, the session is left
    /// untouched.
    pub fn remove_opponent_discards_if_no_cards(&mut self)
        ensures
            final(self)@ == old(self)@.relieved(),
            old(self)@.relieved() == old(self)@ ==> *final(self) == *old(self),
    {
        if self.my_state_immut(self.players_turn.other_player()).hand.len() == 0 {
            if let TurnState::ResolvingEffects { effects } = &self.turn_state {
                let kept = drop_forced_discards(effects);
                proof {
                    lemma_filter_same_len(effects@, unforced());
                }
                if kept.len() != effects.len() {
                    self.turn_state = TurnState::ResolvingEffects { effects: kept };
                }
            }
        }
    }

    /// Tells whether `player` can discard the hand cards at `indices`.
    pub fn can_discard(&self, player: Player, indices: &Vec<usize>) -> (result: Result<
        (),
        UserActionError,
    >)
        ensures
            result == self@.discard_verdict(player, indices@),
    {
        let positions = sort_descending(indices);
        if can_remove(self.my_state_immut(player).hand.len(), &positions) {
            Ok(())
        } else {
            Err(UserActionError::InvalidDiscardIndices)
        }
    }

    /// Moves the hand cards of `player` at `card_indices` to the discard
    /// pile, highest position first. Each position counts the hand as the
    /// earlier removals left it; where one of them names no card, nothing
    /// is moved.
    pub fn discard(&mut self, player: Player, card_indices: Vec<usize>) -> (result: Result<
        (),
        UserActionError,
    >)
        ensures
            result == old(self)@.discard_verdict(player, card_indices@),
            result is Ok ==> final(self)@ == old(self)@.discarded(player, card_indices@),
            result is Err ==> *final(self) == *old(self),
    {
        let positions = sort_descending(&card_indices);
        if !can_remove(self.my_state_immut(player).hand.len(), &positions) {
            return Err(UserActionError::InvalidDiscardIndices);
        }
        match player {
            Player::Player1 => move_cards(&mut self.player1.hand, &mut self.discard_pile, &positions),
            Player::Player2 => move_cards(&mut self.player2.hand, &mut self.discard_pile, &positions),
        }
        Ok(())
    }

    /// Tells whether `player` can install the hand card at `card_index` on
    /// `system` while discarding the hand cards at `indices`.
    pub fn can_hot_wire_card(
        &self,
        card_index: usize,
        system: System,
        indices: &Vec<usize>,
        player: Player,
    ) -> (result: Result<(), UserActionError>)
        ensures
            result == self@.install_verdict(player, card_index, system, indices@),
    {
        let me = self.my_state_immut(player);
        if card_index >= me.hand.len() {
            return Err(UserActionError::InvalidCardIndex);
        }
        let card = &me.hand[card_index];
        if let Some(card_system) = card.system {
            let allowed = me.system_state(system).get_allowed_system_cards();
            if !holds_system(&allowed, card_system) {
                return Err(UserActionError::CannotHotWireCardOnThisSystem);
            }
        }
        if card.hot_wire_cost.cards_to_discard > me.hand.len() - 1 {
            return Err(UserActionError::NotEnoughCardsToDiscard);
        }
        if holds_index(indices, card_index) {
            return Err(UserActionError::DiscardingCardPlayed);
        }
        if indices.len() != card.hot_wire_cost.cards_to_discard {
            return Err(UserActionError::WrongNumberOfDiscardIndices);
        }
        let positions = sort_descending(&renumber(indices, card_index));
        if !can_remove(me.hand.len() - 1, &positions) {
            return Err(UserActionError::InvalidDiscardIndices);
        }
        Ok(())
    }

    /// Installs the hand card of `player` at `card_index` on `system`: the
    /// card goes to the subsystem, its short-circuit cost is paid, and the
    /// hand cards at `indices_to_discard` go to the discard pile. The
    /// indices count the hand as it is before the card leaves it. Where a
    /// rule is broken, nothing changes.
    pub fn hot_wire_card(
        &mut self,
        card_index: usize,
        system: System,
        indices_to_discard: Vec<usize>,
        player: Player,
    ) -> (result: Result<(), UserActionError>)
        requires
            old(self)@.install_verdict(player, card_index, system, indices_to_discard@) is Ok
                ==> old(self)@.installed(
                player,
                card_index,
                system,
                indices_to_discard@,
            ).representable(),
        ensures
            result == old(self)@.install_verdict(player, card_index, system, indices_to_discard@),
            result is Ok ==> final(self)@ == old(self)@.installed(
                player,
                card_index,
                system,
                indices_to_discard@,
            ),
            result is Err ==> *final(self) == *old(self),
    {
        match self.can_hot_wire_card(card_index, system, &indices_to_discard, player) {
            Err(error) => {
                return Err(error);
            },
            Ok(()) => {},
        }
        let positions = sort_descending(&renumber(&indices_to_discard, card_index));
        let me = self.my_state(player);
        let card = me.hand.remove(card_index);
        let paid = me.short_circuits as i64 + card.hot_wire_cost.short_circuits as i64;
        me.short_circuits = if paid < 0 {
            0
        } else {
            paid as i32
        };
        me.get_system_state(system).hot_wires.push(card);
        match player {
            Player::Player1 => move_cards(&mut self.player1.hand, &mut self.discard_pile, &positions),
            Player::Player2 => move_cards(&mut self.player2.hand, &mut self.discard_pile, &positions),
        }
        Ok(())
    }
}

} // verus!
