//! The transaction envelope: the one entry point that takes a submission,
//! routes it by turn state and player, and applies it whole or not at all.

use vstd::prelude::*;

use crate::action::{UserAction, UserActionWithPlayer};
use crate::card::Card;
use crate::effect::{Effect, ResolveEffect};
use crate::error::UserActionError;
use crate::game::{GameState, TurnState};
use crate::laws::{
    law_card_conservation, law_counters_stay_nonnegative, law_energy_stays_within_caps,
    law_outcome_is_tidy, law_shields_stay_within_caps, lemma_tidy_stays,
};
use crate::model::{has_mandatory, is_shuffle_of};
use crate::player::Player;
use crate::resolver::holds_mandatory;

verus! {

impl GameState {
    /// Tells whether the active player is choosing an action.
    pub fn is_choosing_action(&self) -> (choosing: bool)
        ensures
            choosing == (self@.turn_state is ChoosingAction),
    {
        match &self.turn_state {
            TurnState::ChoosingAction => true,
            TurnState::ResolvingEffects { .. } => false,
        }
    }

    /// Tells whether `player` can pass the turn while discarding the hand
    /// cards at `indices`.
    pub fn can_pass(&self, player: Player, indices: &Vec<usize>) -> (result: Result<
        (),
        UserActionError,
    >)
        ensures
            result == self@.pass_verdict(player, indices@),
    {
        let held = self.my_state_immut(player).hand.len();
        if held <= 5 {
            Ok(())
        } else if held - 5 != indices.len() {
            Err(UserActionError::WrongNumberOfDiscardIndices)
        } else {
            self.can_discard(player, indices)
        }
    }

    /// Passes the turn of `player`: a hand of more than five cards is
    /// brought down to five by discarding the cards at
    /// `card_indices_to_discard`, the other player becomes active and gets
    /// three action points. Where a rule is broken, nothing changes.
    pub fn pass_turn(&mut self, player: Player, card_indices_to_discard: Vec<usize>) -> (result:
        Result<(), UserActionError>)
        ensures
            result == old(self)@.pass_verdict(player, card_indices_to_discard@),
            result is Ok ==> final(self)@ == old(self)@.passed(player, card_indices_to_discard@),
            result is Err ==> *final(self) == *old(self),
    {
        match self.can_pass(player, &card_indices_to_discard) {
            Err(error) => {
                return Err(error);
            },
            Ok(()) => {},
        }
        if self.my_state_immut(player).hand.len() > 5 {
            let discarded = self.discard(player, card_indices_to_discard);
            assert(discarded is Ok);
        }
        self.actions_left = 3;
        self.players_turn = self.players_turn.other_player();
        Ok(())
    }

    /// Tells whether `player`, who is not active, can resolve a forced
    /// discard with the hand card at `card_index`.
    pub fn can_discard_when_forced(&self, card_index: usize, player: Player) -> (result: Result<
        (),
        UserActionError,
    >)
        ensures
            result == self@.forced_discard_verdict(player, card_index),
    {
        if self.pending_place(Effect::OpponentDiscard).is_none() {
            Err(UserActionError::NoMatchingEffectToResolve)
        } else if card_index >= self.my_state_immut(player).hand.len() {
            Err(UserActionError::InvalidCardIndex)
        } else {
            Ok(())
        }
    }

    /// Resolves a forced discard for `player`, who is not active: the hand
    /// card at `card_index` goes to the discard pile and the first pending
    /// forced discard leaves the queue. Where a rule is broken, nothing
    /// changes.
    pub fn discard_when_forced(&mut self, card_index: usize, player: Player) -> (result: Result<
        (),
        UserActionError,
    >)
        ensures
            result == old(self)@.forced_discard_verdict(player, card_index),
            result is Ok ==> final(self)@ == old(self)@.forced_discarded(player, card_index),
            result is Err ==> *final(self) == *old(self),
    {
        match self.can_discard_when_forced(card_index, player) {
            Err(error) => {
                return Err(error);
            },
            Ok(()) => {},
        }
        let mut queue = self.pending_effects();
        if let Some(place) = self.pending_place(Effect::OpponentDiscard) {
            queue.remove(place);
        }
        let card = self.my_state(player).hand.remove(card_index);
        self.discard_pile.push(card);
        self.set_pending(queue);
        Ok(())
    }

    /// Tells whether the active player can stop resolving effects: no
    /// pending effect may be one that has to be resolved.
    pub fn can_stop_resolving(&self) -> (result: Result<(), UserActionError>)
        ensures
            result == if self@.turn_state is ChoosingAction {
                Err::<(), UserActionError>(UserActionError::InvalidUserAction)
            } else if has_mandatory(self@.pending()) {
                Err(UserActionError::StillHaveSomeEffectsThatMustBeResolved)
            } else {
                Ok(())
            },
    {
        match &self.turn_state {
            TurnState::ChoosingAction => Err(UserActionError::InvalidUserAction),
            TurnState::ResolvingEffects { effects } => {
                if holds_mandatory(effects) {
                    Err(UserActionError::StillHaveSomeEffectsThatMustBeResolved)
                } else {
                    Ok(())
                }
            },
        }
    }

    /// Tells what the verdict on `submission` is, without applying it.
    pub fn check_user_action(&self, submission: &UserActionWithPlayer) -> (result: Result<
        (),
        UserActionError,
    >)
        requires
            self@.countable(),
        ensures
            result == self@.verdict(*submission),
    {
        let player = submission.player;
        let choosing = self.is_choosing_action();
        if self.players_turn == player {
            match &submission.user_action {
                UserAction::ChooseAction { action } => {
                    if choosing {
                        self.can_choose_action(action, player)
                    } else {
                        Err(UserActionError::InvalidUserAction)
                    }
                },
                UserAction::ResolveEffect { resolve_effect } => {
                    if choosing {
                        Err(UserActionError::InvalidUserAction)
                    } else {
                        self.can_resolve_effect(resolve_effect, player)
                    }
                },
                UserAction::Pass { card_indices_to_discard } => {
                    if choosing {
                        self.can_pass(player, card_indices_to_discard)
                    } else {
                        Err(UserActionError::InvalidUserAction)
                    }
                },
                UserAction::StopResolvingEffects => self.can_stop_resolving(),
            }
        } else {
            match &submission.user_action {
                UserAction::ResolveEffect {
                    resolve_effect: ResolveEffect::OpponentDiscard { card_index },
                } => {
                    if choosing {
                        Err(UserActionError::NotYourTurn)
                    } else {
                        self.can_discard_when_forced(*card_index, player)
                    }
                },
                _ => Err(UserActionError::NotYourTurn),
            }
        }
    }

    /// Routes `submission` by turn state and player and applies it. Where
    /// it is rejected, nothing changes.
    pub fn dispatch(&mut self, submission: UserActionWithPlayer) -> (result: Result<
        (),
        UserActionError,
    >)
        requires
            old(self)@.countable(),
            old(self)@.successor_fits(submission),
        ensures
            result == old(self)@.verdict(submission),
            result is Ok ==> exists|refill: Seq<Card>| #[trigger]
                is_shuffle_of(refill, old(self)@.discard_pile) && final(self)@ == old(
                    self,
                )@.successor(submission, refill),
            result is Err ==> *final(self) == *old(self),
    {
        let player = submission.player;
        let choosing = self.is_choosing_action();
        let ghost unshuffled = self@.discard_pile;
        if self.players_turn == player {
            match submission.user_action {
                UserAction::ChooseAction { action } => {
                    if choosing {
                        let result = self.choose_action(action, player);
                        assert(result is Ok ==> is_shuffle_of(unshuffled, old(self)@.discard_pile)
                            && self@ == old(self)@.successor(submission, unshuffled));
                        result
                    } else {
                        Err(UserActionError::InvalidUserAction)
                    }
                },
                UserAction::ResolveEffect { resolve_effect } => {
                    if choosing {
                        Err(UserActionError::InvalidUserAction)
                    } else {
                        self.resolve_effect(resolve_effect, player)
                    }
                },
                UserAction::Pass { card_indices_to_discard } => {
                    if choosing {
                        let result = self.pass_turn(player, card_indices_to_discard);
                        assert(result is Ok ==> is_shuffle_of(unshuffled, old(self)@.discard_pile)
                            && self@ == old(self)@.successor(submission, unshuffled));
                        result
                    } else {
                        Err(UserActionError::InvalidUserAction)
                    }
                },
                UserAction::StopResolvingEffects => {
                    let result = self.can_stop_resolving();
                    if result.is_ok() {
                        self.turn_state = TurnState::ChoosingAction;
                        assert(is_shuffle_of(unshuffled, old(self)@.discard_pile) && self@ == old(
                            self,
                        )@.successor(submission, unshuffled));
                    }
                    result
                },
            }
        } else {
            match submission.user_action {
                UserAction::ResolveEffect {
                    resolve_effect: ResolveEffect::OpponentDiscard { card_index },
                } => {
                    if choosing {
                        Err(UserActionError::NotYourTurn)
                    } else {
                        let result = self.discard_when_forced(card_index, player);
                        assert(result is Ok ==> is_shuffle_of(unshuffled, old(self)@.discard_pile)
                            && self@ == old(self)@.successor(submission, unshuffled));
                        result
                    }
                },
                _ => Err(UserActionError::NotYourTurn),
            }
        }
    }

    /// Takes one submission. An accepted submission is applied whole; a
    /// rejected one leaves the session as it was. Either way the queue of
    /// pending effects is tidied afterwards: effects that no submission can
    /// resolve leave it, and so do forced discards where the player who is
    /// not active holds no card.
    ///
    /// Whatever the submission, the number of cards in the session stays
    /// the same, the queue is tidy afterwards, and shields stay within
    /// their cap. Energy stays within its caps unless the submission is an
    /// activation that overfills a subsystem, and no counter turns negative
    /// unless the submission is a reactor activation that names a negative
    /// amount.
    pub fn receive_user_action(&mut self, user_action_with_player: UserActionWithPlayer) -> (result:
        Result<(), UserActionError>)
        requires
            old(self)@.countable(),
            old(self)@.successor_fits(user_action_with_player),
        ensures
            result == old(self)@.verdict(user_action_with_player),
            exists|refill: Seq<Card>| #[trigger]
                is_shuffle_of(refill, old(self)@.discard_pile) && final(self)@ == old(
                    self,
                )@.outcome(user_action_with_player, refill),
            result is Err ==> final(self)@ == old(self)@.settled(),
            result is Err && old(self)@.is_tidy() ==> *final(self) == *old(self),
            final(self)@.is_tidy(),
            final(self)@.total_cards() == old(self)@.total_cards(),
            old(self)@.shields_within_caps() ==> final(self)@.shields_within_caps(),
            old(self)@.energy_within_caps() && !old(self)@.overfills(user_action_with_player)
                ==> final(self)@.energy_within_caps(),
            old(self)@.nonnegative() && !old(self)@.starves(user_action_with_player)
                ==> final(self)@.nonnegative(),
    {
        let result = self.dispatch(user_action_with_player);
        let ghost applied = self@;
        proof {
            lemma_tidy_stays(applied);
        }
        self.remove_effects_without_immediate_effects();
        self.remove_opponent_discards_if_no_cards();
        proof {
            let before = old(self)@;
            let refill = if result is Ok {
                choose|refill: Seq<Card>| #[trigger]
                    is_shuffle_of(refill, before.discard_pile) && applied == before.successor(
                        user_action_with_player,
                        refill,
                    )
            } else {
                before.discard_pile
            };
            law_outcome_is_tidy(before, user_action_with_player, refill);
            law_card_conservation(before, user_action_with_player, refill);
            if before.shields_within_caps() {
                law_shields_stay_within_caps(before, user_action_with_player, refill);
            }
            if before.energy_within_caps() && !before.overfills(user_action_with_player) {
                law_energy_stays_within_caps(before, user_action_with_player, refill);
            }
            if before.nonnegative() && !before.starves(user_action_with_player) {
                law_counters_stay_nonnegative(before, user_action_with_player, refill);
            }
        }
        result
    }
}

} // verus!
