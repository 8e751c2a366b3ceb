//! The effect resolver: takes one resolution and applies it against the
//! queue of pending effects.

use rand::thread_rng;
use vstd::prelude::*;

use crate::card::Card;
use crate::effect::{Effect, ResolveEffect};
use crate::error::UserActionError;
use crate::executor::copy_effects;
use crate::game::{GameState, TurnState};
use crate::model::{
    first_of_kind, has_kind, has_mandatory, is_first_of_kind, is_shuffle_of,
    lemma_shuffle_keeps_len, phase_for, GameModel,
};
use crate::player::{Player, PlayerModel};
use crate::random::shuffle_cards;
use crate::system::System;

verus! {

/// The first effect of a kind has one place only.
pub proof fn lemma_first_of_kind(queue: Seq<Effect>, kind: Effect, i: int)
    requires
        is_first_of_kind(queue, kind, i),
    ensures
        has_kind(queue, kind),
        first_of_kind(queue, kind) == i,
{
}

/// Returns the place of the first effect in `queue` that is of the kind of
/// `kind`, if there is one.
pub fn find_kind(queue: &Vec<Effect>, kind: Effect) -> (place: Option<usize>)
    ensures
        place is Some <==> has_kind(queue@, kind),
        place is Some ==> place->0 == first_of_kind(queue@, kind) && is_first_of_kind(
            queue@,
            kind,
            place->0 as int,
        ),
{
    let mut i: usize = 0;
    while i < queue.len()
        invariant
            i <= queue@.len(),
            forall|k: int| 0 <= k < i ==> !#[trigger] queue@[k].same_kind(kind),
        decreases queue@.len() - i,
    {
        if queue[i].is_same_kind(&kind) {
            proof {
                lemma_first_of_kind(queue@, kind, i as int);
            }
            return Some(i);
        }
        i += 1;
    }
    None
}

/// Tells whether `queue` holds an effect that has to be resolved.
pub fn holds_mandatory(queue: &Vec<Effect>) -> (found: bool)
    ensures
        found == has_mandatory(queue@),
{
    let mut i: usize = 0;
    while i < queue.len()
        invariant
            i <= queue@.len(),
            forall|k: int| 0 <= k < i ==> !#[trigger] queue@[k].is_mandatory(),
        decreases queue@.len() - i,
    {
        if queue[i].must_resolve() {
            return true;
        }
        i += 1;
    }
    false
}

impl GameState {
    /// Returns the place of the first pending effect that is of the kind of
    /// `kind`, if there is one.
    pub fn pending_place(&self, kind: Effect) -> (place: Option<usize>)
        ensures
            place is Some <==> has_kind(self@.pending(), kind),
            place is Some ==> place->0 == first_of_kind(self@.pending(), kind) && is_first_of_kind(
                self@.pending(),
                kind,
                place->0 as int,
            ),
    {
        match &self.turn_state {
            TurnState::ChoosingAction => {
                None
            },
            TurnState::ResolvingEffects { effects } => find_kind(effects, kind),
        }
    }

    /// Returns a copy of the pending effects.
    pub fn pending_effects(&self) -> (queue: Vec<Effect>)
        ensures
            queue@ == self@.pending(),
    {
        match &self.turn_state {
            TurnState::ChoosingAction => Vec::new(),
            TurnState::ResolvingEffects { effects } => copy_effects(effects),
        }
    }

    /// Makes `queue` the pending effects; with an empty queue the active
    /// player chooses again.
    pub fn set_pending(&mut self, queue: Vec<Effect>)
        ensures
            final(self)@ == (GameModel { turn_state: phase_for(queue@), ..old(self)@ }),
    {
        if queue.len() == 0 {
            self.turn_state = TurnState::ChoosingAction;
        } else {
            self.turn_state = TurnState::ResolvingEffects { effects: queue };
        }
    }

    /// Tells whether `player` can move one unit of energy from
    /// `from_system` to `to_system`.
    pub fn can_move_energy(&self, from_system: System, to_system: System, player: Player) -> (result:
        Result<(), UserActionError>)
        requires
            self@.countable(),
        ensures
            result == self@.state_of(player).move_verdict(from_system, to_system),
    {
        self.my_state_immut(player).can_shift_energy(from_system, to_system)
    }

    /// Moves one unit of energy of `player` from `from_system` to
    /// `to_system`. The source has to hold energy; the destination, seen
    /// after the unit has left the source, may be neither overloaded nor
    /// full. Where a rule is broken, nothing changes.
    pub fn move_energy(&mut self, from_system: System, to_system: System, player: Player) -> (result:
        Result<(), UserActionError>)
        requires
            old(self)@.countable(),
            old(self)@.state_of(player).move_verdict(from_system, to_system) is Ok ==> old(
                self,
            )@.state_of(player).moved(from_system, to_system).representable(),
        ensures
            result == old(self)@.state_of(player).move_verdict(from_system, to_system),
            result is Ok ==> final(self)@ == old(self)@.with_state(
                player,
                old(self)@.state_of(player).moved(from_system, to_system),
            ),
            result is Err ==> *final(self) == *old(self),
    {
        match self.can_move_energy(from_system, to_system, player) {
            Err(error) => {
                return Err(error);
            },
            Ok(()) => {},
        }
        self.my_state(player).shift_energy(from_system, to_system);
        Ok(())
    }

    /// Moves the top card of the deck to the hand of `player`.
    pub fn draw_top_card(&mut self, player: Player)
        requires
            old(self)@.deck.len() > 0,
        ensures
            final(self)@ == old(self)@.card_drawn(player, old(self)@.deck),
    {
        let drawn = self.deck.pop();
        if let Some(card) = drawn {
            self.my_state(player).hand.push(card);
        }
    }

    /// Turns the discard pile into the deck, shuffled.
    pub fn reshuffle(&mut self)
        requires
            old(self)@.deck.len() == 0,
        ensures
            is_shuffle_of(final(self)@.deck, old(self)@.discard_pile),
            final(self)@ == (GameModel {
                deck: final(self)@.deck,
                discard_pile: Seq::empty(),
                ..old(self)@
            }),
    {
        self.deck.append(&mut self.discard_pile);
        let mut generator = thread_rng();
        shuffle_cards(&mut self.deck, &mut generator);
    }

    /// Draws a card for `player`; an empty deck is first replaced by the
    /// shuffled discard pile.
    pub fn draw_card(&mut self, player: Player)
        requires
            old(self)@.deck.len() + old(self)@.discard_pile.len() > 0,
        ensures
            exists|refill: Seq<Card>| #[trigger]
                is_shuffle_of(refill, old(self)@.discard_pile) && final(self)@ == old(self)@.card_drawn(
                    player,
                    refill,
                ),
    {
        if self.deck.len() == 0 {
            self.reshuffle();
            let ghost refill = self.deck@;
            proof {
                lemma_shuffle_keeps_len(refill, old(self).discard_pile@);
            }
            self.draw_top_card(player);
        } else {
            self.draw_top_card(player);
            assert(is_shuffle_of(old(self)@.discard_pile, old(self)@.discard_pile) && self@ == old(
                self,
            )@.card_drawn(player, old(self)@.discard_pile));
        }
    }

    /// Adds `change` to the short-circuit counter of `player`.
    pub fn adjust_short_circuits(&mut self, player: Player, change: i32)
        requires
            i32::MIN <= old(self)@.state_of(player).short_circuits + change <= i32::MAX,
        ensures
            final(self)@ == old(self)@.with_state(
                player,
                PlayerModel {
                    short_circuits: old(self)@.state_of(player).short_circuits + change,
                    ..old(self)@.state_of(player)
                },
            ),
    {
        let me = self.my_state(player);
        me.short_circuits += change;
    }

    /// Adds `change` to the shields of `player`.
    pub fn adjust_shields(&mut self, player: Player, change: i32)
        requires
            i32::MIN <= old(self)@.state_of(player).shields + change <= i32::MAX,
        ensures
            final(self)@ == old(self)@.with_state(
                player,
                PlayerModel {
                    shields: old(self)@.state_of(player).shields + change,
                    ..old(self)@.state_of(player)
                },
            ),
    {
        let me = self.my_state(player);
        me.shields += change;
    }

    /// Adds one point of hull damage to `player`.
    pub fn damage_hull(&mut self, player: Player)
        requires
            old(self)@.state_of(player).hull_damage < i32::MAX,
        ensures
            final(self)@ == old(self)@.with_state(
                player,
                PlayerModel {
                    hull_damage: old(self)@.state_of(player).hull_damage + 1,
                    ..old(self)@.state_of(player)
                },
            ),
    {
        let me = self.my_state(player);
        me.hull_damage += 1;
    }

    /// Adds `change` to the overload tokens on `system` of `player`.
    pub fn adjust_overloads(&mut self, player: Player, system: System, change: i32)
        requires
            i32::MIN <= old(self)@.state_of(player).system(system).overloads + change <= i32::MAX,
        ensures
            final(self)@ == old(self)@.with_state(
                player,
                old(self)@.state_of(player).with_overloads(
                    system,
                    old(self)@.state_of(player).system(system).overloads + change,
                ),
            ),
    {
        let me = self.my_state(player);
        let target = me.get_system_state(system);
        target.overloads += change;
    }

    /// Lets an attack of `player` hit the opponent: a shield absorbs it if
    /// the opponent has one, else the hull takes one point of damage.
    pub fn attack_opponent(&mut self, player: Player)
        requires
            old(self)@.state_of(player.other()).attacked().representable(),
        ensures
            final(self)@ == old(self)@.with_state(
                player.other(),
                old(self)@.state_of(player.other()).attacked(),
            ),
    {
        let opponent = self.opponent_state(player);
        if opponent.shields > 0 {
            opponent.shields -= 1;
        } else {
            opponent.hull_damage += 1;
        }
    }

    /// Tells whether the active player `player` can resolve a pending
    /// effect with `resolve_effect`.
    pub fn can_resolve_effect(&self, resolve_effect: &ResolveEffect, player: Player) -> (result:
        Result<(), UserActionError>)
        requires
            self@.countable(),
        ensures
            result == self@.resolution_verdict(player, *resolve_effect),
    {
        if self.pending_place(resolve_effect.effect_this_resolves()).is_none() {
            return Err(UserActionError::NoMatchingEffectToResolve);
        }
        let me = self.my_state_immut(player);
        let opponent = self.my_state_immut(player.other_player());
        match resolve_effect {
            ResolveEffect::Attack => Ok(()),
            ResolveEffect::GainShortCircuit => Ok(()),
            ResolveEffect::LoseShortCircuit => {
                if me.short_circuits > 0 {
                    Ok(())
                } else {
                    Err(UserActionError::NoShortCircuitToRemove)
                }
            },
            ResolveEffect::Shield => {
                if me.shields < me.shield_generator.get_allowed_energy() {
                    Ok(())
                } else {
                    Err(UserActionError::AlreadyAtMaxShields)
                }
            },
            ResolveEffect::DiscardOverload { system } => {
                if me.system_state(*system).overloads > 0 {
                    Ok(())
                } else {
                    Err(UserActionError::NoOverloadToDiscard)
                }
            },
            ResolveEffect::GainAction => Ok(()),
            ResolveEffect::PlayHotWire {
                card_index,
                system,
                indices_to_discard,
            } => self.can_hot_wire_card(*card_index, *system, indices_to_discard, player),
            ResolveEffect::Draw => {
                if self.deck.len() == 0 && self.discard_pile.len() == 0 {
                    Err(UserActionError::NoCardToDraw)
                } else {
                    Ok(())
                }
            },
            ResolveEffect::OpponentDiscard { .. } => Err(
                UserActionError::ActivePlayerCannotResolveOpponentDiscard,
            ),
            ResolveEffect::OpponentGainShortCircuit => Ok(()),
            ResolveEffect::OpponentLoseShield => {
                if opponent.shields > 0 {
                    Ok(())
                } else {
                    Err(UserActionError::NoShieldsToLose)
                }
            },
            ResolveEffect::OpponentMoveEnergy { from_system, to_system } => opponent.can_shift_energy(
                *from_system,
                *to_system,
            ),
            ResolveEffect::OpponentGainOverload { .. } => Ok(()),
            ResolveEffect::MoveEnergy { from_system, to_system } => me.can_shift_energy(
                *from_system,
                *to_system,
            ),
            ResolveEffect::MoveEnergyTo { from_system, to_system } => me.can_shift_energy(
                *from_system,
                *to_system,
            ),
            ResolveEffect::BypassShield => {
                if self.pending_place(Effect::Attack).is_some() {
                    Ok(())
                } else {
                    Err(UserActionError::CannotResolveBypassShieldWithoutAttack)
                }
            },
        }
    }

    /// Returns the pending effects as they are once `resolve_effect` is
    /// resolved: without the first effect of its kind, and for a shield
    /// bypass without the first attack too.
    pub fn remaining_queue(&self, resolve_effect: &ResolveEffect) -> (queue: Vec<Effect>)
        requires
            has_kind(self@.pending(), resolve_effect.kind()),
            *resolve_effect is BypassShield ==> has_kind(self@.pending(), Effect::Attack),
        ensures
            queue@ == GameModel::remaining(self@.pending(), *resolve_effect),
    {
        let mut queue = self.pending_effects();
        let place = find_kind(&queue, resolve_effect.effect_this_resolves());
        let attack = find_kind(&queue, Effect::Attack);
        match (resolve_effect, place, attack) {
            (ResolveEffect::BypassShield, Some(i), Some(a)) => {
                queue.remove(a);
                if i > a {
                    queue.remove(i - 1);
                } else {
                    queue.remove(i);
                }
            },
            (_, Some(i), _) => {
                queue.remove(i);
            },
            _ => {},
        }
        queue
    }

    /// Applies `resolve_effect` for the active player `player`, the queue
    /// apart.
    #[verifier::rlimit(60)]
    pub fn apply_resolution(&mut self, resolve_effect: ResolveEffect, player: Player)
        requires
            old(self)@.countable(),
            old(self)@.resolution_verdict(player, resolve_effect) is Ok,
            old(self)@.resolved_body(
                player,
                resolve_effect,
                old(self)@.discard_pile,
            ).representable(),
        ensures
            exists|refill: Seq<Card>| #[trigger]
                is_shuffle_of(refill, old(self)@.discard_pile) && final(self)@ == old(
                    self,
                )@.resolved_body(player, resolve_effect, refill),
    {
        let rival = player.other_player();
        let ghost unshuffled = self@.discard_pile;
        match resolve_effect {
            ResolveEffect::Attack => {
                self.attack_opponent(player);
            },
            ResolveEffect::GainShortCircuit => {
                self.adjust_short_circuits(player, 1);
            },
            ResolveEffect::LoseShortCircuit => {
                self.adjust_short_circuits(player, -1);
            },
            ResolveEffect::Shield => {
                self.adjust_shields(player, 1);
            },
            ResolveEffect::DiscardOverload { system } => {
                self.adjust_overloads(player, system, -1);
            },
            ResolveEffect::GainAction => {
                self.actions_left += 1;
            },
            ResolveEffect::PlayHotWire { card_index, system, indices_to_discard } => {
                let installed = self.hot_wire_card(card_index, system, indices_to_discard, player);
                assert(installed is Ok);
            },
            ResolveEffect::Draw => {
                self.draw_card(player);
                return ;
            },
            ResolveEffect::OpponentDiscard { .. } => {},
            ResolveEffect::OpponentGainShortCircuit => {
                self.adjust_short_circuits(rival, 1);
            },
            ResolveEffect::OpponentLoseShield => {
                self.adjust_shields(rival, -1);
            },
            ResolveEffect::OpponentMoveEnergy { from_system, to_system } => {
                let moved = self.move_energy(from_system, to_system, rival);
                assert(moved is Ok);
            },
            ResolveEffect::OpponentGainOverload { system } => {
                self.adjust_overloads(rival, system, 1);
            },
            ResolveEffect::MoveEnergy { from_system, to_system } => {
                let moved = self.move_energy(from_system, to_system, player);
                assert(moved is Ok);
            },
            ResolveEffect::MoveEnergyTo { from_system, to_system } => {
                let moved = self.move_energy(from_system, to_system, player);
                assert(moved is Ok);
            },
            ResolveEffect::BypassShield => {
                self.damage_hull(rival);
            },
        }
        assert(is_shuffle_of(unshuffled, old(self)@.discard_pile) && self@ == old(
            self,
        )@.resolved_body(player, resolve_effect, unshuffled));
    }

    /// Resolves one pending effect for the active player `player`: the
    /// first pending effect of the kind of `resolve_effect` leaves the
    /// queue and the resolution is applied. Where no such effect is
    /// pending or a rule of the kind is broken, nothing changes.
    pub fn resolve_effect(&mut self, resolve_effect: ResolveEffect, player: Player) -> (result:
        Result<(), UserActionError>)
        requires
            old(self)@.countable(),
            old(self)@.resolution_verdict(player, resolve_effect) is Ok ==> old(self)@.resolved(
                player,
                resolve_effect,
                old(self)@.discard_pile,
            ).representable(),
        ensures
            result == old(self)@.resolution_verdict(player, resolve_effect),
            result is Ok ==> exists|refill: Seq<Card>| #[trigger]
                is_shuffle_of(refill, old(self)@.discard_pile) && final(self)@ == old(
                    self,
                )@.resolved(player, resolve_effect, refill),
            result is Err ==> *final(self) == *old(self),
    {
        match self.can_resolve_effect(&resolve_effect, player) {
            Err(error) => {
                return Err(error);
            },
            Ok(()) => {},
        }
        let queue = self.remaining_queue(&resolve_effect);
        self.apply_resolution(resolve_effect, player);
        self.set_pending(queue);
        Ok(())
    }
}

} // verus!
