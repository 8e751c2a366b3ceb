//! The mathematical value of a session, and the sequence operations that
//! the rules are stated with.

use vstd::prelude::*;
use vstd::seq_lib::to_multiset_len;

use crate::card::Card;
use crate::effect::Effect;
use crate::player::{fits_counter, Player, PlayerModel};

verus! {

/// The mathematical value of a turn state.
pub enum TurnModel {
    /// The active player chooses the next action.
    ChoosingAction,
    /// Effects wait to be resolved, in this order.
    ResolvingEffects { effects: Seq<Effect> },
}

/// The mathematical value of a session.
pub struct GameModel {
    pub player1: PlayerModel,
    pub player2: PlayerModel,
    pub deck: Seq<Card>,
    pub discard_pile: Seq<Card>,
    pub players_turn: Player,
    pub actions_left: int,
    pub turn_state: TurnModel,
}

/// `value`, or 0 where it is negative.
pub open spec fn floor_zero(value: int) -> int {
    if value < 0 {
        0
    } else {
        value
    }
}

/// The order in which hand positions are discarded: highest first.
pub open spec fn descending() -> spec_fn(usize, usize) -> bool {
    |a: usize, b: usize| a >= b
}

/// Whether the cards at `positions` can be taken one after the other from a
/// list of `len` cards, each position counting the list as the earlier
/// removals left it.
pub open spec fn removable(len: int, positions: Seq<usize>) -> bool {
    forall|k: int| 0 <= k < positions.len() ==> #[trigger] positions[k] + k < len
}

/// `cards` after the cards at `positions` were taken one after the other.
pub open spec fn without(cards: Seq<Card>, positions: Seq<usize>) -> Seq<Card>
    decreases positions.len(),
{
    if positions.len() == 0 {
        cards
    } else {
        without(cards.remove(positions[0] as int), positions.drop_first())
    }
}

/// `pile` after the cards taken from `cards` at `positions` were put on it
/// one after the other.
pub open spec fn discarded_onto(pile: Seq<Card>, cards: Seq<Card>, positions: Seq<usize>) -> Seq<
    Card,
>
    decreases positions.len(),
{
    if positions.len() == 0 {
        pile
    } else {
        discarded_onto(
            pile.push(cards[positions[0] as int]),
            cards.remove(positions[0] as int),
            positions.drop_first(),
        )
    }
}

/// Hand positions as they count once the card at `removed` has left the
/// hand: every position behind it moves up by one.
pub open spec fn renumbered(indices: Seq<usize>, removed: usize) -> Seq<usize> {
    Seq::new(
        indices.len(),
        |k: int|
            if indices[k] > removed {
                (indices[k] - 1) as usize
            } else {
                indices[k]
            },
    )
}

/// Whether `queue` holds an effect of the kind of `kind`.
pub open spec fn has_kind(queue: Seq<Effect>, kind: Effect) -> bool {
    exists|i: int| 0 <= i < queue.len() && #[trigger] queue[i].same_kind(kind)
}

/// Whether `i` is the place of the first effect of the kind of `kind` in
/// `queue`.
pub open spec fn is_first_of_kind(queue: Seq<Effect>, kind: Effect, i: int) -> bool {
    &&& 0 <= i < queue.len()
    &&& queue[i].same_kind(kind)
    &&& forall|k: int| 0 <= k < i ==> !#[trigger] queue[k].same_kind(kind)
}

/// The place of the first effect of the kind of `kind` in `queue`.
pub open spec fn first_of_kind(queue: Seq<Effect>, kind: Effect) -> int {
    choose|i: int| is_first_of_kind(queue, kind, i)
}

/// Whether `queue` holds an effect that has to be resolved.
pub open spec fn has_mandatory(queue: Seq<Effect>) -> bool {
    exists|i: int| 0 <= i < queue.len() && #[trigger] queue[i].is_mandatory()
}

/// Whether `cards` holds the cards of `pile`, in any order.
pub open spec fn is_shuffle_of(cards: Seq<Card>, pile: Seq<Card>) -> bool {
    cards.to_multiset() == pile.to_multiset()
}

/// A shuffle keeps the number of cards.
pub proof fn lemma_shuffle_keeps_len(cards: Seq<Card>, pile: Seq<Card>)
    requires
        is_shuffle_of(cards, pile),
    ensures
        cards.len() == pile.len(),
{
    to_multiset_len(cards);
    to_multiset_len(pile);
}

/// The test that keeps the effects a submission can resolve.
pub open spec fn resolvable() -> spec_fn(Effect) -> bool {
    |e: Effect| e.is_immediate()
}

/// The test that drops the forced discards.
pub open spec fn unforced() -> spec_fn(Effect) -> bool {
    |e: Effect| e != Effect::OpponentDiscard
}

/// The turn state for a queue of pending effects: choosing once nothing is
/// pending.
pub open spec fn phase_for(queue: Seq<Effect>) -> TurnModel {
    if queue.len() == 0 {
        TurnModel::ChoosingAction
    } else {
        TurnModel::ResolvingEffects { effects: queue }
    }
}

impl GameModel {
    /// What `player` holds.
    pub open spec fn state_of(self, player: Player) -> PlayerModel {
        match player {
            Player::Player1 => self.player1,
            Player::Player2 => self.player2,
        }
    }

    /// The session with the holdings of `player` replaced.
    pub open spec fn with_state(self, player: Player, state: PlayerModel) -> GameModel {
        match player {
            Player::Player1 => GameModel { player1: state, ..self },
            Player::Player2 => GameModel { player2: state, ..self },
        }
    }

    /// The pending effects: none while an action is chosen.
    pub open spec fn pending(self) -> Seq<Effect> {
        match self.turn_state {
            TurnModel::ChoosingAction => Seq::empty(),
            TurnModel::ResolvingEffects { effects } => effects,
        }
    }

    /// The number of cards in the session: both hands, all installed cards,
    /// the deck and the discard pile.
    pub open spec fn total_cards(self) -> nat {
        self.player1.cards() + self.player2.cards() + self.deck.len() + self.discard_pile.len()
    }

    /// Whether the derived figures of every subsystem fit the machine's
    /// counters.
    pub open spec fn countable(self) -> bool {
        self.player1.countable() && self.player2.countable()
    }

    /// Whether every counter fits the machine's counters.
    pub open spec fn representable(self) -> bool {
        &&& self.player1.representable()
        &&& self.player2.representable()
        &&& fits_counter(self.actions_left)
    }
}

} // verus!
