//! Cards and what it costs to install them.

use vstd::prelude::*;

use crate::effect::Effect;
use crate::system::System;

verus! {

/// The payment due when a card is installed on a subsystem.
#[derive(Debug, Clone, Copy, PartialEq, Eq)]
pub struct HotWireCost {
    /// Change of the installing player's short-circuit counter; a negative
    /// value is a refund.
    pub short_circuits: i32,
    /// Number of other hand cards that are discarded with the installation.
    pub cards_to_discard: usize,
}

/// A card: a batch of effects when played from the hand, or a permanent
/// grant of effects to the subsystem it is installed on.
#[derive(Debug, Clone, PartialEq, Eq)]
pub struct Card {
    /// Resolved as a batch when the card is played from the hand.
    pub instant_effects: Vec<Effect>,
    /// Granted to the subsystem the card is installed on.
    pub hot_wire_effects: Vec<Effect>,
    /// Due when the card is installed.
    pub hot_wire_cost: HotWireCost,
    /// The subsystem the card belongs to, if it belongs to one.
    pub system: Option<System>,
}

impl Default for HotWireCost {
    fn default() -> (cost: HotWireCost)
        ensures
            cost.short_circuits == 0,
            cost.cards_to_discard == 0,
    {
        HotWireCost { short_circuits: 0, cards_to_discard: 0 }
    }
}

impl Default for Card {
    fn default() -> (card: Card)
        ensures
            card.instant_effects@ == Seq::<Effect>::empty(),
            card.hot_wire_effects@ == Seq::<Effect>::empty(),
            card.hot_wire_cost.short_circuits == 0,
            card.hot_wire_cost.cards_to_discard == 0,
            card.system is None,
    {
        Card {
            instant_effects: Vec::new(),
            hot_wire_effects: Vec::new(),
            hot_wire_cost: HotWireCost { short_circuits: 0, cards_to_discard: 0 },
            system: None,
        }
    }
}

} // verus!
