//! The card catalogue and the deck built from it.

use rand::thread_rng;
use vstd::prelude::*;
use vstd::seq_lib::to_multiset_contains;

use crate::card::{Card, HotWireCost};
use crate::effect::Effect;
use crate::model::{is_shuffle_of, lemma_shuffle_keeps_len};
use crate::random::shuffle_cards;
use crate::system::System;

verus! {

/// The number of cards in a deck.
pub const DECK_SIZE: usize = 25;

/// The number of different cards in the catalogue.
pub const CATALOGUE_SIZE: usize = 10;

/// Whether `card` reads as given. No card of the catalogue asks for
/// discards when it is installed.
pub open spec fn has_face(
    card: Card,
    instant_effects: Seq<Effect>,
    hot_wire_effects: Seq<Effect>,
    short_circuits: int,
    system: Option<System>,
) -> bool {
    &&& card.instant_effects@ =~= instant_effects
    &&& card.hot_wire_effects@ =~= hot_wire_effects
    &&& card.hot_wire_cost.short_circuits == short_circuits
    &&& card.hot_wire_cost.cards_to_discard == 0
    &&& card.system == system
}

/// Whether `card` is the catalogue card of number `kind`.
pub open spec fn is_catalogue_card(kind: int, card: Card) -> bool {
    if kind == 0 {
        has_face(
            card,
            seq![Effect::Attack],
            seq![Effect::Attack, Effect::UseMoreEnergy],
            1,
            Some(System::Weapons),
        )
    } else if kind == 1 {
        has_face(
            card,
            seq![Effect::Attack],
            seq![
                Effect::Attack,
                Effect::Attack,
                Effect::GainShortCircuit,
                Effect::GainShortCircuit,
                Effect::UseMoreEnergy,
                Effect::UseMoreEnergy,
            ],
            0,
            Some(System::Weapons),
        )
    } else if kind == 2 {
        has_face(
            card,
            seq![Effect::Draw, Effect::Draw, Effect::GainShortCircuit, Effect::GainShortCircuit],
            seq![Effect::Draw, Effect::GainShortCircuit],
            0,
            Some(System::LifeSupport),
        )
    } else if kind == 3 {
        has_face(
            card,
            seq![Effect::GainAction, Effect::LoseShortCircuit],
            seq![Effect::OpponentGainShortCircuit],
            2,
            Some(System::LifeSupport),
        )
    } else if kind == 4 {
        has_face(
            card,
            seq![Effect::GainAction, Effect::LoseShortCircuit],
            seq![Effect::UseLessEnergy],
            2,
            None,
        )
    } else if kind == 5 {
        has_face(
            card,
            seq![Effect::GainAction, Effect::LoseShortCircuit],
            seq![Effect::LoseShortCircuit],
            0,
            None,
        )
    } else if kind == 6 {
        has_face(
            card,
            seq![
                Effect::LoseShortCircuit,
                Effect::LoseShortCircuit,
                Effect::LoseShortCircuit,
                Effect::LoseShortCircuit,
            ],
            seq![Effect::StoreMoreEnergy],
            -1,
            None,
        )
    } else if kind == 7 {
        has_face(
            card,
            seq![Effect::GainAction, Effect::LoseShortCircuit],
            seq![Effect::LoseShortCircuit],
            0,
            Some(System::FusionReactor),
        )
    } else if kind == 8 {
        has_face(
            card,
            seq![Effect::Shield, Effect::LoseShortCircuit],
            seq![Effect::Shield, Effect::UseMoreEnergy],
            -1,
            Some(System::ShieldGenerator),
        )
    } else if kind == 9 {
        has_face(
            card,
            seq![Effect::Shield, Effect::LoseShortCircuit],
            seq![Effect::Shield, Effect::Shield, Effect::UseMoreEnergy, Effect::UseMoreEnergy],
            1,
            Some(System::ShieldGenerator),
        )
    } else {
        false
    }
}

/// The number of the catalogue card at place `i` of the deck as it is
/// built: the first weapons card opens the deck, and behind it the eight
/// cards that are no weapons cards follow in their order, three times over.
/// The second weapons card is in the catalogue and not in the deck.
pub open spec fn deck_kind(i: int) -> int {
    if i == 0 {
        0
    } else {
        2 + (i - 1) % 8
    }
}

/// Whether `deck` is the deck as it is built: twenty-five cards, the card
/// at every place being the catalogue card that belongs there.
pub open spec fn is_fresh_deck(deck: Seq<Card>) -> bool {
    &&& deck.len() == DECK_SIZE
    &&& forall|i: int| 0 <= i < deck.len() ==> is_catalogue_card(deck_kind(i), #[trigger] deck[i])
}

/// Whether `deck` holds the cards of the deck as it is built, in any order.
pub open spec fn is_shuffled_deck(deck: Seq<Card>) -> bool {
    exists|fresh: Seq<Card>| #[trigger] is_fresh_deck(fresh) && is_shuffle_of(deck, fresh)
}

/// Every card of a shuffled deck costs between one refunded and two paid
/// short circuits.
pub proof fn lemma_shuffled_deck_costs(deck: Seq<Card>)
    requires
        is_shuffled_deck(deck),
    ensures
        forall|i: int| 0 <= i < deck.len() ==> -1 <= (#[trigger] deck[i]).hot_wire_cost.short_circuits <= 2,
{
    let fresh = choose|fresh: Seq<Card>| #[trigger] is_fresh_deck(fresh) && is_shuffle_of(deck, fresh);
    assert forall|i: int| 0 <= i < deck.len() implies -1 <= (
    #[trigger] deck[i]).hot_wire_cost.short_circuits <= 2 by {
        to_multiset_contains(deck, deck[i]);
        to_multiset_contains(fresh, deck[i]);
        let k = choose|k: int| 0 <= k < fresh.len() && fresh[k] == deck[i];
        assert(is_catalogue_card(deck_kind(k), fresh[k]));
    }
}

/// A weapons card: one attack.
pub fn attack_01() -> (card: Card)
    ensures
        is_catalogue_card(0, card),
{
    Card {
        instant_effects: vec![Effect::Attack],
        hot_wire_effects: vec![Effect::Attack, Effect::UseMoreEnergy],
        hot_wire_cost: HotWireCost { short_circuits: 1, cards_to_discard: 0 },
        system: Some(System::Weapons),
    }
}

/// A weapons card: two attacks at the price of two short circuits.
pub fn attack_02() -> (card: Card)
    ensures
        is_catalogue_card(1, card),
{
    Card {
        instant_effects: vec![Effect::Attack],
        hot_wire_effects: vec![
            Effect::Attack,
            Effect::Attack,
            Effect::GainShortCircuit,
            Effect::GainShortCircuit,
            Effect::UseMoreEnergy,
            Effect::UseMoreEnergy,
        ],
        hot_wire_cost: HotWireCost { short_circuits: 0, cards_to_discard: 0 },
        system: Some(System::Weapons),
    }
}

/// A life-support card: draws at the price of short circuits.
pub fn draw_01() -> (card: Card)
    ensures
        is_catalogue_card(2, card),
{
    Card {
        instant_effects: vec![
            Effect::Draw,
            Effect::Draw,
            Effect::GainShortCircuit,
            Effect::GainShortCircuit,
        ],
        hot_wire_effects: vec![Effect::Draw, Effect::GainShortCircuit],
        hot_wire_cost: HotWireCost { short_circuits: 0, cards_to_discard: 0 },
        system: Some(System::LifeSupport),
    }
}

/// A life-support card: gives the opponent a short circuit.
pub fn draw_06() -> (card: Card)
    ensures
        is_catalogue_card(3, card),
{
    Card {
        instant_effects: vec![Effect::GainAction, Effect::LoseShortCircuit],
        hot_wire_effects: vec![Effect::OpponentGainShortCircuit],
        hot_wire_cost: HotWireCost { short_circuits: 2, cards_to_discard: 0 },
        system: Some(System::LifeSupport),
    }
}

/// A card for any subsystem: lets it use less energy.
pub fn generic_01() -> (card: Card)
    ensures
        is_catalogue_card(4, card),
{
    Card {
        instant_effects: vec![Effect::GainAction, Effect::LoseShortCircuit],
        hot_wire_effects: vec![Effect::UseLessEnergy],
        hot_wire_cost: HotWireCost { short_circuits: 2, cards_to_discard: 0 },
        system: None,
    }
}

/// A card for any subsystem: removes a short circuit.
pub fn generic_02() -> (card: Card)
    ensures
        is_catalogue_card(5, card),
{
    Card {
        instant_effects: vec![Effect::GainAction, Effect::LoseShortCircuit],
        hot_wire_effects: vec![Effect::LoseShortCircuit],
        hot_wire_cost: HotWireCost { short_circuits: 0, cards_to_discard: 0 },
        system: None,
    }
}

/// A card for any subsystem: lets it store more energy.
pub fn generic_07() -> (card: Card)
    ensures
        is_catalogue_card(6, card),
{
    Card {
        instant_effects: vec![
            Effect::LoseShortCircuit,
            Effect::LoseShortCircuit,
            Effect::LoseShortCircuit,
            Effect::LoseShortCircuit,
        ],
        hot_wire_effects: vec![Effect::StoreMoreEnergy],
        hot_wire_cost: HotWireCost { short_circuits: -1, cards_to_discard: 0 },
        system: None,
    }
}

/// A reactor card: removes a short circuit.
pub fn power_05b() -> (card: Card)
    ensures
        is_catalogue_card(7, card),
{
    Card {
        instant_effects: vec![Effect::GainAction, Effect::LoseShortCircuit],
        hot_wire_effects: vec![Effect::LoseShortCircuit],
        hot_wire_cost: HotWireCost { short_circuits: 0, cards_to_discard: 0 },
        system: Some(System::FusionReactor),
    }
}

/// A shield-generator card: one more shield.
pub fn shields_01() -> (card: Card)
    ensures
        is_catalogue_card(8, card),
{
    Card {
        instant_effects: vec![Effect::Shield, Effect::LoseShortCircuit],
        hot_wire_effects: vec![Effect::Shield, Effect::UseMoreEnergy],
        hot_wire_cost: HotWireCost { short_circuits: -1, cards_to_discard: 0 },
        system: Some(System::ShieldGenerator),
    }
}

/// A shield-generator card: two more shields.
pub fn shields_02() -> (card: Card)
    ensures
        is_catalogue_card(9, card),
{
    Card {
        instant_effects: vec![Effect::Shield, Effect::LoseShortCircuit],
        hot_wire_effects: vec![
            Effect::Shield,
            Effect::Shield,
            Effect::UseMoreEnergy,
            Effect::UseMoreEnergy,
        ],
        hot_wire_cost: HotWireCost { short_circuits: 1, cards_to_discard: 0 },
        system: Some(System::ShieldGenerator),
    }
}

/// Returns the catalogue card of number `kind`.
pub fn catalogue_card(kind: usize) -> (card: Card)
    requires
        kind < CATALOGUE_SIZE,
    ensures
        is_catalogue_card(kind as int, card),
{
    match kind {
        0 => attack_01(),
        1 => attack_02(),
        2 => draw_01(),
        3 => draw_06(),
        4 => generic_01(),
        5 => generic_02(),
        6 => generic_07(),
        7 => power_05b(),
        8 => shields_01(),
        _ => shields_02(),
    }
}

/// Returns the deck as it is built, before it is shuffled.
pub fn fresh_deck() -> (deck: Vec<Card>)
    ensures
        is_fresh_deck(deck@),
{
    let mut deck: Vec<Card> = Vec::new();
    deck.push(attack_01());
    while deck.len() < DECK_SIZE
        invariant
            1 <= deck@.len() <= DECK_SIZE,
            forall|i: int|
                0 <= i < deck@.len() ==> is_catalogue_card(deck_kind(i), #[trigger] deck@[i]),
        decreases DECK_SIZE - deck@.len(),
    {
        let card = catalogue_card(2 + (deck.len() - 1) % 8);
        deck.push(card);
    }
    deck
}

/// Returns a shuffled deck.
pub fn get_deck() -> (deck: Vec<Card>)
    ensures
        deck@.len() == DECK_SIZE,
        is_shuffled_deck(deck@),
{
    let mut deck = fresh_deck();
    let ghost fresh = deck@;
    let mut generator = thread_rng();
    shuffle_cards(&mut deck, &mut generator);
    proof {
        lemma_shuffle_keeps_len(deck@, fresh);
    }
    deck
}

} // verus!
