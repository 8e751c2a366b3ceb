//! Hand positions: putting them in the order of discarding, renumbering
//! them, and moving the cards they name.

use vstd::prelude::*;
use vstd::relations::sorted_by;
use vstd::seq_lib::{lemma_sorted_unique, to_multiset_build, to_multiset_insert, to_multiset_len};

use crate::card::Card;
use crate::model::{descending, discarded_onto, removable, renumbered, without};

verus! {

/// Sorting keeps the number of positions.
pub proof fn lemma_sort_keeps_len(indices: Seq<usize>)
    ensures
        indices.sort_by(descending()).len() == indices.len(),
{
    indices.lemma_sort_by_ensures(descending());
    to_multiset_len(indices);
    to_multiset_len(indices.sort_by(descending()));
}

/// Returns the positions highest first.
pub fn sort_descending(indices: &Vec<usize>) -> (sorted: Vec<usize>)
    ensures
        sorted@ == indices@.sort_by(descending()),
{
    let mut sorted: Vec<usize> = Vec::new();
    let mut i: usize = 0;
    assert(indices@.take(0) =~= sorted@);
    while i < indices.len()
        invariant
            i <= indices@.len(),
            sorted_by(sorted@, descending()),
            sorted@.to_multiset() == indices@.take(i as int).to_multiset(),
        decreases indices@.len() - i,
    {
        let x = indices[i];
        let mut p: usize = 0;
        while p < sorted.len() && sorted[p] > x
            invariant
                p <= sorted@.len(),
                forall|k: int| 0 <= k < p ==> sorted@[k] > x,
            decreases sorted@.len() - p,
        {
            p += 1;
        }
        let ghost before = sorted@;
        sorted.insert(p, x);
        proof {
            let geq = descending();
            assert forall|a: int, b: int| 0 <= a < b < sorted@.len() implies #[trigger] geq(
                sorted@[a],
                sorted@[b],
            ) by {
                if a == p && b - 1 > p {
                    assert(geq(before[p as int], before[b - 1]));
                }
            }
            to_multiset_insert(before, p as int, x);
            to_multiset_build(indices@.take(i as int), x);
            assert(indices@.take(i + 1) =~= indices@.take(i as int).push(x));
        }
        i += 1;
    }
    proof {
        assert(indices@.take(i as int) =~= indices@);
        indices@.lemma_sort_by_ensures(descending());
        lemma_sorted_unique(sorted@, indices@.sort_by(descending()), descending());
    }
    sorted
}

/// Tells whether the cards at `positions` can be taken one after the other
/// from a list of `len` cards.
pub fn can_remove(len: usize, positions: &Vec<usize>) -> (possible: bool)
    ensures
        possible == removable(len as int, positions@),
{
    let mut k: usize = 0;
    while k < positions.len()
        invariant
            k <= positions@.len(),
            forall|j: int| 0 <= j < k ==> #[trigger] positions@[j] + j < len,
        decreases positions@.len() - k,
    {
        if k >= len || positions[k] >= len - k {
            return false;
        }
        k += 1;
    }
    true
}

/// Tells whether `indices` holds `index`.
pub fn holds_index(indices: &Vec<usize>, index: usize) -> (found: bool)
    ensures
        found == indices@.contains(index),
{
    let mut i: usize = 0;
    while i < indices.len()
        invariant
            i <= indices@.len(),
            forall|k: int| 0 <= k < i ==> indices@[k] != index,
        decreases indices@.len() - i,
    {
        if indices[i] == index {
            return true;
        }
        i += 1;
    }
    false
}

/// Returns the positions as they count once the card at `removed` has left
/// the hand.
pub fn renumber(indices: &Vec<usize>, removed: usize) -> (shifted: Vec<usize>)
    ensures
        shifted@ == renumbered(indices@, removed),
{
    let mut shifted: Vec<usize> = Vec::new();
    let mut i: usize = 0;
    while i < indices.len()
        invariant
            i <= indices@.len(),
            shifted@ == renumbered(indices@, removed).take(i as int),
        decreases indices@.len() - i,
    {
        let index = indices[i];
        if index > removed {
            shifted.push(index - 1);
        } else {
            shifted.push(index);
        }
        i += 1;
    }
    shifted
}

/// Moves the cards at `positions` from `cards` to `pile`, one after the
/// other.
pub fn move_cards(cards: &mut Vec<Card>, pile: &mut Vec<Card>, positions: &Vec<usize>)
    requires
        removable(old(cards)@.len() as int, positions@),
    ensures
        final(cards)@ == without(old(cards)@, positions@),
        final(pile)@ == discarded_onto(old(pile)@, old(cards)@, positions@),
{
    let mut k: usize = 0;
    assert(positions@.skip(0) =~= positions@);
    while k < positions.len()
        invariant
            k <= positions@.len(),
            cards@.len() + k == old(cards)@.len(),
            removable(old(cards)@.len() as int, positions@),
            without(cards@, positions@.skip(k as int)) == without(old(cards)@, positions@),
            discarded_onto(pile@, cards@, positions@.skip(k as int)) == discarded_onto(
                old(pile)@,
                old(cards)@,
                positions@,
            ),
        decreases positions@.len() - k,
    {
        let position = positions[k];
        proof {
            assert(positions@.skip(k as int).drop_first() =~= positions@.skip(k + 1));
        }
        let card = cards.remove(position);
        pile.push(card);
        k += 1;
    }
}

/// Taking cards leaves as many cards as were not taken, and the pile grows
/// by the cards taken.
pub proof fn lemma_move_conserves(pile: Seq<Card>, cards: Seq<Card>, positions: Seq<usize>)
    requires
        removable(cards.len() as int, positions),
    ensures
        without(cards, positions).len() + positions.len() == cards.len(),
        discarded_onto(pile, cards, positions).len() == pile.len() + positions.len(),
    decreases positions.len(),
{
    if positions.len() > 0 {
        let rest = positions.drop_first();
        lemma_move_conserves(
            pile.push(cards[positions[0] as int]),
            cards.remove(positions[0] as int),
            rest,
        );
    }
}

} // verus!
