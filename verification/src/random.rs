//! Chance: the calls into the `rand` crate.

use rand::rngs::ThreadRng;
use rand::seq::SliceRandom;
use rand::Rng;
use vstd::prelude::*;

use crate::card::Card;
use crate::model::is_shuffle_of;

verus! {

/// The generator of the `rand` crate that every thread has for itself.
/// Nothing is known of what it holds.
#[verifier::external_type_specification]
#[verifier::external_body]
pub struct ExThreadRng(ThreadRng);

/// `rand::thread_rng` hands out the generator of the current thread, which
/// the system seeds. Nothing is claimed of it. The call panics only where
/// the system has no randomness to give.
pub assume_specification[ rand::thread_rng ]() -> (generator: ThreadRng)
;

/// Shuffles `cards` in place with `SliceRandom::shuffle` of the `rand`
/// crate.
///
/// Believed, not proved: the shuffle only swaps elements of the slice, so
/// the cards after the call are the cards before it in some order. Nothing
/// is claimed about the order.
#[verifier::external_body]
pub(crate) fn shuffle_cards(cards: &mut Vec<Card>, generator: &mut ThreadRng)
    ensures
        is_shuffle_of(final(cards)@, old(cards)@),
{
    cards.shuffle(generator);
}

/// Picks a number below `options` with `Rng::gen_range` of the `rand`
/// crate.
///
/// Believed, not proved: the number lies in the range `0..options`. The
/// call panics on an empty range, which the precondition excludes.
#[verifier::external_body]
pub(crate) fn random_below(options: usize, generator: &mut ThreadRng) -> (choice: usize)
    requires
        options > 0,
    ensures
        choice < options,
{
    generator.gen_range(0..options)
}

} // verus!
