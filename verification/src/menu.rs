//! What the numbers of a console menu stand for.

use vstd::prelude::*;

use crate::subsystem::SystemState;
use crate::system::System;

verus! {

/// The subsystem that a menu number stands for, if it stands for one.
pub open spec fn system_of_choice(number: usize) -> Option<System> {
    if number == 0 {
        Some(System::FusionReactor)
    } else if number == 1 {
        Some(System::LifeSupport)
    } else if number == 2 {
        Some(System::Weapons)
    } else if number == 3 {
        Some(System::ShieldGenerator)
    } else {
        None
    }
}

/// Returns the subsystem that a menu number stands for, if it stands for
/// one.
pub fn system_for_choice(number: usize) -> (system: Option<System>)
    ensures
        system == system_of_choice(number),
{
    match number {
        0 => Some(System::FusionReactor),
        1 => Some(System::LifeSupport),
        2 => Some(System::Weapons),
        3 => Some(System::ShieldGenerator),
        _ => None,
    }
}

/// Returns `number` as a hand position where a hand of `cards_len` cards
/// has that position.
pub fn card_index_for_choice(cards_len: usize, number: usize) -> (card_index: Option<usize>)
    ensures
        card_index == if number < cards_len {
            Some(number)
        } else {
            None::<usize>
        },
{
    if number < cards_len {
        Some(number)
    } else {
        None
    }
}

/// The most energy that may be put on a subsystem while `remaining` units
/// are left to distribute: nothing on an overloaded subsystem, else what
/// the subsystem can store, but no more than is left and not less than
/// nothing.
pub open spec fn energy_limit_of(overloads: int, allowed: int, remaining: int) -> int {
    if overloads > 0 {
        0
    } else if allowed < remaining {
        if allowed < 0 {
            0
        } else {
            allowed
        }
    } else if remaining < 0 {
        0
    } else {
        remaining
    }
}

/// Returns the most energy that may be put on `system_state` while
/// `remaining` units are left to distribute.
pub fn energy_limit(system_state: &SystemState, remaining: i32) -> (limit: i32)
    requires
        system_state@.countable(),
    ensures
        limit == energy_limit_of(
            system_state@.overloads,
            system_state@.allowed_energy(),
            remaining as int,
        ),
{
    if system_state.overloads > 0 {
        return 0;
    }
    let allowed = system_state.get_allowed_energy();
    let limit = if allowed < remaining {
        allowed
    } else {
        remaining
    };
    if limit < 0 {
        0
    } else {
        limit
    }
}

/// Returns `number` as an amount of energy where it is no more than
/// `limit`.
pub fn energy_for_choice(limit: i32, number: usize) -> (energy: Option<i32>)
    requires
        limit >= 0,
    ensures
        energy == if number <= limit {
            Some(number as i32)
        } else {
            None::<i32>
        },
{
    if number <= limit as usize {
        Some(number as i32)
    } else {
        None
    }
}

} // verus!
