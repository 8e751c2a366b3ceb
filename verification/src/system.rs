//! The four shipboard subsystems.

use vstd::prelude::*;

verus! {

/// A shipboard subsystem. Every player owns one of each.
#[derive(Clone, Copy, Debug, PartialEq, Eq, PartialOrd, Ord, Hash, Structural)]
pub enum System {
    FusionReactor,
    LifeSupport,
    Weapons,
    ShieldGenerator,
}

} // verus!
