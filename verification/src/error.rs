//! Why a submission is turned down.

use vstd::prelude::*;

verus! {

/// The reasons for which a submission is rejected. A rejected submission
/// changes nothing.
#[derive(PartialEq, Eq, Debug, Clone, Copy, Structural)]
pub enum UserActionError {
    NotYourTurn,
    NotEnoughCardsToDiscard,
    NotEnoughActionsLeft,
    SystemHasNoOverload,
    MissingEnergyDistribution,
    InvalidEnergyDistribution,
    CannotPutEnergyOnDisabledSystem,
    InvalidCardIndex,
    CannotActivateOverloadedSystem,
    NotEnoughEnergyToActivate,
    InvalidUserAction,
    InvalidDiscardIndices,
    WrongNumberOfDiscardIndices,
    NoMatchingEffectToResolve,
    NoShortCircuitToRemove,
    AlreadyAtMaxShields,
    NoOverloadToDiscard,
    NoShieldsToLose,
    DiscardingCardPlayed,
    CannotHotWireCardOnThisSystem,
    StillHaveSomeEffectsThatMustBeResolved,
    NoCardToDraw,
    NoEnergyToMoveOnSystem,
    SystemAlreadyHasMaxEnergy,
    ActivePlayerCannotResolveOpponentDiscard,
    CannotDrawPowerFromSystem,
    IncorrectAmountOfEnergyToUse,
    CannotResolveBypassShieldWithoutAttack,
}

} // verus!
