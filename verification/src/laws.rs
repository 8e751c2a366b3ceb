//! What holds of every session and every submission.

use vstd::prelude::*;

use crate::action::{Action, UserAction, UserActionWithPlayer};
use crate::card::Card;
use crate::effect::{Effect, ResolveEffect};
use crate::error::UserActionError;
use crate::model::{
    descending, has_kind, is_shuffle_of, lemma_shuffle_keeps_len, resolvable, unforced, GameModel,
};
use crate::player::{Player, PlayerModel};
use crate::positions::{lemma_move_conserves, lemma_sort_keeps_len};
use crate::subsystem::{installed_effects, is_effect, SystemModel};
use crate::system::System;

verus! {

impl SystemModel {
    /// Whether the subsystem stores no more energy than it can.
    pub open spec fn within_cap(self) -> bool {
        self.energy <= self.allowed_energy()
    }
}

impl PlayerModel {
    /// Whether the player has no more shields than the shield generator
    /// can store energy.
    pub open spec fn shields_within_cap(self) -> bool {
        self.shields <= self.shield_generator.allowed_energy()
    }

    /// Whether no subsystem stores more energy than it can.
    pub open spec fn energy_within_caps(self) -> bool {
        &&& self.fusion_reactor.within_cap()
        &&& self.life_support.within_cap()
        &&& self.weapons_system.within_cap()
        &&& self.shield_generator.within_cap()
    }
}

impl SystemModel {
    /// Whether neither energy nor overloads are negative.
    pub open spec fn nonnegative(self) -> bool {
        self.energy >= 0 && self.overloads >= 0
    }
}

impl PlayerModel {
    /// Whether no counter of the player is negative.
    pub open spec fn nonnegative(self) -> bool {
        &&& self.hull_damage >= 0
        &&& self.shields >= 0
        &&& self.short_circuits >= 0
        &&& self.fusion_reactor.nonnegative()
        &&& self.life_support.nonnegative()
        &&& self.weapons_system.nonnegative()
        &&& self.shield_generator.nonnegative()
    }
}

impl GameModel {
    /// Whether no counter of the session is negative.
    pub open spec fn nonnegative(self) -> bool {
        &&& self.player1.nonnegative()
        &&& self.player2.nonnegative()
        &&& self.actions_left >= 0
    }

    /// Whether `submission` is an accepted reactor activation that puts a
    /// negative amount of energy on a subsystem.
    pub open spec fn starves(self, submission: UserActionWithPlayer) -> bool {
        match submission.user_action {
            UserAction::ChooseAction {
                action: Action::ActivateSystem {
                    system: System::FusionReactor,
                    energy_distribution: Some(distribution),
                    ..
                },
            } => self.verdict(submission) is Ok && (distribution.amount(System::FusionReactor) < 0
                || distribution.amount(System::LifeSupport) < 0 || distribution.amount(
                System::Weapons,
            ) < 0 || distribution.amount(System::ShieldGenerator) < 0),
            _ => false,
        }
    }

    /// Whether neither player has more shields than the shield generator
    /// can store energy.
    pub open spec fn shields_within_caps(self) -> bool {
        self.player1.shields_within_cap() && self.player2.shields_within_cap()
    }

    /// Whether no subsystem of either player stores more energy than it
    /// can.
    pub open spec fn energy_within_caps(self) -> bool {
        self.player1.energy_within_caps() && self.player2.energy_within_caps()
    }

    /// Whether the queue is tidy: every pending effect can be resolved by a
    /// submission, and no forced discard is pending while the player who is
    /// not active holds no card.
    pub open spec fn is_tidy(self) -> bool {
        &&& forall|i: int|
            0 <= i < self.pending().len() ==> (#[trigger] self.pending()[i]).is_immediate()
        &&& self.state_of(self.players_turn.other()).hand.len() == 0 ==> forall|i: int|
            0 <= i < self.pending().len() ==> #[trigger] self.pending()[i]
                != Effect::OpponentDiscard
    }

    /// Whether `submission` is an accepted activation that leaves more
    /// energy on a subsystem of the player than the subsystem can store.
    pub open spec fn overfills(self, submission: UserActionWithPlayer) -> bool {
        match submission.user_action {
            UserAction::ChooseAction {
                action: Action::ActivateSystem { system, energy_to_use, energy_distribution },
            } => self.verdict(submission) is Ok && !self.activated(
                submission.player,
                system,
                energy_to_use,
                energy_distribution,
            ).state_of(submission.player).energy_within_caps(),
            _ => false,
        }
    }
}

/// Starting figures: at the start of a session the reactor stores
/// five units of energy and every other subsystem three; an activation of
/// life support or the weapons uses two units, one of the reactor or the
/// shield generator one.
pub proof fn law_starting_figures()
    ensures
        PlayerModel::start().countable(),
        PlayerModel::start().fusion_reactor.allowed_energy() == 5,
        PlayerModel::start().life_support.allowed_energy() == 3,
        PlayerModel::start().weapons_system.allowed_energy() == 3,
        PlayerModel::start().shield_generator.allowed_energy() == 3,
        PlayerModel::start().fusion_reactor.energy_used() == 1,
        PlayerModel::start().life_support.energy_used() == 2,
        PlayerModel::start().weapons_system.energy_used() == 2,
        PlayerModel::start().shield_generator.energy_used() == 1,
{
    reveal_with_fuel(Seq::filter, 8);
}

/// A session dealt from a deck of at least six cards starts within all
/// caps, with no negative counter and with a tidy queue.
pub proof fn law_dealt_session_is_sound(deck: Seq<Card>)
    requires
        deck.len() >= 6,
    ensures
        GameModel::dealt(deck).countable(),
        GameModel::dealt(deck).is_tidy(),
        GameModel::dealt(deck).shields_within_caps(),
        GameModel::dealt(deck).energy_within_caps(),
        GameModel::dealt(deck).nonnegative(),
        GameModel::dealt(deck).total_cards() == deck.len(),
{
    law_starting_figures();
}

/// A filter keeps a sequence whose elements all pass it.
pub proof fn lemma_filter_keeps_all(effects: Seq<Effect>, test: spec_fn(Effect) -> bool)
    requires
        forall|i: int| 0 <= i < effects.len() ==> test(#[trigger] effects[i]),
    ensures
        effects.filter(test) == effects,
    decreases effects.len(),
{
    reveal(Seq::filter);
    if effects.len() > 0 {
        lemma_filter_keeps_all(effects.drop_last(), test);
    }
}

/// A filter that keeps as many elements as there are keeps the sequence.
pub proof fn lemma_filter_same_len(effects: Seq<Effect>, test: spec_fn(Effect) -> bool)
    ensures
        effects.filter(test).len() == effects.len() ==> effects.filter(test) == effects,
    decreases effects.len(),
{
    reveal(Seq::filter);
    if effects.len() > 0 {
        lemma_filter_same_len(effects.drop_last(), test);
    }
}

/// Whatever a filter lets through passes it and stood in the sequence.
pub proof fn lemma_filter_passes(effects: Seq<Effect>, test: spec_fn(Effect) -> bool)
    ensures
        forall|i: int|
            0 <= i < effects.filter(test).len() ==> test(#[trigger] effects.filter(test)[i])
                && effects.contains(effects.filter(test)[i]),
{
    let kept = effects.filter(test);
    assert forall|i: int| 0 <= i < kept.len() implies test(#[trigger] kept[i]) && effects.contains(
        kept[i],
    ) by {
        effects.lemma_filter_pred(test, i);
        effects.lemma_filter_contains_rev(test, kept[i]);
    }
}

/// Installing one more card adds its effects to the end of what the
/// installed cards grant.
pub proof fn lemma_installed_effects_push(cards: Seq<Card>, card: Card)
    ensures
        installed_effects(cards.push(card)) == installed_effects(cards) + card.hot_wire_effects@,
{
    assert(cards.push(card).drop_last() =~= cards);
}

/// A subsystem can store no less energy once one more card is installed.
pub proof fn lemma_install_keeps_capacity(system: SystemModel, card: Card)
    ensures
        (SystemModel { hot_wires: system.hot_wires.push(card), ..system }).allowed_energy()
            >= system.allowed_energy(),
{
    lemma_installed_effects_push(system.hot_wires, card);
    Seq::filter_distributes_over_add(
        system.effect_pool(),
        card.hot_wire_effects@,
        is_effect(Effect::StoreMoreEnergy),
    );
}

/// An installation moves cards and neither makes nor loses one.
pub proof fn lemma_install_conserves(
    session: GameModel,
    player: Player,
    card_index: usize,
    system: System,
    indices: Seq<usize>,
)
    requires
        session.install_verdict(player, card_index, system, indices) is Ok,
    ensures
        session.installed(player, card_index, system, indices).total_cards()
            == session.total_cards(),
{
    lemma_move_conserves(
        session.discard_pile,
        session.state_of(player).hand.remove(card_index as int),
        GameModel::install_positions(card_index, indices),
    );
}

/// A discard moves cards and neither makes nor loses one.
pub proof fn lemma_discard_conserves(session: GameModel, player: Player, indices: Seq<usize>)
    requires
        session.discard_verdict(player, indices) is Ok,
    ensures
        session.discarded(player, indices).total_cards() == session.total_cards(),
{
    lemma_move_conserves(
        session.discard_pile,
        session.state_of(player).hand,
        indices.sort_by(descending()),
    );
}

/// An action moves cards and neither makes nor loses one.
pub proof fn lemma_action_conserves(session: GameModel, player: Player, action: Action)
    requires
        session.action_verdict(player, action) is Ok,
    ensures
        session.acted(player, action).total_cards() == session.total_cards(),
{
    match action {
        Action::HotWireCard { card_index, system, indices_to_discard } => {
            lemma_install_conserves(session, player, card_index, system, indices_to_discard@);
        },
        _ => {},
    }
}

/// A resolution moves cards and neither makes nor loses one.
pub proof fn lemma_resolution_conserves(
    session: GameModel,
    player: Player,
    resolution: ResolveEffect,
    refill: Seq<Card>,
)
    requires
        session.resolution_verdict(player, resolution) is Ok,
        is_shuffle_of(refill, session.discard_pile),
    ensures
        session.resolved(player, resolution, refill).total_cards() == session.total_cards(),
{
    match resolution {
        ResolveEffect::PlayHotWire { card_index, system, indices_to_discard } => {
            lemma_install_conserves(session, player, card_index, system, indices_to_discard@);
        },
        ResolveEffect::Draw => {
            lemma_shuffle_keeps_len(refill, session.discard_pile);
        },
        _ => {},
    }
}

/// Card conservation: the number of cards in both hands, on all eight
/// subsystems, in the deck and on the discard pile is the same before and
/// after every submission, accepted or rejected.
pub proof fn law_card_conservation(
    session: GameModel,
    submission: UserActionWithPlayer,
    refill: Seq<Card>,
)
    requires
        is_shuffle_of(refill, session.discard_pile),
    ensures
        session.outcome(submission, refill).total_cards() == session.total_cards(),
{
    let player = submission.player;
    if session.verdict(submission) is Ok {
        match submission.user_action {
            UserAction::ChooseAction { action } => {
                lemma_action_conserves(session, player, action);
            },
            UserAction::ResolveEffect { resolve_effect } => {
                if session.players_turn == player {
                    lemma_resolution_conserves(session, player, resolve_effect, refill);
                }
            },
            UserAction::Pass { card_indices_to_discard } => {
                if session.state_of(player).hand.len() > 5 {
                    lemma_discard_conserves(session, player, card_indices_to_discard@);
                }
            },
            UserAction::StopResolvingEffects => {},
        }
    }
}

/// A tidy queue stays as it is when it is tidied, and tidying changes
/// nothing but the queue.
pub proof fn lemma_tidy_stays(session: GameModel)
    ensures
        session.is_tidy() ==> session.settled() == session,
        session.is_tidy() ==> session.pruned() == session && session.relieved() == session,
        session.settled() == (GameModel { turn_state: session.settled().turn_state, ..session }),
{
    if session.is_tidy() {
        lemma_filter_keeps_all(session.pending(), resolvable());
        if session.state_of(session.players_turn.other()).hand.len() == 0 {
            lemma_filter_keeps_all(session.pending(), unforced());
        }
    }
}

/// Atomicity: a rejected submission leaves the session as it was. This
/// holds of every session with a tidy queue, and every session that a
/// submission leaves behind has one.
pub proof fn law_rejection_changes_nothing(
    session: GameModel,
    submission: UserActionWithPlayer,
    refill: Seq<Card>,
)
    requires
        session.is_tidy(),
        session.verdict(submission) is Err,
    ensures
        session.outcome(submission, refill) == session,
{
    lemma_tidy_stays(session);
}

/// A tidied queue is tidy.
pub proof fn lemma_settled_is_tidy(session: GameModel)
    ensures
        session.settled().is_tidy(),
{
    let kept = session.pending().filter(resolvable());
    lemma_filter_passes(session.pending(), resolvable());
    lemma_filter_passes(kept, unforced());
    assert forall|i: int| 0 <= i < kept.filter(unforced()).len() implies (#[trigger] kept.filter(
        unforced(),
    )[i]).is_immediate() by {
        let k = choose|k: int| 0 <= k < kept.len() && kept[k] == kept.filter(unforced())[i];
        assert(resolvable()(kept[k]));
    }
}

/// Tidy queue: every session that a submission leaves behind, accepted or
/// rejected, has a tidy queue.
pub proof fn law_outcome_is_tidy(
    session: GameModel,
    submission: UserActionWithPlayer,
    refill: Seq<Card>,
)
    ensures
        session.outcome(submission, refill).is_tidy(),
{
    lemma_settled_is_tidy(session);
    lemma_settled_is_tidy(session.successor(submission, refill));
}

/// An installation leaves shields and energy alone and lowers the
/// capacity of no subsystem.
pub proof fn lemma_install_keeps_caps(
    session: GameModel,
    player: Player,
    card_index: usize,
    system: System,
    indices: Seq<usize>,
)
    requires
        session.install_verdict(player, card_index, system, indices) is Ok,
    ensures
        session.shields_within_caps() ==> session.installed(
            player,
            card_index,
            system,
            indices,
        ).shields_within_caps(),
        session.energy_within_caps() ==> session.installed(
            player,
            card_index,
            system,
            indices,
        ).energy_within_caps(),
{
    let me = session.state_of(player);
    lemma_install_keeps_capacity(me.system(system), me.hand[card_index as int]);
}

/// An action keeps the shields within their cap, and the energy within
/// its caps unless it is an activation.
pub proof fn lemma_action_keeps_caps(session: GameModel, player: Player, action: Action)
    requires
        session.action_verdict(player, action) is Ok,
    ensures
        session.shields_within_caps() ==> session.acted(player, action).shields_within_caps(),
        session.energy_within_caps() && !(action is ActivateSystem) ==> session.acted(
            player,
            action,
        ).energy_within_caps(),
{
    match action {
        Action::HotWireCard { card_index, system, indices_to_discard } => {
            lemma_install_keeps_caps(session, player, card_index, system, indices_to_discard@);
        },
        _ => {},
    }
}

/// Moving a unit of energy, where it is allowed, leaves the shields alone
/// and keeps the energy within its caps.
pub proof fn lemma_move_keeps_caps(me: PlayerModel, from: System, to: System)
    requires
        me.move_verdict(from, to) is Ok,
    ensures
        me.shields_within_cap() ==> me.moved(from, to).shields_within_cap(),
        me.energy_within_caps() ==> me.moved(from, to).energy_within_caps(),
{
}

/// A change of overloads leaves shields, energy and capacities alone.
pub proof fn lemma_overloads_keep_caps(me: PlayerModel, system: System, overloads: int)
    ensures
        me.shields_within_cap() ==> me.with_overloads(system, overloads).shields_within_cap(),
        me.energy_within_caps() ==> me.with_overloads(system, overloads).energy_within_caps(),
{
}

/// A resolution keeps shields and energy within their caps.
pub proof fn lemma_resolution_keeps_caps(
    session: GameModel,
    player: Player,
    resolution: ResolveEffect,
    refill: Seq<Card>,
)
    requires
        session.resolution_verdict(player, resolution) is Ok,
    ensures
        session.shields_within_caps() ==> session.resolved(
            player,
            resolution,
            refill,
        ).shields_within_caps(),
        session.energy_within_caps() ==> session.resolved(
            player,
            resolution,
            refill,
        ).energy_within_caps(),
{
    let me = session.state_of(player);
    let opponent = session.state_of(player.other());
    match resolution {
        ResolveEffect::PlayHotWire { card_index, system, indices_to_discard } => {
            lemma_install_keeps_caps(session, player, card_index, system, indices_to_discard@);
        },
        ResolveEffect::DiscardOverload { system } => {
            lemma_overloads_keep_caps(me, system, me.system(system).overloads - 1);
        },
        ResolveEffect::OpponentGainOverload { system } => {
            lemma_overloads_keep_caps(opponent, system, opponent.system(system).overloads + 1);
        },
        ResolveEffect::OpponentMoveEnergy { from_system, to_system } => {
            lemma_move_keeps_caps(opponent, from_system, to_system);
        },
        ResolveEffect::MoveEnergy { from_system, to_system } => {
            lemma_move_keeps_caps(me, from_system, to_system);
        },
        ResolveEffect::MoveEnergyTo { from_system, to_system } => {
            lemma_move_keeps_caps(me, from_system, to_system);
        },
        _ => {},
    }
}

/// Shield cap: where neither player has more shields than the shield
/// generator can store energy, the same holds after every submission,
/// accepted or rejected.
pub proof fn law_shields_stay_within_caps(
    session: GameModel,
    submission: UserActionWithPlayer,
    refill: Seq<Card>,
)
    requires
        session.shields_within_caps(),
    ensures
        session.outcome(submission, refill).shields_within_caps(),
{
    let player = submission.player;
    if session.verdict(submission) is Ok {
        match submission.user_action {
            UserAction::ChooseAction { action } => {
                lemma_action_keeps_caps(session, player, action);
            },
            UserAction::ResolveEffect { resolve_effect } => {
                if session.players_turn == player {
                    lemma_resolution_keeps_caps(session, player, resolve_effect, refill);
                }
            },
            _ => {},
        }
    }
}

/// Energy caps: where no subsystem stores more energy than it can, the
/// same holds after every submission, accepted or rejected, but an
/// activation that itself puts more energy on a subsystem than the
/// subsystem can store.
pub proof fn law_energy_stays_within_caps(
    session: GameModel,
    submission: UserActionWithPlayer,
    refill: Seq<Card>,
)
    requires
        session.energy_within_caps(),
        !session.overfills(submission),
    ensures
        session.outcome(submission, refill).energy_within_caps(),
{
    let player = submission.player;
    if session.verdict(submission) is Ok {
        match submission.user_action {
            UserAction::ChooseAction { action } => {
                if !(action is ActivateSystem) {
                    lemma_action_keeps_caps(session, player, action);
                }
            },
            UserAction::ResolveEffect { resolve_effect } => {
                if session.players_turn == player {
                    lemma_resolution_keeps_caps(session, player, resolve_effect, refill);
                }
            },
            _ => {},
        }
    }
}

/// An action that is accepted leaves no counter negative, unless it is a
/// reactor activation that names a negative amount.
pub proof fn lemma_action_keeps_nonnegative(session: GameModel, submission: UserActionWithPlayer)
    requires
        session.nonnegative(),
        !session.starves(submission),
        session.verdict(submission) is Ok,
        submission.user_action is ChooseAction,
    ensures
        session.acted(submission.player, submission.user_action->action).nonnegative(),
{
}

/// Moving a unit of energy, where it is allowed, leaves no counter
/// negative.
pub proof fn lemma_move_keeps_nonnegative(me: PlayerModel, from: System, to: System)
    requires
        me.nonnegative(),
        me.move_verdict(from, to) is Ok,
    ensures
        me.moved(from, to).nonnegative(),
{
}

/// A resolution that is accepted leaves no counter negative.
pub proof fn lemma_resolution_keeps_nonnegative(
    session: GameModel,
    player: Player,
    resolution: ResolveEffect,
    refill: Seq<Card>,
)
    requires
        session.nonnegative(),
        session.resolution_verdict(player, resolution) is Ok,
    ensures
        session.resolved(player, resolution, refill).nonnegative(),
{
    let me = session.state_of(player);
    let opponent = session.state_of(player.other());
    match resolution {
        ResolveEffect::OpponentMoveEnergy { from_system, to_system } => {
            lemma_move_keeps_nonnegative(opponent, from_system, to_system);
        },
        ResolveEffect::MoveEnergy { from_system, to_system } => {
            lemma_move_keeps_nonnegative(me, from_system, to_system);
        },
        ResolveEffect::MoveEnergyTo { from_system, to_system } => {
            lemma_move_keeps_nonnegative(me, from_system, to_system);
        },
        _ => {},
    }
}

/// No negative counters: where hull damage, shields, short circuits,
/// energy, overloads and action points are not negative, the same holds
/// after every submission, accepted or rejected, but a reactor activation
/// that itself names a negative amount of energy.
pub proof fn law_counters_stay_nonnegative(
    session: GameModel,
    submission: UserActionWithPlayer,
    refill: Seq<Card>,
)
    requires
        session.nonnegative(),
        !session.starves(submission),
    ensures
        session.outcome(submission, refill).nonnegative(),
{
    let player = submission.player;
    if session.verdict(submission) is Ok {
        match submission.user_action {
            UserAction::ChooseAction { action } => {
                lemma_action_keeps_nonnegative(session, submission);
            },
            UserAction::ResolveEffect { resolve_effect } => {
                if session.players_turn == player {
                    lemma_resolution_keeps_nonnegative(session, player, resolve_effect, refill);
                }
            },
            _ => {},
        }
    }
}

/// Action points: an accepted action takes its cost from the action
/// points, and its cost never exceeds them.
pub proof fn law_action_points(session: GameModel, player: Player, action: Action)
    requires
        session.action_verdict(player, action) is Ok,
    ensures
        action.points() <= session.actions_left,
        session.acted(player, action).actions_left == session.actions_left - action.points(),
        0 <= action.points() <= 2,
{
}

/// Passing: an accepted pass makes the other player active, gives three
/// action points and leaves the passing player at most five hand cards.
pub proof fn law_pass(session: GameModel, player: Player, indices: Seq<usize>)
    requires
        session.pass_verdict(player, indices) is Ok,
    ensures
        session.passed(player, indices).players_turn == session.players_turn.other(),
        session.passed(player, indices).actions_left == 3,
        session.passed(player, indices).state_of(player).hand.len() <= 5,
{
    if session.state_of(player).hand.len() > 5 {
        lemma_sort_keeps_len(indices);
        lemma_move_conserves(
            session.discard_pile,
            session.state_of(player).hand,
            indices.sort_by(descending()),
        );
    }
}

/// Phase legality: while an action is to be chosen, a resolution is
/// rejected; while effects are pending, an action and a pass are rejected.
/// From the active player the reason is that the submission does not fit
/// the phase; from the other player, that it is not that player's turn.
pub proof fn law_phase_legality(session: GameModel, submission: UserActionWithPlayer)
    ensures
        session.turn_state is ChoosingAction && submission.user_action is ResolveEffect
            ==> session.verdict(submission) == Err::<(), UserActionError>(
            if submission.player == session.players_turn {
                UserActionError::InvalidUserAction
            } else {
                UserActionError::NotYourTurn
            },
        ),
        session.turn_state is ChoosingAction && submission.user_action is StopResolvingEffects
            ==> session.verdict(submission) is Err,
        session.turn_state is ResolvingEffects && (submission.user_action is ChooseAction
            || submission.user_action is Pass) ==> session.verdict(submission) == Err::<
            (),
            UserActionError,
        >(
            if submission.player == session.players_turn {
                UserActionError::InvalidUserAction
            } else {
                UserActionError::NotYourTurn
            },
        ),
{
}

/// A resolution is accepted only while an effect of its kind is pending,
/// and from the player who is not active only for a forced discard.
pub proof fn law_resolution_needs_pending_effect(
    session: GameModel,
    player: Player,
    resolution: ResolveEffect,
)
    requires
        session.verdict(
            UserActionWithPlayer {
                player,
                user_action: UserAction::ResolveEffect { resolve_effect: resolution },
            },
        ) is Ok,
    ensures
        has_kind(session.pending(), resolution.kind()),
        player != session.players_turn ==> resolution is OpponentDiscard,
{
}

} // verus!
