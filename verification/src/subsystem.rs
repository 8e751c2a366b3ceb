//! The state of one subsystem and the figures derived from the effects it
//! holds.

use vstd::prelude::*;

use crate::card::Card;
use crate::effect::Effect;
use crate::system::System;

verus! {

/// One subsystem of one player.
#[derive(Debug, Clone, PartialEq, Eq)]
pub struct SystemState {
    pub system: System,
    /// Energy stored on the subsystem.
    pub energy: i32,
    /// Overload tokens; any token disables the subsystem.
    pub overloads: i32,
    /// The cards installed on the subsystem, oldest first.
    pub hot_wires: Vec<Card>,
}

/// The mathematical value of a [`SystemState`].
pub struct SystemModel {
    pub system: System,
    pub energy: int,
    pub overloads: int,
    pub hot_wires: Seq<Card>,
}

impl View for SystemState {
    type V = SystemModel;

    open spec fn view(&self) -> SystemModel {
        SystemModel {
            system: self.system,
            energy: self.energy as int,
            overloads: self.overloads as int,
            hot_wires: self.hot_wires@,
        }
    }
}

impl System {
    /// The effects that a subsystem holds before any card is installed.
    pub open spec fn starting(self) -> Seq<Effect> {
        match self {
            System::FusionReactor => seq![
                Effect::StoreMoreEnergy,
                Effect::StoreMoreEnergy,
                Effect::StoreMoreEnergy,
                Effect::StoreMoreEnergy,
                Effect::StoreMoreEnergy,
            ],
            System::LifeSupport => seq![
                Effect::StoreMoreEnergy,
                Effect::StoreMoreEnergy,
                Effect::StoreMoreEnergy,
                Effect::Draw,
                Effect::Draw,
                Effect::UseMoreEnergy,
                Effect::UseMoreEnergy,
            ],
            System::Weapons => seq![
                Effect::StoreMoreEnergy,
                Effect::StoreMoreEnergy,
                Effect::StoreMoreEnergy,
                Effect::Attack,
                Effect::UseMoreEnergy,
                Effect::UseMoreEnergy,
            ],
            System::ShieldGenerator => seq![
                Effect::StoreMoreEnergy,
                Effect::StoreMoreEnergy,
                Effect::StoreMoreEnergy,
                Effect::Shield,
                Effect::UseMoreEnergy,
            ],
        }
    }

    /// Returns the effects that a subsystem holds before any card is
    /// installed.
    pub fn starting_effects(&self) -> (effects: Vec<Effect>)
        ensures
            effects@ == self.starting(),
    {
        let effects = match self {
            System::FusionReactor => vec![
                Effect::StoreMoreEnergy,
                Effect::StoreMoreEnergy,
                Effect::StoreMoreEnergy,
                Effect::StoreMoreEnergy,
                Effect::StoreMoreEnergy,
            ],
            System::LifeSupport => vec![
                Effect::StoreMoreEnergy,
                Effect::StoreMoreEnergy,
                Effect::StoreMoreEnergy,
                Effect::Draw,
                Effect::Draw,
                Effect::UseMoreEnergy,
                Effect::UseMoreEnergy,
            ],
            System::Weapons => vec![
                Effect::StoreMoreEnergy,
                Effect::StoreMoreEnergy,
                Effect::StoreMoreEnergy,
                Effect::Attack,
                Effect::UseMoreEnergy,
                Effect::UseMoreEnergy,
            ],
            System::ShieldGenerator => vec![
                Effect::StoreMoreEnergy,
                Effect::StoreMoreEnergy,
                Effect::StoreMoreEnergy,
                Effect::Shield,
                Effect::UseMoreEnergy,
            ],
        };
        effects
    }
}

/// The effects granted by a list of installed cards, card after card.
pub open spec fn installed_effects(cards: Seq<Card>) -> Seq<Effect>
    decreases cards.len(),
{
    if cards.len() == 0 {
        Seq::empty()
    } else {
        installed_effects(cards.drop_last()) + cards.last().hot_wire_effects@
    }
}

/// The test that tells `effect` from every other effect.
pub open spec fn is_effect(effect: Effect) -> spec_fn(Effect) -> bool {
    |e: Effect| e == effect
}

/// How often `effect` occurs in `effects`.
pub open spec fn occurrences(effects: Seq<Effect>, effect: Effect) -> nat {
    effects.filter(is_effect(effect)).len()
}

/// The subsystem whose cards an effect lets a subsystem take, if the
/// effect does that.
pub open spec fn card_grant() -> spec_fn(Effect) -> Option<System> {
    |e: Effect|
        match e {
            Effect::UseSystemCards(system) => Some(system),
            _ => None,
        }
}

/// The subsystem that an effect lets a subsystem draw energy from, if the
/// effect does that.
pub open spec fn power_grant() -> spec_fn(Effect) -> Option<System> {
    |e: Effect|
        match e {
            Effect::DrawPowerFrom(system) => Some(system),
            _ => None,
        }
}

impl SystemModel {
    /// The active effect pool: the starting effects, then the effects of
    /// every installed card.
    pub open spec fn effect_pool(self) -> Seq<Effect> {
        self.system.starting() + installed_effects(self.hot_wires)
    }

    /// The energy that the subsystem can store.
    pub open spec fn allowed_energy(self) -> int {
        occurrences(self.effect_pool(), Effect::StoreMoreEnergy) as int
    }

    /// The energy that one activation uses: never less than 1.
    pub open spec fn energy_used(self) -> int {
        let net = occurrences(self.effect_pool(), Effect::UseMoreEnergy) - occurrences(
            self.effect_pool(),
            Effect::UseLessEnergy,
        );
        if net < 1 {
            1
        } else {
            net
        }
    }

    /// Whether a card that belongs to `system` may be installed here.
    pub open spec fn accepts_cards_of(self, system: System) -> bool {
        system == self.system || self.effect_pool().contains(Effect::UseSystemCards(system))
    }

    /// Whether an activation of this subsystem may draw energy from
    /// `system`.
    pub open spec fn draws_power_from(self, system: System) -> bool {
        system == self.system || self.effect_pool().contains(Effect::DrawPowerFrom(system))
    }

    /// The subsystems whose cards may be installed here: those that the
    /// pool names for it, in the order of the pool, and then this one.
    pub open spec fn allowed_system_cards(self) -> Seq<System> {
        self.effect_pool().filter_map(card_grant()).push(self.system)
    }

    /// The subsystems that an activation of this one may draw energy from:
    /// those that the pool names for it, in the order of the pool, and then
    /// this one.
    pub open spec fn allowed_draw_sources(self) -> Seq<System> {
        self.effect_pool().filter_map(power_grant()).push(self.system)
    }

    /// Whether the derived figures fit the machine's counters.
    pub open spec fn countable(self) -> bool {
        self.effect_pool().len() <= i32::MAX
    }
}

/// Counts how often `effect` occurs in `effects`.
pub fn count_effect(effects: &Vec<Effect>, effect: Effect) -> (count: usize)
    ensures
        count == occurrences(effects@, effect),
        count <= effects@.len(),
{
    let mut count: usize = 0;
    let mut i: usize = 0;
    let ghost same = is_effect(effect);
    proof {
        reveal(Seq::filter);
    }
    while i < effects.len()
        invariant
            i <= effects@.len(),
            count <= i,
            count == effects@.take(i as int).filter(same).len(),
            same == is_effect(effect),
        decreases effects@.len() - i,
    {
        proof {
            let before = effects@.take(i as int);
            assert(effects@.take(i + 1) =~= before.push(effects@[i as int]));
            before.lemma_filter_push(effects@[i as int], same);
        }
        if effects[i] == effect {
            count += 1;
        }
        i += 1;
    }
    assert(effects@.take(i as int) =~= effects@);
    count
}

/// Tells whether `systems` holds `system`.
pub fn holds_system(systems: &Vec<System>, system: System) -> (found: bool)
    ensures
        found == systems@.contains(system),
{
    let mut i: usize = 0;
    while i < systems.len()
        invariant
            i <= systems@.len(),
            forall|k: int| 0 <= k < i ==> systems@[k] != system,
        decreases systems@.len() - i,
    {
        if systems[i] == system {
            return true;
        }
        i += 1;
    }
    false
}

impl SystemState {
    /// A subsystem with the given energy, no overload and no installed card.
    pub fn with_energy(energy: i32, system: System) -> (state: SystemState)
        ensures
            state@ == (SystemModel {
                system,
                energy: energy as int,
                overloads: 0,
                hot_wires: Seq::empty(),
            }),
    {
        SystemState { energy, system, overloads: 0, hot_wires: Vec::new() }
    }

    /// Returns the active effect pool.
    pub fn get_hot_wire_effects(&self) -> (effects: Vec<Effect>)
        ensures
            effects@ == self@.effect_pool(),
    {
        let mut effects = self.system.starting_effects();
        let mut i: usize = 0;
        while i < self.hot_wires.len()
            invariant
                i <= self.hot_wires@.len(),
                effects@ == self.system.starting() + installed_effects(
                    self.hot_wires@.take(i as int),
                ),
            decreases self.hot_wires@.len() - i,
        {
            let granted = &self.hot_wires[i].hot_wire_effects;
            let ghost before = effects@;
            let mut j: usize = 0;
            while j < granted.len()
                invariant
                    j <= granted@.len(),
                    effects@ == before + granted@.take(j as int),
                decreases granted@.len() - j,
            {
                effects.push(granted[j]);
                j += 1;
            }
            proof {
                assert(self.hot_wires@.take(i + 1).drop_last() =~= self.hot_wires@.take(i as int));
            }
            i += 1;
        }
        assert(self.hot_wires@.take(i as int) =~= self.hot_wires@);
        effects
    }

    /// Returns the energy that the subsystem can store: the number of
    /// store-more-energy effects in its pool.
    pub fn get_allowed_energy(&self) -> (allowed: i32)
        requires
            self@.countable(),
        ensures
            allowed == self@.allowed_energy(),
    {
        let effects = self.get_hot_wire_effects();
        count_effect(&effects, Effect::StoreMoreEnergy) as i32
    }

    /// Returns the energy that one activation uses: the use-more-energy
    /// effects less the use-less-energy effects of the pool, and at least 1.
    pub fn get_energy_used(&self) -> (used: i32)
        requires
            self@.countable(),
        ensures
            used == self@.energy_used(),
    {
        let effects = self.get_hot_wire_effects();
        let more = count_effect(&effects, Effect::UseMoreEnergy) as i32;
        let less = count_effect(&effects, Effect::UseLessEnergy) as i32;
        let net = more - less;
        if net < 1 {
            1
        } else {
            net
        }
    }

    /// Returns the subsystems whose cards may be installed here: those
    /// named by a use-system-cards effect of the pool, and this one.
    pub fn get_allowed_system_cards(&self) -> (systems: Vec<System>)
        ensures
            systems@ == self@.allowed_system_cards(),
            forall|system: System| systems@.contains(system) <==> self@.accepts_cards_of(system),
    {
        let effects = self.get_hot_wire_effects();
        let mut systems: Vec<System> = Vec::new();
        let mut i: usize = 0;
        while i < effects.len()
            invariant
                i <= effects@.len(),
                systems@ == effects@.take(i as int).filter_map(card_grant()),
                forall|system: System|
                    systems@.contains(system) <==> effects@.take(i as int).contains(
                        Effect::UseSystemCards(system),
                    ),
            decreases effects@.len() - i,
        {
            proof {
                effects@.lemma_filter_map_take_succ(card_grant(), i as int);
            }
            if let Effect::UseSystemCards(named) = effects[i] {
                systems.push(named);
            }
            proof {
                broadcast use vstd::seq_lib::lemma_seq_contains_after_push;

            }
            i += 1;
        }
        assert(effects@.take(i as int) =~= effects@);
        systems.push(self.system);
        proof {
            broadcast use vstd::seq_lib::lemma_seq_contains_after_push;

        }
        systems
    }

    /// Returns the subsystems that an activation of this one may draw energy
    /// from: those named by a draw-power-from effect of the pool, and this
    /// one.
    pub fn get_allowed_systems_to_draw_energy_from(&self) -> (systems: Vec<System>)
        ensures
            systems@ == self@.allowed_draw_sources(),
            forall|system: System| systems@.contains(system) <==> self@.draws_power_from(system),
    {
        let effects = self.get_hot_wire_effects();
        let mut systems: Vec<System> = Vec::new();
        let mut i: usize = 0;
        while i < effects.len()
            invariant
                i <= effects@.len(),
                systems@ == effects@.take(i as int).filter_map(power_grant()),
                forall|system: System|
                    systems@.contains(system) <==> effects@.take(i as int).contains(
                        Effect::DrawPowerFrom(system),
                    ),
            decreases effects@.len() - i,
        {
            proof {
                effects@.lemma_filter_map_take_succ(power_grant(), i as int);
            }
            if let Effect::DrawPowerFrom(named) = effects[i] {
                systems.push(named);
            }
            proof {
                broadcast use vstd::seq_lib::lemma_seq_contains_after_push;

            }
            i += 1;
        }
        assert(effects@.take(i as int) =~= effects@);
        systems.push(self.system);
        proof {
            broadcast use vstd::seq_lib::lemma_seq_contains_after_push;

        }
        systems
    }
}

} // verus!
