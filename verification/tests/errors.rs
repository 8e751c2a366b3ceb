use shields_up::{
    Action, Card, Effect, EnergyMap, GameState, HotWireCost, Player, ResolveEffect, System,
    TurnState, UserAction, UserActionError, UserActionWithPlayer,
};

fn blank_card() -> Card {
    Card {
        instant_effects: vec![],
        hot_wire_effects: vec![],
        hot_wire_cost: HotWireCost {
            short_circuits: 0,
            cards_to_discard: 0,
        },
        system: None,
    }
}

fn act(game_state: &mut GameState, action: Action) -> Result<(), UserActionError> {
    game_state.receive_user_action(UserActionWithPlayer {
        player: Player::Player1,
        user_action: UserAction::ChooseAction { action },
    })
}

fn settle(game_state: &mut GameState, resolve_effect: ResolveEffect) -> Result<(), UserActionError> {
    game_state.receive_user_action(UserActionWithPlayer {
        player: Player::Player1,
        user_action: UserAction::ResolveEffect { resolve_effect },
    })
}

fn resolving(effects: Vec<Effect>) -> GameState {
    let mut game_state = GameState::start_state();
    game_state.turn_state = TurnState::ResolvingEffects { effects };
    game_state
}

fn install(card_index: usize, system: System, indices_to_discard: Vec<usize>) -> Action {
    Action::HotWireCard {
        card_index,
        system,
        indices_to_discard,
    }
}

fn activate_with(system: System, sources: &[(System, i32)]) -> Action {
    let mut energy_to_use = EnergyMap::new();
    for (source, energy) in sources {
        energy_to_use.insert(*source, *energy);
    }
    Action::ActivateSystem {
        system,
        energy_to_use: Some(energy_to_use),
        energy_distribution: None,
    }
}

#[test]
fn error_not_your_turn() {
    let mut game_state = GameState::start_state();
    let result = game_state.receive_user_action(UserActionWithPlayer {
        player: Player::Player2,
        user_action: UserAction::ChooseAction {
            action: Action::ReduceShortCircuits,
        },
    });
    assert_eq!(result, Err(UserActionError::NotYourTurn));
}

#[test]
fn error_not_enough_cards_to_discard() {
    let mut game_state = GameState::start_state();
    let mut card = blank_card();
    card.hot_wire_cost.cards_to_discard = 2;
    game_state.player1.hand = vec![card, blank_card()];
    assert_eq!(
        act(&mut game_state, install(0, System::Weapons, vec![1])),
        Err(UserActionError::NotEnoughCardsToDiscard)
    );
}

#[test]
fn error_not_enough_actions_left() {
    let mut game_state = GameState::start_state();
    game_state.actions_left = 1;
    let mut distribution = EnergyMap::new();
    distribution.insert(System::FusionReactor, 5);
    let action = Action::ActivateSystem {
        system: System::FusionReactor,
        energy_to_use: None,
        energy_distribution: Some(distribution),
    };
    assert_eq!(
        act(&mut game_state, action),
        Err(UserActionError::NotEnoughActionsLeft)
    );
    game_state.actions_left = 0;
    assert_eq!(
        act(&mut game_state, Action::ReduceShortCircuits),
        Err(UserActionError::NotEnoughActionsLeft)
    );
    game_state.player1.hand = vec![blank_card()];
    assert_eq!(
        act(&mut game_state, Action::PlayInstantCard { card_index: 0 }),
        Ok(())
    );
}

#[test]
fn error_system_has_no_overload() {
    let mut game_state = GameState::start_state();
    assert_eq!(
        act(
            &mut game_state,
            Action::DiscardOverload {
                system: System::LifeSupport
            }
        ),
        Err(UserActionError::SystemHasNoOverload)
    );
}

#[test]
fn error_missing_energy_distribution() {
    let mut game_state = GameState::start_state();
    let action = Action::ActivateSystem {
        system: System::FusionReactor,
        energy_to_use: Some(EnergyMap::new()),
        energy_distribution: None,
    };
    assert_eq!(
        act(&mut game_state, action),
        Err(UserActionError::MissingEnergyDistribution)
    );
}

#[test]
fn error_invalid_energy_distribution() {
    let mut game_state = GameState::start_state();
    let action = Action::ActivateSystem {
        system: System::FusionReactor,
        energy_to_use: None,
        energy_distribution: Some(EnergyMap::new()),
    };
    assert_eq!(
        act(&mut game_state, action),
        Err(UserActionError::InvalidEnergyDistribution)
    );
}

#[test]
fn error_cannot_put_energy_on_disabled_system() {
    let mut game_state = resolving(vec![Effect::MoveEnergy]);
    game_state.player1.weapons_system.overloads = 2;
    let result = settle(
        &mut game_state,
        ResolveEffect::MoveEnergy {
            from_system: System::LifeSupport,
            to_system: System::Weapons,
        },
    );
    assert_eq!(result, Err(UserActionError::CannotPutEnergyOnDisabledSystem));
    assert_eq!(game_state.player1.life_support.energy, 2);
}

#[test]
fn error_invalid_card_index() {
    let mut game_state = GameState::start_state();
    assert_eq!(
        act(&mut game_state, Action::PlayInstantCard { card_index: 3 }),
        Err(UserActionError::InvalidCardIndex)
    );
    assert_eq!(
        act(&mut game_state, install(3, System::Weapons, vec![])),
        Err(UserActionError::InvalidCardIndex)
    );
}

#[test]
fn error_cannot_activate_overloaded_system() {
    let mut game_state = GameState::start_state();
    game_state.player1.weapons_system.overloads = 1;
    let action = Action::ActivateSystem {
        system: System::Weapons,
        energy_to_use: None,
        energy_distribution: None,
    };
    assert_eq!(
        act(&mut game_state, action),
        Err(UserActionError::CannotActivateOverloadedSystem)
    );
}

#[test]
fn error_not_enough_energy_to_activate() {
    let mut game_state = GameState::start_state();
    game_state.player1.weapons_system.energy = 1;
    let action = Action::ActivateSystem {
        system: System::Weapons,
        energy_to_use: None,
        energy_distribution: None,
    };
    assert_eq!(
        act(&mut game_state, action),
        Err(UserActionError::NotEnoughEnergyToActivate)
    );
}

#[test]
fn error_invalid_user_action() {
    let mut game_state = resolving(vec![Effect::Attack]);
    assert_eq!(
        act(&mut game_state, Action::ReduceShortCircuits),
        Err(UserActionError::InvalidUserAction)
    );
}

#[test]
fn error_invalid_discard_indices() {
    let mut game_state = GameState::start_state();
    let mut card = blank_card();
    card.hot_wire_cost.cards_to_discard = 1;
    game_state.player1.hand = vec![blank_card(), card];
    assert_eq!(
        act(&mut game_state, install(1, System::Weapons, vec![2])),
        Err(UserActionError::InvalidDiscardIndices)
    );
    assert_eq!(
        act(&mut game_state, install(1, System::Weapons, vec![0])),
        Ok(())
    );
}

#[test]
fn error_wrong_number_of_discard_indices() {
    let mut game_state = GameState::start_state();
    let mut card = blank_card();
    card.hot_wire_cost.cards_to_discard = 1;
    game_state.player1.hand = vec![card, blank_card(), blank_card()];
    assert_eq!(
        act(&mut game_state, install(0, System::Weapons, vec![1, 2])),
        Err(UserActionError::WrongNumberOfDiscardIndices)
    );
    assert_eq!(
        act(&mut game_state, install(0, System::Weapons, vec![])),
        Err(UserActionError::WrongNumberOfDiscardIndices)
    );
}

#[test]
fn error_no_matching_effect_to_resolve() {
    let mut game_state = resolving(vec![Effect::Attack, Effect::MoveEnergy]);
    assert_eq!(
        settle(&mut game_state, ResolveEffect::Draw),
        Err(UserActionError::NoMatchingEffectToResolve)
    );
    let result = settle(
        &mut game_state,
        ResolveEffect::MoveEnergyTo {
            from_system: System::Weapons,
            to_system: System::LifeSupport,
        },
    );
    assert_eq!(result, Err(UserActionError::NoMatchingEffectToResolve));
}

#[test]
fn error_no_short_circuit_to_remove() {
    let mut game_state = resolving(vec![Effect::LoseShortCircuit]);
    assert_eq!(
        settle(&mut game_state, ResolveEffect::LoseShortCircuit),
        Err(UserActionError::NoShortCircuitToRemove)
    );
}

#[test]
fn error_already_at_max_shields() {
    let mut game_state = resolving(vec![Effect::Shield]);
    game_state.player1.shields = 3;
    assert_eq!(
        settle(&mut game_state, ResolveEffect::Shield),
        Err(UserActionError::AlreadyAtMaxShields)
    );
}

#[test]
fn error_no_overload_to_discard() {
    let mut game_state = resolving(vec![Effect::DiscardOverload]);
    game_state.player1.weapons_system.overloads = 1;
    let result = settle(
        &mut game_state,
        ResolveEffect::DiscardOverload {
            system: System::LifeSupport,
        },
    );
    assert_eq!(result, Err(UserActionError::NoOverloadToDiscard));
}

#[test]
fn error_no_shields_to_lose() {
    let mut game_state = resolving(vec![Effect::OpponentLoseShield]);
    game_state.player2.shields = 0;
    assert_eq!(
        settle(&mut game_state, ResolveEffect::OpponentLoseShield),
        Err(UserActionError::NoShieldsToLose)
    );
}

#[test]
fn error_discarding_card_played() {
    let mut game_state = GameState::start_state();
    let mut card = blank_card();
    card.hot_wire_cost.cards_to_discard = 1;
    game_state.player1.hand = vec![blank_card(), card];
    assert_eq!(
        act(&mut game_state, install(1, System::Weapons, vec![1])),
        Err(UserActionError::DiscardingCardPlayed)
    );
    assert_eq!(game_state.player1.hand.len(), 2);
}

#[test]
fn error_cannot_hot_wire_card_on_this_system() {
    let mut game_state = GameState::start_state();
    let mut card = blank_card();
    card.system = Some(System::LifeSupport);
    game_state.player1.hand = vec![card];
    assert_eq!(
        act(&mut game_state, install(0, System::Weapons, vec![])),
        Err(UserActionError::CannotHotWireCardOnThisSystem)
    );
    assert_eq!(
        act(&mut game_state, install(0, System::LifeSupport, vec![])),
        Ok(())
    );
}

#[test]
fn error_still_have_some_effects_that_must_be_resolved() {
    let mut game_state = resolving(vec![Effect::GainShortCircuit]);
    let result = game_state.receive_user_action(UserActionWithPlayer {
        player: Player::Player1,
        user_action: UserAction::StopResolvingEffects,
    });
    assert_eq!(
        result,
        Err(UserActionError::StillHaveSomeEffectsThatMustBeResolved)
    );
}

#[test]
fn error_no_card_to_draw() {
    let mut game_state = resolving(vec![Effect::Draw]);
    game_state.deck = vec![];
    game_state.discard_pile = vec![];
    assert_eq!(
        settle(&mut game_state, ResolveEffect::Draw),
        Err(UserActionError::NoCardToDraw)
    );
}

#[test]
fn error_no_energy_to_move_on_system() {
    let mut game_state = resolving(vec![Effect::OpponentMoveEnergy]);
    let result = settle(
        &mut game_state,
        ResolveEffect::OpponentMoveEnergy {
            from_system: System::FusionReactor,
            to_system: System::Weapons,
        },
    );
    assert_eq!(result, Err(UserActionError::NoEnergyToMoveOnSystem));
}

#[test]
fn error_system_already_has_max_energy() {
    let mut game_state = resolving(vec![Effect::MoveEnergy, Effect::MoveEnergy]);
    game_state.player1.life_support.energy = 3;
    let result = settle(
        &mut game_state,
        ResolveEffect::MoveEnergy {
            from_system: System::Weapons,
            to_system: System::LifeSupport,
        },
    );
    assert_eq!(result, Err(UserActionError::SystemAlreadyHasMaxEnergy));
    let result = settle(
        &mut game_state,
        ResolveEffect::MoveEnergy {
            from_system: System::LifeSupport,
            to_system: System::LifeSupport,
        },
    );
    assert_eq!(result, Ok(()));
    assert_eq!(game_state.player1.life_support.energy, 3);
}

#[test]
fn error_active_player_cannot_resolve_opponent_discard() {
    let mut game_state = resolving(vec![Effect::OpponentDiscard]);
    assert_eq!(
        settle(
            &mut game_state,
            ResolveEffect::OpponentDiscard { card_index: 0 }
        ),
        Err(UserActionError::ActivePlayerCannotResolveOpponentDiscard)
    );
}

#[test]
fn error_cannot_draw_power_from_system() {
    let mut game_state = GameState::start_state();
    assert_eq!(
        act(
            &mut game_state,
            activate_with(
                System::Weapons,
                &[(System::Weapons, 1), (System::LifeSupport, 1)]
            )
        ),
        Err(UserActionError::CannotDrawPowerFromSystem)
    );
    assert_eq!(
        act(
            &mut game_state,
            activate_with(
                System::Weapons,
                &[(System::Weapons, 2), (System::LifeSupport, 0)]
            )
        ),
        Ok(())
    );
}

#[test]
fn error_cannot_draw_power_from_system_for_a_negative_amount() {
    let mut game_state = GameState::start_state();
    game_state.player1.weapons_system.energy = 3;
    assert_eq!(
        act(
            &mut game_state,
            activate_with(
                System::Weapons,
                &[(System::Weapons, 3), (System::LifeSupport, -1)]
            )
        ),
        Err(UserActionError::CannotDrawPowerFromSystem)
    );
}

#[test]
fn error_incorrect_amount_of_energy_to_use() {
    let mut game_state = GameState::start_state();
    assert_eq!(
        act(
            &mut game_state,
            activate_with(System::Weapons, &[(System::Weapons, 1)])
        ),
        Err(UserActionError::IncorrectAmountOfEnergyToUse)
    );
    assert_eq!(
        act(&mut game_state, activate_with(System::LifeSupport, &[])),
        Err(UserActionError::IncorrectAmountOfEnergyToUse)
    );
}

#[test]
fn error_cannot_resolve_bypass_shield_without_attack() {
    let mut game_state = resolving(vec![Effect::BypassShield, Effect::Draw]);
    assert_eq!(
        settle(&mut game_state, ResolveEffect::BypassShield),
        Err(UserActionError::CannotResolveBypassShieldWithoutAttack)
    );
}

#[test]
fn first_faulty_source_decides() {
    let mut game_state = GameState::start_state();
    game_state.player1.fusion_reactor.energy = 0;
    game_state.player1.weapons_system.hot_wires = vec![Card {
        hot_wire_effects: vec![Effect::DrawPowerFrom(System::FusionReactor)],
        ..blank_card()
    }];
    assert_eq!(
        act(
            &mut game_state,
            activate_with(
                System::Weapons,
                &[(System::LifeSupport, 1), (System::FusionReactor, 1)]
            )
        ),
        Err(UserActionError::NotEnoughEnergyToActivate)
    );
}
