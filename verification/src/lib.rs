//! Rules engine for a two-player, turn-based spaceship card game.
//!
//! Each player runs four subsystems, a hand of cards and two risk counters.
//! A session takes one submission at a time, checks it against the rules and
//! either applies it whole or leaves the session as it was.
//!
//! The rules are stated twice. [`rules`] states them as mathematics: for
//! every session and submission a verdict, and for every accepted submission
//! the session that follows. [`session`], [`executor`] and [`resolver`] hold
//! the code that runs, proved to do what [`rules`] says. [`laws`] holds what
//! follows for every session: cards are conserved, a rejected submission
//! changes nothing, counters stay within their caps.
//!
//! The entry point is [`GameState::receive_user_action`]. It takes a
//! submission while the counters of the session that follows fit the
//! machine's counters; [`GameState::try_receive_user_action`] tests that
//! first and takes every submission.

pub mod action;
pub mod card;
pub mod cards;
pub mod client;
pub mod effect;
pub mod energy;
pub mod error;
pub mod executor;
pub mod game;
pub mod laws;
pub mod limits;
pub mod menu;
pub mod model;
pub mod player;
pub mod positions;
pub mod power;
pub mod random;
pub mod resolver;
pub mod rules;
pub mod session;
pub mod subsystem;
pub mod system;

pub use action::{Action, UserAction, UserActionWithPlayer};
pub use card::{Card, HotWireCost};
pub use cards::get_deck;
pub use client::get_user_action;
pub use effect::{Effect, ResolveEffect};
pub use energy::EnergyMap;
pub use error::UserActionError;
pub use game::{GameState, TurnState};
pub use model::{GameModel, TurnModel};
pub use player::{Player, PlayerModel, PlayerState};
pub use subsystem::{SystemModel, SystemState};
pub use system::System;
