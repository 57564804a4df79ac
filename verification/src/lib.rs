//! A single round of casino blackjack as an input-driven state machine.
//!
//! The engine performs no I/O: a [`game::Table`] is handed a
//! [`state::GameState`] and an optional [`game::Input`] and returns the next
//! state, or the unchanged state together with the reason the input was
//! refused. Cards come from a [`card::shoe::Shoe`], which draws them at
//! random and without replacement.
//!
//! - [`card`]: cards and their numbering; [`card::hand`]: hand values, the
//!   hands of player and dealer, the turn of a player with its split hands;
//!   [`card::shoe`]: the shoe; [`card::deck`]: a count of cards.
//! - [`rules`]: what a table allows and pays.
//! - [`state`]: the states of a round.
//! - [`game`]: the table and its transitions; [`game::model`] says what
//!   each transition does, [`game::transitions`] does it.
//! - [`statistics`]: counts over the rounds played.
//! - [`basic_strategy`]: a player by the book.
//! - [`text`]: numbers as text.
//!
//! The cards are dealt to one player, and the offers are made to one. The
//! bets of a turn are limited by [`card::hand::MAX_STAKE`], so that every
//! payout can be counted in `u32`.
pub mod basic_strategy;
pub mod card;
pub mod game;
pub mod input;
pub mod rules;
pub mod state;
pub mod statistics;
pub mod text;
