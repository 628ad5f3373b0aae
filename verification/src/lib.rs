//! A blackjack table for one dealer and any number of accounts.
//!
//! Each account holds a chip balance and at most one game. Cards come from a
//! single deterministic deck that every account shares. The operations
//! `StartGame`, `Hit` and `Stay` move an account's game through the player's
//! turn to a settled state and credit the balance exactly once when the game
//! ends.
//!
//! Every function here is verified: its contract states, over mathematical
//! models of the data, what it returns and what it changes.

use vstd::prelude::*;

pub mod contract;
pub mod deck;
pub mod hand;
pub mod laws;
pub mod outcome;
pub mod resolver;
pub mod service;
pub mod state;
pub mod store;
pub mod text;

pub use crate::outcome::Outcome;

verus! {

/// A request of an account's owner.
#[derive(Clone, Copy, Debug, PartialEq, Eq, Structural)]
pub enum Operation {
    /// Start a new game with a bet.
    StartGame { bet_amount: u64 },
    /// Draw another card.
    Hit,
    /// End the turn: the dealer plays and the game is settled.
    Stay,
}

} // verus!
