//! What a query shows: a balance, or a game as the player may see it.

use vstd::prelude::*;

use crate::hand::hand_value;
use crate::state::{Game, GameView, STARTING_BALANCE};

verus! {

/// A game as a query shows it.
#[derive(Debug, PartialEq, Eq)]
pub struct GameState {
    /// The player's cards.
    pub player_hand: Vec<u8>,
    /// The dealer's cards that the player may see.
    pub dealer_visible_hand: Vec<u8>,
    /// The value of the player's hand.
    pub player_value: u128,
    /// The value of the dealer's cards that the player may see.
    pub dealer_visible_value: u128,
    /// The stake.
    pub bet_amount: u64,
    /// Whether the game is still to be settled.
    pub is_active: bool,
    /// Whether the player has ended the turn.
    pub player_stayed: bool,
}

/// A shown game as mathematics.
pub struct GameStateView {
    pub player_hand: Seq<u8>,
    pub dealer_visible_hand: Seq<u8>,
    pub player_value: nat,
    pub dealer_visible_value: nat,
    pub bet_amount: nat,
    pub is_active: bool,
    pub player_stayed: bool,
}

impl View for GameState {
    type V = GameStateView;

    open spec fn view(&self) -> GameStateView {
        GameStateView {
            player_hand: self.player_hand@,
            dealer_visible_hand: self.dealer_visible_hand@,
            player_value: self.player_value as nat,
            dealer_visible_value: self.dealer_visible_value as nat,
            bet_amount: self.bet_amount as nat,
            is_active: self.is_active,
            player_stayed: self.player_stayed,
        }
    }
}

impl GameView {
    /// The dealer's cards that a query shows: every card of the dealer that
    /// has been turned face up. During the player's turn the face-down card
    /// is withheld. A stay turns it over into the dealer's hand, so from then
    /// on the hand shows as it is. Where the game ended without a stay, on a
    /// dealt 21 or a bust, the face-down card is shown after the hand.
    pub open spec fn dealer_visible_hand(self) -> Seq<u8> {
        if self.is_active || self.player_stayed {
            self.dealer_hand
        } else {
            self.dealer_hand.push(self.dealer_hidden_card)
        }
    }

    /// What a query shows of this game.
    pub open spec fn shown(self) -> GameStateView {
        GameStateView {
            player_hand: self.player_hand,
            dealer_visible_hand: self.dealer_visible_hand(),
            player_value: hand_value(self.player_hand),
            dealer_visible_value: hand_value(self.dealer_visible_hand()),
            bet_amount: self.bet_amount,
            is_active: self.is_active,
            player_stayed: self.player_stayed,
        }
    }
}

/// The balance of an account from what is stored for it: an account without
/// a stored balance holds the starting balance.
pub fn balance(stored: Option<u64>) -> (chips: u64)
    ensures
        chips == match stored {
            Some(chips) => chips,
            None => STARTING_BALANCE,
        },
{
    match stored {
        Some(chips) => chips,
        None => STARTING_BALANCE,
    }
}

/// What a query shows of an account's game: nothing where none is stored.
pub fn game(stored: Option<&Game>) -> (state: Option<GameState>)
    ensures
        match stored {
            Some(game) => state matches Some(state) && state@ == game@.shown(),
            None => state is None,
        },
{
    let game = match stored {
        Some(game) => game,
        None => {
            return None;
        },
    };
    let mut dealer_visible_hand: Vec<u8> = game.dealer_hand.clone();
    if !game.is_active && !game.player_stayed {
        dealer_visible_hand.push(game.dealer_hidden_card);
    }
    Some(
        GameState {
            player_hand: game.player_hand.clone(),
            player_value: Game::calculate_hand_value(game.player_hand.as_slice()),
            dealer_visible_value: Game::calculate_hand_value(dealer_visible_hand.as_slice()),
            dealer_visible_hand,
            bet_amount: game.bet_amount,
            is_active: game.is_active,
            player_stayed: game.player_stayed,
        },
    )
}

/// A value in 64 bits: itself where it fits, the largest 64-bit number where
/// it does not.
pub fn saturate(value: u128) -> (shown: u64)
    ensures
        shown == if value <= u64::MAX {
            value
        } else {
            u64::MAX as u128
        },
{
    if value <= u64::MAX as u128 {
        value as u64
    } else {
        u64::MAX
    }
}

} // verus!
