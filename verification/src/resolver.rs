//! Settling a game: who won, and what the balance is owed.
//!
//! The stake left the balance when the game started. A win pays it back
//! twice, a push pays it back once, a loss pays nothing.

use vstd::prelude::*;

use crate::hand::{hand_value, LIMIT};
use crate::state::{Game, GameView};
use crate::outcome::{Outcome, OutcomeView};

verus! {

/// How a game ended for the player.
#[derive(Clone, Copy, Debug, PartialEq, Eq, Structural)]
pub enum Verdict {
    /// The player is above 21: the stake is lost.
    Bust,
    /// The dealer is above 21 and the player is not: the player wins.
    DealerBust,
    /// Neither is above 21 and the player is higher: the player wins.
    Win,
    /// Neither is above 21 and the dealer is higher: the stake is lost.
    Loss,
    /// Neither is above 21 and the two are level: the stake is returned.
    Push,
}

/// The verdict on a player's value against a dealer's value.
pub open spec fn verdict(player_value: nat, dealer_value: nat) -> Verdict {
    if player_value > 21 {
        Verdict::Bust
    } else if dealer_value > 21 {
        Verdict::DealerBust
    } else if player_value > dealer_value {
        Verdict::Win
    } else if player_value < dealer_value {
        Verdict::Loss
    } else {
        Verdict::Push
    }
}

/// The chips that a verdict credits to the balance of a game with this stake.
pub open spec fn credit(verdict: Verdict, bet_amount: nat) -> nat {
    match verdict {
        Verdict::Bust => 0,
        Verdict::DealerBust => 2 * bet_amount,
        Verdict::Win => 2 * bet_amount,
        Verdict::Loss => 0,
        Verdict::Push => bet_amount,
    }
}

/// The verdict on a game as its hands stand.
pub open spec fn verdict_of(game: GameView) -> Verdict {
    verdict(hand_value(game.player_hand), hand_value(game.dealer_hand))
}

/// The chips that settling a game as its hands stand credits to the balance.
pub open spec fn payout(game: GameView) -> nat {
    credit(verdict_of(game), game.bet_amount)
}

impl Verdict {
    /// Decides a game from the two values.
    pub fn decide(player_value: u128, dealer_value: u128) -> (decided: Verdict)
        ensures
            decided == verdict(player_value as nat, dealer_value as nat),
    {
        if player_value > LIMIT {
            Verdict::Bust
        } else if dealer_value > LIMIT {
            Verdict::DealerBust
        } else if player_value > dealer_value {
            Verdict::Win
        } else if player_value < dealer_value {
            Verdict::Loss
        } else {
            Verdict::Push
        }
    }

    /// The chips that this verdict credits for a stake.
    pub fn winnings(self, bet_amount: u64) -> (chips: u64)
        requires
            credit(self, bet_amount as nat) <= u64::MAX,
        ensures
            chips == credit(self, bet_amount as nat),
    {
        match self {
            Verdict::Bust => 0,
            Verdict::DealerBust => bet_amount * 2,
            Verdict::Win => bet_amount * 2,
            Verdict::Loss => 0,
            Verdict::Push => bet_amount,
        }
    }

    /// Whether a balance can take what this verdict credits for a stake
    /// without leaving 64 bits.
    pub fn pays_within(self, balance: u64, bet_amount: u64) -> (fits: bool)
        ensures
            fits == (balance + credit(self, bet_amount as nat) <= u64::MAX),
    {
        let chips: u128 = match self {
            Verdict::Bust => 0,
            Verdict::DealerBust => 2 * (bet_amount as u128),
            Verdict::Win => 2 * (bet_amount as u128),
            Verdict::Loss => 0,
            Verdict::Push => bet_amount as u128,
        };
        balance as u128 + chips <= u64::MAX as u128
    }
}

/// What is reported when a game is settled as its hands stand.
pub open spec fn settlement(game: GameView) -> OutcomeView {
    OutcomeView::Resolved {
        verdict: verdict_of(game),
        bet_amount: game.bet_amount,
        player_value: hand_value(game.player_hand),
        dealer_hand: game.dealer_hand,
        dealer_value: hand_value(game.dealer_hand),
    }
}

/// Settles a game as its hands stand: credits the balance with what the
/// verdict pays and reports the verdict with the two values. The caller marks
/// the game as finished; a game is settled once.
pub fn resolve_game(balance: &mut u64, game: &Game) -> (outcome: Outcome)
    requires
        *old(balance) + payout(game@) <= u64::MAX,
    ensures
        *final(balance) == *old(balance) + payout(game@),
        outcome@ == settlement(game@),
{
    let player_value: u128 = Game::calculate_hand_value(game.player_hand.as_slice());
    let dealer_value: u128 = Game::calculate_hand_value(game.dealer_hand.as_slice());
    let decided = Verdict::decide(player_value, dealer_value);
    let chips: u64 = decided.winnings(game.bet_amount);
    *balance = *balance + chips;
    Outcome::Resolved {
        verdict: decided,
        bet_amount: game.bet_amount,
        player_value,
        dealer_hand: game.dealer_hand.clone(),
        dealer_value,
    }
}

} // verus!
