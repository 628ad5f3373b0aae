//! What an operation reports, and the text that is shown for it.

use vstd::prelude::*;
use vstd::string::StringExecFns;

use crate::resolver::Verdict;
use crate::text::{decimal_text, list_text, push_decimal, push_list};

verus! {

/// What an operation did, with what a report of it needs.
#[derive(Debug, PartialEq, Eq)]
pub enum Outcome {
    /// `StartGame` was refused: the account has a game that is not settled.
    AlreadyActive,
    /// `StartGame` was refused: the bet is more than the balance.
    InsufficientBalance { balance: u64, bet_amount: u64 },
    /// `Hit` or `Stay` was refused: the account never started a game.
    NoGame,
    /// `Hit` or `Stay` was refused: the game is settled, or the player has
    /// stayed already.
    NotActive,
    /// A game was dealt and it is the player's turn.
    Started { player_hand: Vec<u8>, player_value: u128, dealer_hand: Vec<u8> },
    /// The player drew a card and may go on.
    Drew { player_hand: Vec<u8>, player_value: u128 },
    /// The game was settled.
    Resolved {
        verdict: Verdict,
        bet_amount: u64,
        player_value: u128,
        dealer_hand: Vec<u8>,
        dealer_value: u128,
    },
}

/// An outcome as mathematics.
pub enum OutcomeView {
    AlreadyActive,
    InsufficientBalance { balance: nat, bet_amount: nat },
    NoGame,
    NotActive,
    Started { player_hand: Seq<u8>, player_value: nat, dealer_hand: Seq<u8> },
    Drew { player_hand: Seq<u8>, player_value: nat },
    Resolved {
        verdict: Verdict,
        bet_amount: nat,
        player_value: nat,
        dealer_hand: Seq<u8>,
        dealer_value: nat,
    },
}

impl View for Outcome {
    type V = OutcomeView;

    open spec fn view(&self) -> OutcomeView {
        match *self {
            Outcome::AlreadyActive => OutcomeView::AlreadyActive,
            Outcome::InsufficientBalance { balance, bet_amount } => OutcomeView::InsufficientBalance {
                balance: balance as nat,
                bet_amount: bet_amount as nat,
            },
            Outcome::NoGame => OutcomeView::NoGame,
            Outcome::NotActive => OutcomeView::NotActive,
            Outcome::Started { player_hand, player_value, dealer_hand } => OutcomeView::Started {
                player_hand: player_hand@,
                player_value: player_value as nat,
                dealer_hand: dealer_hand@,
            },
            Outcome::Drew { player_hand, player_value } => OutcomeView::Drew {
                player_hand: player_hand@,
                player_value: player_value as nat,
            },
            Outcome::Resolved {
                verdict,
                bet_amount,
                player_value,
                dealer_hand,
                dealer_value,
            } => OutcomeView::Resolved {
                verdict,
                bet_amount: bet_amount as nat,
                player_value: player_value as nat,
                dealer_hand: dealer_hand@,
                dealer_value: dealer_value as nat,
            },
        }
    }
}

impl OutcomeView {
    /// Whether the operation was refused, and so changed nothing.
    pub open spec fn is_rejection(self) -> bool {
        self is AlreadyActive || self is InsufficientBalance || self is NoGame || self is NotActive
    }

    /// The text that is shown for this outcome.
    pub open spec fn message(self) -> Seq<char> {
        match self {
            OutcomeView::AlreadyActive => "You already have an active game. Finish it first."@,
            OutcomeView::InsufficientBalance { balance, bet_amount } => {
                "Insufficient balance. You have "@ + decimal_text(balance) + " but tried to bet "@
                    + decimal_text(bet_amount)
            },
            OutcomeView::NoGame => "No active game. Start a new game first."@,
            OutcomeView::NotActive => "Game is not active or you already stayed."@,
            OutcomeView::Started { player_hand, player_value, dealer_hand } => {
                "Game started! Your cards: "@ + list_text(player_hand) + ", value: "@ + decimal_text(
                    player_value,
                ) + ". Dealer shows: "@ + list_text(dealer_hand)
            },
            OutcomeView::Drew { player_hand, player_value } => {
                "Drew card. Your hand: "@ + list_text(player_hand) + ", value: "@ + decimal_text(
                    player_value,
                )
            },
            OutcomeView::Resolved {
                verdict,
                bet_amount,
                player_value,
                dealer_hand,
                dealer_value,
            } => {
                verdict_text(verdict, bet_amount) + "Player: "@ + decimal_text(player_value)
                    + ", Dealer: "@ + list_text(dealer_hand) + " ("@ + decimal_text(dealer_value)
                    + ")"@
            },
        }
    }
}

/// How the text for a settled game begins: the verdict, and the chips that
/// were won or lost.
pub open spec fn verdict_text(verdict: Verdict, bet_amount: nat) -> Seq<char> {
    match verdict {
        Verdict::Bust => "BUST! You lost "@ + decimal_text(bet_amount) + " chips. "@,
        Verdict::DealerBust => "Dealer BUST! You won "@ + decimal_text(bet_amount) + " chips! "@,
        Verdict::Win => "YOU WIN! Won "@ + decimal_text(bet_amount) + " chips! "@,
        Verdict::Loss => "Dealer wins. You lost "@ + decimal_text(bet_amount) + " chips. "@,
        Verdict::Push => "PUSH (tie). Bet returned. "@,
    }
}

impl Outcome {
    /// Whether the operation was refused, and so changed nothing.
    pub fn is_rejection(&self) -> (refused: bool)
        ensures
            refused == self@.is_rejection(),
    {
        match self {
            Outcome::AlreadyActive => true,
            Outcome::InsufficientBalance { .. } => true,
            Outcome::NoGame => true,
            Outcome::NotActive => true,
            Outcome::Started { .. } => false,
            Outcome::Drew { .. } => false,
            Outcome::Resolved { .. } => false,
        }
    }

    /// The text that is shown for this outcome.
    pub fn message(&self) -> (text: String)
        ensures
            text@ == self@.message(),
    {
        match self {
            Outcome::AlreadyActive => String::from_str(
                "You already have an active game. Finish it first.",
            ),
            Outcome::InsufficientBalance { balance, bet_amount } => {
                let mut text = String::from_str("Insufficient balance. You have ");
                push_decimal(&mut text, *balance as u128);
                text.append(" but tried to bet ");
                push_decimal(&mut text, *bet_amount as u128);
                text
            },
            Outcome::NoGame => String::from_str("No active game. Start a new game first."),
            Outcome::NotActive => String::from_str("Game is not active or you already stayed."),
            Outcome::Started { player_hand, player_value, dealer_hand } => {
                let mut text = String::from_str("Game started! Your cards: ");
                push_list(&mut text, player_hand.as_slice());
                text.append(", value: ");
                push_decimal(&mut text, *player_value);
                text.append(". Dealer shows: ");
                push_list(&mut text, dealer_hand.as_slice());
                text
            },
            Outcome::Drew { player_hand, player_value } => {
                let mut text = String::from_str("Drew card. Your hand: ");
                push_list(&mut text, player_hand.as_slice());
                text.append(", value: ");
                push_decimal(&mut text, *player_value);
                text
            },
            Outcome::Resolved { verdict, bet_amount, player_value, dealer_hand, dealer_value } => {
                let mut text = verdict_message(*verdict, *bet_amount);
                text.append("Player: ");
                push_decimal(&mut text, *player_value);
                text.append(", Dealer: ");
                push_list(&mut text, dealer_hand.as_slice());
                text.append(" (");
                push_decimal(&mut text, *dealer_value);
                text.append(")");
                text
            },
        }
    }
}

/// How the text for a settled game begins.
pub fn verdict_message(verdict: Verdict, bet_amount: u64) -> (text: String)
    ensures
        text@ == verdict_text(verdict, bet_amount as nat),
{
    match verdict {
        Verdict::Bust => {
            let mut text = String::from_str("BUST! You lost ");
            push_decimal(&mut text, bet_amount as u128);
            text.append(" chips. ");
            text
        },
        Verdict::DealerBust => {
            let mut text = String::from_str("Dealer BUST! You won ");
            push_decimal(&mut text, bet_amount as u128);
            text.append(" chips! ");
            text
        },
        Verdict::Win => {
            let mut text = String::from_str("YOU WIN! Won ");
            push_decimal(&mut text, bet_amount as u128);
            text.append(" chips! ");
            text
        },
        Verdict::Loss => {
            let mut text = String::from_str("Dealer wins. You lost ");
            push_decimal(&mut text, bet_amount as u128);
            text.append(" chips. ");
            text
        },
        Verdict::Push => String::from_str("PUSH (tie). Bet returned. "),
    }
}

impl Clone for Outcome {
    fn clone(&self) -> (copy: Outcome)
        ensures
            copy@ == self@,
    {
        match self {
            Outcome::AlreadyActive => Outcome::AlreadyActive,
            Outcome::InsufficientBalance { balance, bet_amount } => Outcome::InsufficientBalance {
                balance: *balance,
                bet_amount: *bet_amount,
            },
            Outcome::NoGame => Outcome::NoGame,
            Outcome::NotActive => Outcome::NotActive,
            Outcome::Started { player_hand, player_value, dealer_hand } => Outcome::Started {
                player_hand: player_hand.clone(),
                player_value: *player_value,
                dealer_hand: dealer_hand.clone(),
            },
            Outcome::Drew { player_hand, player_value } => Outcome::Drew {
                player_hand: player_hand.clone(),
                player_value: *player_value,
            },
            Outcome::Resolved {
                verdict,
                bet_amount,
                player_value,
                dealer_hand,
                dealer_value,
            } => Outcome::Resolved {
                verdict: *verdict,
                bet_amount: *bet_amount,
                player_value: *player_value,
                dealer_hand: dealer_hand.clone(),
                dealer_value: *dealer_value,
            },
        }
    }
}

} // verus!
