//! The records that are kept for an account: its game and its balance.

use vstd::prelude::*;

use crate::hand::{ace_count, hand_value, raw_total, soften, LIMIT};
use crate::hand::{lemma_ace_count_push, lemma_raw_total_push, lemma_soften_unfold};
use crate::service::balance;

verus! {

/// The balance that an account has before anything was ever stored for it.
pub const STARTING_BALANCE: u64 = 1000;

/// One game of an account against the dealer.
#[derive(Debug, PartialEq, Eq)]
pub struct Game {
    /// The player's cards, in the order they were drawn.
    pub player_hand: Vec<u8>,
    /// The dealer's cards that lie face up, in the order they were drawn.
    pub dealer_hand: Vec<u8>,
    /// The dealer's card that lies face down until the player stays.
    pub dealer_hidden_card: u8,
    /// The stake, taken from the balance when the game started.
    pub bet_amount: u64,
    /// Whether the game is still to be settled.
    pub is_active: bool,
    /// Whether the player has ended the turn.
    pub player_stayed: bool,
}

/// A game as mathematics.
pub struct GameView {
    pub player_hand: Seq<u8>,
    pub dealer_hand: Seq<u8>,
    pub dealer_hidden_card: u8,
    pub bet_amount: nat,
    pub is_active: bool,
    pub player_stayed: bool,
}

impl GameView {
    /// Whether the player may still hit or stay.
    pub open spec fn in_player_turn(self) -> bool {
        self.is_active && !self.player_stayed
    }

    /// The same game, settled.
    pub open spec fn finished(self) -> GameView {
        GameView { is_active: false, ..self }
    }
}

impl View for Game {
    type V = GameView;

    open spec fn view(&self) -> GameView {
        GameView {
            player_hand: self.player_hand@,
            dealer_hand: self.dealer_hand@,
            dealer_hidden_card: self.dealer_hidden_card,
            bet_amount: self.bet_amount as nat,
            is_active: self.is_active,
            player_stayed: self.player_stayed,
        }
    }
}

impl Game {
    /// The value of a hand: each ace counts 11, and is taken down to 1 for
    /// as long as the total is above 21 and an ace is left at 11.
    ///
    /// The result is wide enough for the longest slice that the machine can
    /// hold, so no hand is refused and no total wraps.
    pub fn calculate_hand_value(hand: &[u8]) -> (value: u128)
        ensures
            value == hand_value(hand@),
            ace_count(hand@) == 0 ==> value == raw_total(hand@),
            ace_count(hand@) == 0 && raw_total(hand@) > 21 ==> value > 21,
    {
        let mut value: u128 = 0;
        let mut aces: u128 = 0;
        let mut i: usize = 0;
        while i < hand.len()
            invariant
                i <= hand.len(),
                value == raw_total(hand@.take(i as int)),
                aces == ace_count(hand@.take(i as int)),
                aces <= i,
                value <= 11 * i,
            decreases hand.len() - i,
        {
            let card: u8 = hand[i];
            let card_value: u8 = card % 13 + 1;
            proof {
                assert(hand@.take(i as int).push(card) =~= hand@.take(i as int + 1));
                lemma_raw_total_push(hand@.take(i as int), card);
                lemma_ace_count_push(hand@.take(i as int), card);
            }
            if card_value == 1 {
                aces = aces + 1;
                value = value + 11;
            } else if card_value > 10 {
                value = value + 10;
            } else {
                value = value + card_value as u128;
            }
            i = i + 1;
        }
        assert(hand@.take(i as int) =~= hand@);
        while value > LIMIT && aces > 0
            invariant
                soften(value as nat, aces as nat) == hand_value(hand@),
            decreases aces,
        {
            proof {
                lemma_soften_unfold(value as nat, aces as nat);
            }
            value = value - 10;
            aces = aces - 1;
        }
        proof {
            lemma_soften_unfold(value as nat, aces as nat);
        }
        value
    }
}

impl Clone for Game {
    fn clone(&self) -> (copy: Game)
        ensures
            copy@ == self@,
    {
        Game {
            player_hand: self.player_hand.clone(),
            dealer_hand: self.dealer_hand.clone(),
            dealer_hidden_card: self.dealer_hidden_card,
            bet_amount: self.bet_amount,
            is_active: self.is_active,
            player_stayed: self.player_stayed,
        }
    }
}

/// What is kept for one account: its chips and its latest game.
#[derive(Debug, PartialEq, Eq)]
pub struct Account {
    /// The chips that the account holds.
    pub balance: u64,
    /// The account's latest game, if it ever started one. A settled game
    /// stays until the next one replaces it.
    pub game: Option<Game>,
}

/// An account as mathematics.
pub struct AccountView {
    pub balance: nat,
    pub game: Option<GameView>,
}

impl AccountView {
    /// Whether the account has a game that is not settled yet.
    pub open spec fn has_active_game(self) -> bool {
        self.game matches Some(game) && game.is_active
    }

    /// Whether the account has a game in which the player may hit or stay.
    pub open spec fn in_player_turn(self) -> bool {
        self.game matches Some(game) && game.in_player_turn()
    }

    /// Whether the balance can take the largest credit that the account's
    /// game can still bring, twice the stake, without leaving 64 bits.
    pub open spec fn solvent(self) -> bool {
        self.game matches Some(game) ==> (game.is_active ==> self.balance + 2 * game.bet_amount
            <= u64::MAX)
    }
}

impl View for Account {
    type V = AccountView;

    open spec fn view(&self) -> AccountView {
        AccountView {
            balance: self.balance as nat,
            game: match self.game {
                Some(game) => Some(game@),
                None => None,
            },
        }
    }
}

impl Clone for Account {
    fn clone(&self) -> (copy: Account)
        ensures
            copy@ == self@,
    {
        let game = match &self.game {
            Some(game) => Some(game.clone()),
            None => None,
        };
        Account { balance: self.balance, game }
    }
}

impl Account {
    /// The account as it is read from the store: an account without a
    /// stored balance holds the starting balance.
    pub fn open(stored_balance: Option<u64>, stored_game: Option<Game>) -> (account: Account)
        ensures
            account.balance == match stored_balance {
                Some(balance) => balance,
                None => STARTING_BALANCE,
            },
            account.game == stored_game,
    {
        Account { balance: balance(stored_balance), game: stored_game }
    }
}

} // verus!
