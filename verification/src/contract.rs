//! The operations on an account: `StartGame`, `Hit` and `Stay`.
//!
//! An operation either runs to its end or is refused before it changes
//! anything. What it does is a function of the account, of the deck's seed
//! and of the request; [`Step`] holds the result of that function, and each
//! operation's contract says that the account, the deck and the reported
//! outcome are exactly that step.

use vstd::prelude::*;

use crate::deck::Deck;
use crate::hand::{hand_value, hard_total, LIMIT};
use crate::hand::{lemma_hand_value_is_best, lemma_hard_total_push};
use crate::outcome::{Outcome, OutcomeView};
use crate::resolver::{payout, resolve_game, settlement, Verdict};
use crate::state::{Account, AccountView, Game, GameView};
use crate::Operation;

verus! {

/// The value at which the dealer stops drawing.
pub const DEALER_STANDS_AT: u128 = 17;

/// What an operation leaves behind: the account, the deck's seed, and the
/// outcome that is reported.
pub struct Step {
    pub account: AccountView,
    pub seed: u64,
    pub outcome: OutcomeView,
}

/// How far a hand's hard total is below 17; zero from 17 on. Every card
/// brings it down while it is above zero, so the dealer's turn ends.
pub open spec fn dealer_margin(hand: Seq<u8>) -> nat {
    if hard_total(hand) < 17 {
        (17 - hard_total(hand)) as nat
    } else {
        0
    }
}

/// The number of cards that a dealer with this hand draws from a deck at this
/// seed: the dealer draws for as long as the hand is worth less than 17.
pub open spec fn dealer_draws(hand: Seq<u8>, seed: u64) -> nat
    decreases dealer_margin(hand),
{
    if hand_value(hand) >= 17 {
        0
    } else {
        proof {
            lemma_hand_value_is_best(hand);
            lemma_hard_total_push(hand, Deck::card_of(seed));
        }
        1 + dealer_draws(hand.push(Deck::card_of(seed)), Deck::next_seed(seed))
    }
}

impl GameView {
    /// The game that is dealt for a stake from a deck at `seed`: two cards
    /// for the player, then one face up and one face down for the dealer.
    pub open spec fn dealt(seed: u64, bet_amount: nat) -> GameView {
        GameView {
            player_hand: seq![Deck::card_at(seed, 0), Deck::card_at(seed, 1)],
            dealer_hand: seq![Deck::card_at(seed, 2)],
            dealer_hidden_card: Deck::card_at(seed, 3),
            bet_amount,
            is_active: true,
            player_stayed: false,
        }
    }

    /// This game after the player drew `card`.
    pub open spec fn with_player_card(self, card: u8) -> GameView {
        GameView { player_hand: self.player_hand.push(card), ..self }
    }

    /// The dealer's hand once the face-down card is turned over.
    pub open spec fn revealed_hand(self) -> Seq<u8> {
        self.dealer_hand.push(self.dealer_hidden_card)
    }

    /// This game after the player stayed and the dealer played from a deck at
    /// `seed`: the face-down card is turned over, then the dealer draws.
    pub open spec fn with_dealer_played(self, seed: u64) -> GameView {
        GameView {
            dealer_hand: self.revealed_hand() + Deck::cards(
                seed,
                dealer_draws(self.revealed_hand(), seed),
            ),
            player_stayed: true,
            ..self
        }
    }
}

impl AccountView {
    /// Whether `StartGame` with this bet is accepted.
    pub open spec fn may_start(self, bet_amount: u64) -> bool {
        !self.has_active_game() && bet_amount <= self.balance
    }

    /// The account left as it is, with a refusal reported.
    pub open spec fn refused(self, seed: u64, outcome: OutcomeView) -> Step {
        Step { account: self, seed, outcome }
    }

    /// The account after `game` is settled as its hands stand: the balance is
    /// credited with what the verdict pays, and the game is kept, finished.
    pub open spec fn settled(self, game: GameView, seed: u64) -> Step {
        Step {
            account: AccountView {
                balance: self.balance + payout(game),
                game: Some(game.finished()),
            },
            seed,
            outcome: settlement(game),
        }
    }

    /// What `StartGame` does.
    ///
    /// It is refused if the account has an unsettled game, or if the bet is
    /// more than the balance. Otherwise the bet leaves the balance and four
    /// cards are dealt. A player who is dealt 21 is paid at once and the game
    /// is finished; else it is the player's turn.
    pub open spec fn start_game(self, seed: u64, bet_amount: u64) -> Step {
        if self.has_active_game() {
            self.refused(seed, OutcomeView::AlreadyActive)
        } else if self.balance < bet_amount {
            self.refused(
                seed,
                OutcomeView::InsufficientBalance {
                    balance: self.balance,
                    bet_amount: bet_amount as nat,
                },
            )
        } else {
            let game = GameView::dealt(seed, bet_amount as nat);
            let staked = AccountView { balance: (self.balance - bet_amount) as nat, game: self.game };
            let seed = Deck::seed_after(seed, 4);
            if hand_value(game.player_hand) == 21 {
                staked.settled(game, seed)
            } else {
                Step {
                    account: AccountView { balance: staked.balance, game: Some(game) },
                    seed,
                    outcome: OutcomeView::Started {
                        player_hand: game.player_hand,
                        player_value: hand_value(game.player_hand),
                        dealer_hand: game.dealer_hand,
                    },
                }
            }
        }
    }

    /// What `Hit` does.
    ///
    /// It is refused unless it is the player's turn. Otherwise the player
    /// draws one card. Above 21 the game is settled, as lost; else the turn
    /// goes on.
    pub open spec fn hit(self, seed: u64) -> Step {
        match self.game {
            None => self.refused(seed, OutcomeView::NoGame),
            Some(game) => if !game.in_player_turn() {
                self.refused(seed, OutcomeView::NotActive)
            } else {
                let game = game.with_player_card(Deck::card_of(seed));
                let seed = Deck::next_seed(seed);
                if hand_value(game.player_hand) > 21 {
                    self.settled(game, seed)
                } else {
                    Step {
                        account: AccountView { balance: self.balance, game: Some(game) },
                        seed,
                        outcome: OutcomeView::Drew {
                            player_hand: game.player_hand,
                            player_value: hand_value(game.player_hand),
                        },
                    }
                }
            },
        }
    }

    /// What `Stay` does.
    ///
    /// It is refused unless it is the player's turn. Otherwise the dealer
    /// turns over the face-down card and draws until the hand is worth 17 or
    /// more, and the game is settled.
    pub open spec fn stay(self, seed: u64) -> Step {
        match self.game {
            None => self.refused(seed, OutcomeView::NoGame),
            Some(game) => if !game.in_player_turn() {
                self.refused(seed, OutcomeView::NotActive)
            } else {
                self.settled(
                    game.with_dealer_played(seed),
                    Deck::seed_after(seed, dealer_draws(game.revealed_hand(), seed)),
                )
            },
        }
    }

    /// What an operation does.
    pub open spec fn execute(self, seed: u64, operation: Operation) -> Step {
        match operation {
            Operation::StartGame { bet_amount } => self.start_game(seed, bet_amount),
            Operation::Hit => self.hit(seed),
            Operation::Stay => self.stay(seed),
        }
    }

    /// Whether the balance that `StartGame` leaves fits in 64 bits. It does
    /// unless the bet is accepted, the player is dealt 21, and the win is
    /// more than the balance has room for.
    pub open spec fn can_start(self, seed: u64, bet_amount: u64) -> bool {
        self.start_game(seed, bet_amount).account.balance <= u64::MAX
    }

    /// Whether the balance that `Stay` leaves fits in 64 bits. It does unless
    /// the verdict credits more than the balance has room for.
    pub open spec fn can_stay(self, seed: u64) -> bool {
        self.stay(seed).account.balance <= u64::MAX
    }

    /// Whether the balance that an operation leaves fits in 64 bits.
    pub open spec fn can_execute(self, seed: u64, operation: Operation) -> bool {
        self.execute(seed, operation).account.balance <= u64::MAX
    }
}

impl Game {
    /// Deals a game for a stake: two cards for the player, then one face up
    /// and one face down for the dealer, in that order from `deck`.
    pub fn deal(deck: &mut Deck, bet_amount: u64) -> (game: Game)
        ensures
            game@ == GameView::dealt(old(deck).seed, bet_amount as nat),
            final(deck).seed == Deck::seed_after(old(deck).seed, 4),
    {
        let player_card1: u8 = deck.draw_card();
        let player_card2: u8 = deck.draw_card();
        let dealer_card: u8 = deck.draw_card();
        let dealer_hidden: u8 = deck.draw_card();
        proof {
            reveal_with_fuel(Deck::seed_after, 5);
        }
        let mut player_hand: Vec<u8> = Vec::new();
        player_hand.push(player_card1);
        player_hand.push(player_card2);
        let mut dealer_hand: Vec<u8> = Vec::new();
        dealer_hand.push(dealer_card);
        let game = Game {
            player_hand,
            dealer_hand,
            dealer_hidden_card: dealer_hidden,
            bet_amount,
            is_active: true,
            player_stayed: false,
        };
        assert(game@.player_hand =~= GameView::dealt(old(deck).seed, bet_amount as nat).player_hand);
        assert(game@.dealer_hand =~= GameView::dealt(old(deck).seed, bet_amount as nat).dealer_hand);
        game
    }

    /// Plays the dealer's turn after the player stayed: turns over the
    /// face-down card, then draws from `deck` until the hand is worth 17 or
    /// more.
    pub fn play_dealer(&mut self, deck: &mut Deck)
        ensures
            final(self)@ == old(self)@.with_dealer_played(old(deck).seed),
            final(deck).seed == Deck::seed_after(
                old(deck).seed,
                dealer_draws(old(self)@.revealed_hand(), old(deck).seed),
            ),
    {
        self.player_stayed = true;
        self.dealer_hand.push(self.dealer_hidden_card);

        let ghost revealed = self.dealer_hand@;
        let ghost seed = deck.seed;
        let ghost mut drawn: nat = 0;
        let mut dealer_value: u128 = Game::calculate_hand_value(self.dealer_hand.as_slice());
        assert(revealed + Deck::cards(seed, 0) =~= revealed);
        while dealer_value < DEALER_STANDS_AT
            invariant
                dealer_value == hand_value(self.dealer_hand@),
                self.dealer_hand@ == revealed + Deck::cards(seed, drawn),
                deck.seed == Deck::seed_after(seed, drawn),
                dealer_draws(revealed, seed) == drawn + dealer_draws(self.dealer_hand@, deck.seed),
                self.player_hand == old(self).player_hand,
                self.dealer_hidden_card == old(self).dealer_hidden_card,
                self.bet_amount == old(self).bet_amount,
                self.is_active == old(self).is_active,
                self.player_stayed,
            decreases dealer_draws(self.dealer_hand@, deck.seed),
        {
            let card: u8 = deck.draw_card();
            self.dealer_hand.push(card);
            proof {
                assert(revealed + Deck::cards(seed, drawn + 1) =~= (revealed + Deck::cards(
                    seed,
                    drawn,
                )).push(card));
                drawn = drawn + 1;
            }
            dealer_value = Game::calculate_hand_value(self.dealer_hand.as_slice());
        }
    }
}

impl Account {
    /// Whether the balance can take the largest credit that the account's
    /// game can still bring.
    pub fn is_solvent(&self) -> (solvent: bool)
        ensures
            solvent == self@.solvent(),
    {
        match &self.game {
            Some(game) => !game.is_active || (game.bet_amount <= u64::MAX / 2 && self.balance
                <= u64::MAX - 2 * game.bet_amount),
            None => true,
        }
    }

    /// Whether `StartGame` with this bet, with the cards that `deck` holds,
    /// leaves a balance that fits in 64 bits. It looks ahead on a copy of the
    /// deck; neither the account nor the deck changes.
    pub fn can_start(&self, deck: &Deck, bet_amount: u64) -> (fits: bool)
        ensures
            fits == self@.can_start(deck.seed, bet_amount),
    {
        let active = match &self.game {
            Some(game) => game.is_active,
            None => false,
        };
        if active || self.balance < bet_amount {
            return true;
        }
        let mut ahead: Deck = *deck;
        let game = Game::deal(&mut ahead, bet_amount);
        let player_value: u128 = Game::calculate_hand_value(game.player_hand.as_slice());
        if player_value != LIMIT {
            return true;
        }
        let dealer_value: u128 = Game::calculate_hand_value(game.dealer_hand.as_slice());
        Verdict::decide(player_value, dealer_value).pays_within(
            self.balance - bet_amount,
            bet_amount,
        )
    }

    /// Whether `Stay`, with the cards that `deck` holds, leaves a balance
    /// that fits in 64 bits. It plays the dealer's turn on a copy of the game
    /// and of the deck; neither the account nor the deck changes.
    pub fn can_stay(&self, deck: &Deck) -> (fits: bool)
        ensures
            fits == self@.can_stay(deck.seed),
    {
        match &self.game {
            None => true,
            Some(game) => {
                if !(game.is_active && !game.player_stayed) {
                    return true;
                }
                let mut ahead: Deck = *deck;
                let mut played: Game = game.clone();
                played.play_dealer(&mut ahead);
                let player_value: u128 = Game::calculate_hand_value(
                    played.player_hand.as_slice(),
                );
                let dealer_value: u128 = Game::calculate_hand_value(
                    played.dealer_hand.as_slice(),
                );
                Verdict::decide(player_value, dealer_value).pays_within(
                    self.balance,
                    played.bet_amount,
                )
            },
        }
    }

    /// Whether an operation, with the cards that `deck` holds, leaves a
    /// balance that fits in 64 bits. A `Hit` always does: it credits nothing.
    pub fn can_execute(&self, deck: &Deck, operation: Operation) -> (fits: bool)
        ensures
            fits == self@.can_execute(deck.seed, operation),
    {
        match operation {
            Operation::StartGame { bet_amount } => self.can_start(deck, bet_amount),
            Operation::Hit => true,
            Operation::Stay => self.can_stay(deck),
        }
    }

    /// Starts a game with a bet, with cards from `deck`.
    pub fn start_game(&mut self, deck: &mut Deck, bet_amount: u64) -> (outcome: Outcome)
        requires
            old(self)@.can_start(old(deck).seed, bet_amount),
        ensures
            (Step { account: final(self)@, seed: final(deck).seed, outcome: outcome@ }) == old(
                self,
            )@.start_game(old(deck).seed, bet_amount),
    {
        let active = match &self.game {
            Some(game) => game.is_active,
            None => false,
        };
        if active {
            return Outcome::AlreadyActive;
        }
        if self.balance < bet_amount {
            return Outcome::InsufficientBalance { balance: self.balance, bet_amount };
        }
        self.balance = self.balance - bet_amount;

        let mut game = Game::deal(deck, bet_amount);
        let player_value: u128 = Game::calculate_hand_value(game.player_hand.as_slice());
        if player_value == LIMIT {
            let outcome = resolve_game(&mut self.balance, &game);
            game.is_active = false;
            self.game = Some(game);
            return outcome;
        }
        let outcome = Outcome::Started {
            player_hand: game.player_hand.clone(),
            player_value,
            dealer_hand: game.dealer_hand.clone(),
        };
        self.game = Some(game);
        outcome
    }

    /// Draws one more card for the player from `deck`.
    pub fn hit(&mut self, deck: &mut Deck) -> (outcome: Outcome)
        ensures
            (Step { account: final(self)@, seed: final(deck).seed, outcome: outcome@ }) == old(self)@.hit(
                old(deck).seed,
            ),
    {
        let mut game = match self.game.take() {
            Some(game) => game,
            None => {
                return Outcome::NoGame;
            },
        };
        if !(game.is_active && !game.player_stayed) {
            self.game = Some(game);
            return Outcome::NotActive;
        }
        let card: u8 = deck.draw_card();
        game.player_hand.push(card);

        let player_value: u128 = Game::calculate_hand_value(game.player_hand.as_slice());
        if player_value > LIMIT {
            let outcome = resolve_game(&mut self.balance, &game);
            game.is_active = false;
            self.game = Some(game);
            return outcome;
        }
        let outcome = Outcome::Drew { player_hand: game.player_hand.clone(), player_value };
        self.game = Some(game);
        outcome
    }

    /// Ends the player's turn: the dealer plays with cards from `deck`, and
    /// the game is settled.
    pub fn stay(&mut self, deck: &mut Deck) -> (outcome: Outcome)
        requires
            old(self)@.can_stay(old(deck).seed),
        ensures
            (Step { account: final(self)@, seed: final(deck).seed, outcome: outcome@ }) == old(self)@.stay(
                old(deck).seed,
            ),
    {
        let mut game = match self.game.take() {
            Some(game) => game,
            None => {
                return Outcome::NoGame;
            },
        };
        if !(game.is_active && !game.player_stayed) {
            self.game = Some(game);
            return Outcome::NotActive;
        }
        game.play_dealer(deck);

        let outcome = resolve_game(&mut self.balance, &game);
        game.is_active = false;
        self.game = Some(game);
        outcome
    }

    /// Carries out an operation for the account's owner.
    pub fn execute_operation(&mut self, deck: &mut Deck, operation: Operation) -> (outcome: Outcome)
        requires
            old(self)@.can_execute(old(deck).seed, operation),
        ensures
            (Step { account: final(self)@, seed: final(deck).seed, outcome: outcome@ }) == old(
                self,
            )@.execute(old(deck).seed, operation),
    {
        match operation {
            Operation::StartGame { bet_amount } => self.start_game(deck, bet_amount),
            Operation::Hit => self.hit(deck),
            Operation::Stay => self.stay(deck),
        }
    }
}

} // verus!
