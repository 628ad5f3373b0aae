//! What an operation asks the store to keep.
//!
//! The store holds a balance and a game for each account, and the deck's
//! seed. An account is opened from what is stored, an operation is carried
//! out on it, and [`writes`] says which of the three records are written
//! after it. A refused operation writes nothing.

use vstd::prelude::*;

use crate::deck::Deck;
use crate::outcome::{Outcome, OutcomeView};
use crate::state::{Account, AccountView, Game, GameView, STARTING_BALANCE};
use crate::Operation;

verus! {

/// The records to write after an operation; `None` leaves a record as it is.
#[derive(Debug, PartialEq, Eq)]
pub struct Writes {
    /// The deck's seed.
    pub seed: Option<u64>,
    /// The account's balance.
    pub balance: Option<u64>,
    /// The account's game.
    pub game: Option<Game>,
}

/// The records to write, as mathematics.
pub struct WritesView {
    pub seed: Option<u64>,
    pub balance: Option<nat>,
    pub game: Option<GameView>,
}

impl View for Writes {
    type V = WritesView;

    open spec fn view(&self) -> WritesView {
        WritesView {
            seed: self.seed,
            balance: match self.balance {
                Some(balance) => Some(balance as nat),
                None => None,
            },
            game: match self.game {
                Some(game) => Some(game@),
                None => None,
            },
        }
    }
}

impl AccountView {
    /// The account that is opened from what is stored for it: without a
    /// stored balance it holds the starting balance.
    pub open spec fn opened(stored_balance: Option<nat>, stored_game: Option<GameView>) -> AccountView {
        AccountView {
            balance: match stored_balance {
                Some(balance) => balance,
                None => STARTING_BALANCE as nat,
            },
            game: stored_game,
        }
    }
}

/// The records to write after an operation on an account that was opened
/// with a balance of `opened_with`, given the account and the seed that the
/// operation left and the outcome that it reported.
///
/// A refusal writes nothing. Anything else writes the seed and the game; it
/// writes the balance where the operation was `StartGame` or the balance
/// is no longer what the account was opened with.
pub open spec fn writes_of(
    opened_with: nat,
    operation: Operation,
    account: AccountView,
    seed: u64,
    outcome: OutcomeView,
) -> WritesView {
    if outcome.is_rejection() {
        WritesView { seed: None, balance: None, game: None }
    } else {
        WritesView {
            seed: Some(seed),
            balance: if operation is StartGame || account.balance != opened_with {
                Some(account.balance)
            } else {
                None
            },
            game: account.game,
        }
    }
}

/// The records to write after an operation: `account` and `deck` are as the
/// operation left them, `outcome` is what it reported, and `opened_with` is
/// the balance that the account was opened with.
pub fn writes(
    opened_with: u64,
    operation: Operation,
    account: &Account,
    deck: &Deck,
    outcome: &Outcome,
) -> (records: Writes)
    ensures
        records@ == writes_of(opened_with as nat, operation, account@, deck.seed, outcome@),
{
    if outcome.is_rejection() {
        return Writes { seed: None, balance: None, game: None };
    }
    let started = match operation {
        Operation::StartGame { .. } => true,
        Operation::Hit => false,
        Operation::Stay => false,
    };
    let balance = if started || account.balance != opened_with {
        Some(account.balance)
    } else {
        None
    };
    let game = match &account.game {
        Some(game) => Some(game.clone()),
        None => None,
    };
    Writes { seed: Some(deck.seed), balance, game }
}

/// What is written is what the operation left: an account that is opened
/// from the store, taken through an operation, and written back as
/// [`writes_of`] says, opens again as the account that the operation left,
/// and the stored seed is the seed that it left. After a refusal the store is
/// untouched, so a balance or a game that was absent stays absent.
pub proof fn law_store_keeps_what_was_left(
    stored_balance: Option<nat>,
    stored_game: Option<GameView>,
    seed: u64,
    operation: Operation,
)
    ensures
        ({
            let account = AccountView::opened(stored_balance, stored_game);
            let step = account.execute(seed, operation);
            let records = writes_of(
                account.balance,
                operation,
                step.account,
                step.seed,
                step.outcome,
            );
            &&& AccountView::opened(
                if records.balance is Some {
                    records.balance
                } else {
                    stored_balance
                },
                if records.game is Some {
                    records.game
                } else {
                    stored_game
                },
            ) == step.account
            &&& step.seed == if records.seed is Some {
                records.seed->0
            } else {
                seed
            }
            &&& step.outcome.is_rejection() ==> records == (WritesView {
                seed: None,
                balance: None,
                game: None,
            })
        }),
{
}

} // verus!
