use smartcontract::deck::Deck;
use smartcontract::outcome::Outcome;
use smartcontract::state::{Account, Game};
use smartcontract::store::{writes, Writes};
use smartcontract::Operation;

const NOTHING: Writes = Writes { seed: None, balance: None, game: None };

fn run(account: &mut Account, deck: &mut Deck, operation: Operation) -> (Outcome, Writes) {
    let opened_with = account.balance;
    let outcome = account.execute_operation(deck, operation);
    let records = writes(opened_with, operation, account, deck, &outcome);
    (outcome, records)
}

#[test]
fn a_refusal_writes_nothing() {
    let mut account = Account::open(None, None);
    let mut deck = Deck::from_seed(9);
    assert_eq!(run(&mut account, &mut deck, Operation::Hit).1, NOTHING);
    assert_eq!(run(&mut account, &mut deck, Operation::Stay).1, NOTHING);
    assert_eq!(run(&mut account, &mut deck, Operation::StartGame { bet_amount: 1001 }).1, NOTHING);
    run(&mut account, &mut deck, Operation::StartGame { bet_amount: 1 });
    assert_eq!(run(&mut account, &mut deck, Operation::StartGame { bet_amount: 1 }).1, NOTHING);
}

#[test]
fn a_start_writes_seed_balance_and_game() {
    let mut account = Account::open(None, None);
    let mut deck = Deck::new();
    let (_, records) = run(&mut account, &mut deck, Operation::StartGame { bet_amount: 100 });
    assert_eq!(
        records,
        Writes {
            seed: Some(9039786828775103532),
            balance: Some(900),
            game: Some(Game {
                player_hand: vec![0, 21],
                dealer_hand: vec![42],
                dealer_hidden_card: 39,
                bet_amount: 100,
                is_active: true,
                player_stayed: false,
            }),
        }
    );
}

#[test]
fn a_start_with_no_bet_still_writes_the_balance() {
    let mut account = Account::open(None, None);
    let mut deck = Deck::new();
    let (_, records) = run(&mut account, &mut deck, Operation::StartGame { bet_amount: 0 });
    assert_eq!(records.balance, Some(1000));
}

#[test]
fn a_hit_writes_seed_and_game_only() {
    let mut account = Account::open(None, None);
    let mut deck = Deck::new();
    run(&mut account, &mut deck, Operation::StartGame { bet_amount: 100 });
    let (_, records) = run(&mut account, &mut deck, Operation::Hit);
    assert_eq!(records.seed, Some(12744206516323260149));
    assert_eq!(records.balance, None);
    assert_eq!(records.game, account.game);
    assert_eq!(records.game.map(|game| game.player_hand), Some(vec![0, 21, 40]));
}

#[test]
fn a_bust_writes_no_balance() {
    let mut account = Account::open(None, None);
    let mut deck = Deck::from_seed(4);
    run(&mut account, &mut deck, Operation::StartGame { bet_amount: 100 });
    let (outcome, records) = run(&mut account, &mut deck, Operation::Hit);
    assert!(matches!(outcome, Outcome::Resolved { .. }));
    assert_eq!(records.balance, None);
    assert_eq!(records.seed, Some(141247085087274985));
    assert_eq!(records.game.map(|game| game.is_active), Some(false));
}

#[test]
fn a_winning_stay_writes_the_balance() {
    let mut account = Account::open(None, None);
    let mut deck = Deck::new();
    run(&mut account, &mut deck, Operation::StartGame { bet_amount: 100 });
    let (_, records) = run(&mut account, &mut deck, Operation::Stay);
    assert_eq!(records.balance, Some(1100));
    assert_eq!(records.seed, Some(12744206516323260149));
    assert_eq!(records.game, account.game);
}

#[test]
fn a_losing_stay_writes_no_balance() {
    let mut account = Account::open(None, None);
    let mut deck = Deck::from_seed(1);
    run(&mut account, &mut deck, Operation::StartGame { bet_amount: 100 });
    let (_, records) = run(&mut account, &mut deck, Operation::Stay);
    assert_eq!(records.balance, None);
    assert_eq!(records.seed, Some(370094621659488050));
}

#[test]
fn a_push_writes_the_returned_stake() {
    let mut account = Account::open(None, None);
    let mut deck = Deck::from_seed(38);
    run(&mut account, &mut deck, Operation::StartGame { bet_amount: 100 });
    let (_, records) = run(&mut account, &mut deck, Operation::Stay);
    assert_eq!(records.balance, Some(1000));
}

#[test]
fn a_stay_that_draws_nothing_still_writes_the_seed() {
    let mut account = Account::open(None, None);
    let mut deck = Deck::from_seed(7);
    run(&mut account, &mut deck, Operation::StartGame { bet_amount: 100 });
    let seed = deck.seed;
    let (_, records) = run(&mut account, &mut deck, Operation::Stay);
    assert_eq!(records.seed, Some(seed));
}

#[test]
fn writing_back_and_opening_again_gives_the_account() {
    let mut stored_balance: Option<u64> = None;
    let mut stored_game: Option<Game> = None;
    let mut stored_seed: u64 = 0;
    let operations = [
        Operation::Hit,
        Operation::StartGame { bet_amount: 5000 },
        Operation::StartGame { bet_amount: 10 },
        Operation::StartGame { bet_amount: 10 },
        Operation::Hit,
        Operation::Hit,
        Operation::Stay,
        Operation::Stay,
        Operation::StartGame { bet_amount: 20 },
        Operation::Stay,
    ];
    for operation in operations {
        let mut account = Account::open(stored_balance, stored_game.clone());
        let mut deck = Deck::from_seed(stored_seed);
        let (_, records) = run(&mut account, &mut deck, operation);
        if let Some(seed) = records.seed {
            stored_seed = seed;
        }
        if let Some(balance) = records.balance {
            stored_balance = Some(balance);
        }
        if let Some(game) = records.game {
            stored_game = Some(game);
        }
        assert_eq!(Account::open(stored_balance, stored_game.clone()), account);
        assert_eq!(stored_seed, deck.seed);
    }
    assert!(stored_balance.is_some());
}

#[test]
fn an_absent_balance_stays_absent_after_a_refusal() {
    let mut account = Account::open(None, None);
    let mut deck = Deck::new();
    let (outcome, records) = run(&mut account, &mut deck, Operation::StartGame { bet_amount: 2000 });
    assert_eq!(outcome, Outcome::InsufficientBalance { balance: 1000, bet_amount: 2000 });
    assert_eq!(records, NOTHING);
}
