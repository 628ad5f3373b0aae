use smartcontract::deck::Deck;
use smartcontract::outcome::Outcome;
use smartcontract::service::{balance, game, saturate, GameState};
use smartcontract::state::{Account, Game};

#[test]
fn balance_defaults_to_1000() {
    assert_eq!(balance(None), 1000);
}

#[test]
fn balance_shows_what_is_stored() {
    assert_eq!(balance(Some(0)), 0);
    assert_eq!(balance(Some(1)), 1);
    assert_eq!(balance(Some(u64::MAX)), u64::MAX);
}

#[test]
fn no_game_shows_nothing() {
    assert_eq!(game(None), None);
}

#[test]
fn hidden_card_is_withheld_during_the_turn() {
    let mut account = Account::open(None, None);
    let mut deck = Deck::new();
    account.start_game(&mut deck, 100);
    assert_eq!(
        game(account.game.as_ref()),
        Some(GameState {
            player_hand: vec![0, 21],
            dealer_visible_hand: vec![42],
            player_value: 20,
            dealer_visible_value: 4,
            bet_amount: 100,
            is_active: true,
            player_stayed: false,
        })
    );
}

#[test]
fn hidden_card_shows_after_a_bust() {
    let mut account = Account::open(None, None);
    let mut deck = Deck::from_seed(4);
    account.start_game(&mut deck, 100);
    account.hit(&mut deck);
    assert_eq!(
        game(account.game.as_ref()),
        Some(GameState {
            player_hand: vec![4, 25, 32],
            dealer_visible_hand: vec![46, 31],
            player_value: 22,
            dealer_visible_value: 14,
            bet_amount: 100,
            is_active: false,
            player_stayed: false,
        })
    );
}

#[test]
fn hidden_card_shows_after_a_natural() {
    let mut account = Account::open(None, None);
    let mut deck = Deck::from_seed(50149041878);
    account.start_game(&mut deck, 250);
    assert_eq!(
        game(account.game.as_ref()),
        Some(GameState {
            player_hand: vec![26, 51],
            dealer_visible_hand: vec![20, 21],
            player_value: 21,
            dealer_visible_value: 17,
            bet_amount: 250,
            is_active: false,
            player_stayed: false,
        })
    );
}

#[test]
fn a_stay_shows_the_hand_that_was_settled() {
    let mut account = Account::open(None, None);
    let mut deck = Deck::from_seed(38);
    account.start_game(&mut deck, 100);
    account.stay(&mut deck);
    assert_eq!(
        game(account.game.as_ref()),
        Some(GameState {
            player_hand: vec![38, 7],
            dealer_visible_hand: vec![48, 1, 18],
            player_value: 18,
            dealer_visible_value: 18,
            bet_amount: 100,
            is_active: false,
            player_stayed: true,
        })
    );
}

#[test]
fn the_turned_over_card_shows_once_after_a_stay() {
    let record = Game {
        player_hand: vec![9, 8],
        dealer_hand: vec![9, 5, 4],
        dealer_hidden_card: 5,
        bet_amount: 3,
        is_active: false,
        player_stayed: true,
    };
    let shown = game(Some(&record)).unwrap();
    assert_eq!(shown.dealer_visible_hand, vec![9, 5, 4]);
    assert_eq!(shown.dealer_visible_value, 21);
    assert_eq!(shown.player_value, 19);
    assert!(!shown.is_active);
    assert!(shown.player_stayed);
}

#[test]
fn a_query_shows_the_dealer_value_of_the_verdict() {
    for seed in [0u64, 1, 5, 7, 11, 38] {
        let mut account = Account::open(None, None);
        let mut deck = Deck::from_seed(seed);
        account.start_game(&mut deck, 100);
        let outcome = account.stay(&mut deck);
        let shown = game(account.game.as_ref()).unwrap();
        match outcome {
            Outcome::Resolved { dealer_hand, dealer_value, player_value, .. } => {
                assert_eq!(shown.dealer_visible_hand, dealer_hand);
                assert_eq!(shown.dealer_visible_value, dealer_value);
                assert_eq!(shown.player_value, player_value);
            }
            other => panic!("not settled: {:?}", other),
        }
    }
}

#[test]
fn saturate_keeps_what_fits() {
    assert_eq!(saturate(0), 0);
    assert_eq!(saturate(21), 21);
    assert_eq!(saturate(u64::MAX as u128), u64::MAX);
    assert_eq!(saturate(u64::MAX as u128 + 1), u64::MAX);
    assert_eq!(saturate(u128::MAX), u64::MAX);
}

#[test]
fn a_query_changes_nothing() {
    let mut account = Account::open(None, None);
    let mut deck = Deck::new();
    account.start_game(&mut deck, 100);
    let before = account.clone();
    game(account.game.as_ref());
    game(account.game.as_ref());
    assert_eq!(account, before);
}
