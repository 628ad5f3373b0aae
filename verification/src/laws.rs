//! Laws of the table: what holds of every account, every seed and every
//! request. Each is proved from the definitions of the operations.

use vstd::prelude::*;

use crate::contract::dealer_draws;
use crate::deck::Deck;
use crate::hand::{ace_count, card_points, hand_value, is_ace, rank, raw_total};
use crate::hand::{lemma_hand_value_is_best, lemma_hard_total_push, lemma_total_bounds};
use crate::resolver::{credit, payout, verdict, verdict_of, Verdict};
use crate::state::{AccountView, GameView};
use crate::outcome::OutcomeView;
use crate::Operation;

verus! {

/// The chips that an account has at stake and in hand: its balance, and the
/// stake of its game while that game is not settled.
pub open spec fn funds(account: AccountView) -> nat {
    account.balance + match account.game {
        Some(game) => if game.is_active {
            game.bet_amount
        } else {
            0
        },
        None => 0,
    }
}

/// An operation that is refused changes nothing: the account and the deck
/// are as they were.
pub proof fn law_refusal_changes_nothing(account: AccountView, seed: u64, operation: Operation)
    requires
        account.execute(seed, operation).outcome.is_rejection(),
    ensures
        account.execute(seed, operation).account == account,
        account.execute(seed, operation).seed == seed,
{
}

/// A bet above the balance starts no game: neither the balance nor the game
/// record nor the deck changes. Unless the account has an unsettled game,
/// which is reported first, the outcome is the refusal for want of chips, with
/// the balance and the bet.
pub proof fn law_overbet_is_refused(account: AccountView, seed: u64, bet_amount: u64)
    requires
        bet_amount > account.balance,
    ensures
        account.start_game(seed, bet_amount).account == account,
        account.start_game(seed, bet_amount).seed == seed,
        !account.has_active_game() ==> account.start_game(seed, bet_amount).outcome
            == (OutcomeView::InsufficientBalance {
            balance: account.balance,
            bet_amount: bet_amount as nat,
        }),
{
}

/// An account with an unsettled game cannot start another: the request is
/// refused, and the balance, the game record and the deck stay as they were.
pub proof fn law_one_game_at_a_time(account: AccountView, seed: u64, bet_amount: u64)
    requires
        account.has_active_game(),
    ensures
        account.start_game(seed, bet_amount).outcome == OutcomeView::AlreadyActive,
        account.start_game(seed, bet_amount).account == account,
        account.start_game(seed, bet_amount).seed == seed,
{
}

/// A bet that is accepted leaves the balance before any card is dealt, and
/// exactly four cards are taken from the deck: two for the player, one face
/// up and one face down for the dealer.
pub proof fn law_start_deals_four_cards(account: AccountView, seed: u64, bet_amount: u64)
    requires
        account.may_start(bet_amount),
    ensures
        account.start_game(seed, bet_amount).seed == Deck::seed_after(seed, 4),
        account.start_game(seed, bet_amount).account.game matches Some(game) && {
            &&& game.player_hand == Deck::cards(seed, 2)
            &&& game.revealed_hand() == Deck::cards(seed, 4).subrange(2, 4)
            &&& game.bet_amount == bet_amount
            &&& !game.player_stayed
            &&& game.is_active <==> hand_value(game.player_hand) != 21
        },
        funds(account.start_game(seed, bet_amount).account) == account.balance
            || hand_value(Deck::cards(seed, 2)) == 21,
{
    let game = GameView::dealt(seed, bet_amount as nat);
    assert(game.player_hand =~= Deck::cards(seed, 2));
    assert(game.revealed_hand() =~= Deck::cards(seed, 4).subrange(2, 4));
}

/// An ace and a card that counts ten, in either order, are worth 21.
pub proof fn lemma_ace_and_ten_make_21(first: u8, second: u8)
    requires
        (is_ace(first) && rank(second) >= 10) || (rank(first) >= 10 && is_ace(second)),
    ensures
        hand_value(seq![first, second]) == 21,
{
    let hand = seq![first, second];
    assert(hand.drop_last() =~= seq![first]);
    assert(seq![first].drop_last() =~= Seq::<u8>::empty());
    reveal_with_fuel(raw_total, 3);
    reveal_with_fuel(ace_count, 3);
}

/// A hand of one card is worth at most 11.
pub proof fn lemma_single_card_value(card: u8)
    ensures
        hand_value(seq![card]) == card_points(card),
        2 <= hand_value(seq![card]) <= 11,
{
    assert(seq![card].drop_last() =~= Seq::<u8>::empty());
    reveal_with_fuel(raw_total, 2);
    reveal_with_fuel(ace_count, 2);
}

/// A player who is dealt 21 wins at once: the game is finished within
/// `StartGame`, twice the bet is credited in the same operation, and the
/// outcome reports the win. No `Hit` or `Stay` is needed.
pub proof fn law_natural_is_paid_at_once(account: AccountView, seed: u64, bet_amount: u64)
    requires
        account.may_start(bet_amount),
        hand_value(Deck::cards(seed, 2)) == 21,
    ensures
        account.start_game(seed, bet_amount).account.game == Some(
            GameView::dealt(seed, bet_amount as nat).finished(),
        ),
        account.start_game(seed, bet_amount).account.balance == account.balance - bet_amount + 2
            * bet_amount,
        account.start_game(seed, bet_amount).outcome matches OutcomeView::Resolved {
            verdict,
            player_value,
            ..
        } && verdict == Verdict::Win && player_value == 21,
{
    let game = GameView::dealt(seed, bet_amount as nat);
    assert(game.player_hand =~= Deck::cards(seed, 2));
    lemma_single_card_value(Deck::card_at(seed, 2));
}

/// A player who is dealt an ace and a king holds 21 and is paid at once.
pub proof fn law_ace_and_king_win_at_once(account: AccountView, seed: u64, bet_amount: u64)
    requires
        account.may_start(bet_amount),
        rank(Deck::card_at(seed, 0)) == 1 && rank(Deck::card_at(seed, 1)) == 13 || rank(
            Deck::card_at(seed, 0),
        ) == 13 && rank(Deck::card_at(seed, 1)) == 1,
    ensures
        hand_value(Deck::cards(seed, 2)) == 21,
        account.start_game(seed, bet_amount).account.game matches Some(game) && !game.is_active,
        account.start_game(seed, bet_amount).account.balance == account.balance - bet_amount + 2
            * bet_amount,
{
    assert(Deck::cards(seed, 2) =~= seq![Deck::card_at(seed, 0), Deck::card_at(seed, 1)]);
    lemma_ace_and_ten_make_21(Deck::card_at(seed, 0), Deck::card_at(seed, 1));
    law_natural_is_paid_at_once(account, seed, bet_amount);
}

/// A hit takes exactly one card from the deck and puts it at the end of the
/// player's hand; the cards that were there stay, and so do the dealer's
/// cards and the stake.
pub proof fn law_hit_appends_one_card(account: AccountView, seed: u64)
    requires
        account.in_player_turn(),
    ensures
        account.hit(seed).seed == Deck::next_seed(seed),
        account.hit(seed).account.game matches Some(game) && {
            &&& game.player_hand == account.game->0.player_hand.push(Deck::card_of(seed))
            &&& game.dealer_hand == account.game->0.dealer_hand
            &&& game.dealer_hidden_card == account.game->0.dealer_hidden_card
            &&& game.bet_amount == account.game->0.bet_amount
            &&& game.is_active <==> hand_value(game.player_hand) <= 21
        },
{
}

/// A hit that takes the player above 21 ends the game at once, with nothing
/// credited: the stake stays lost. Any `Hit` or `Stay` after it, whatever the
/// deck holds by then, is refused as not active and changes nothing.
pub proof fn law_bust_ends_the_game(account: AccountView, seed: u64, later_seed: u64)
    requires
        account.in_player_turn(),
        hand_value(account.game->0.player_hand.push(Deck::card_of(seed))) > 21,
    ensures
        account.hit(seed).outcome matches OutcomeView::Resolved { verdict, .. } && verdict
            == Verdict::Bust,
        account.hit(seed).account.balance == account.balance,
        account.hit(seed).account.game matches Some(game) && !game.is_active,
        account.hit(seed).account.hit(later_seed) == account.hit(seed).account.refused(
            later_seed,
            OutcomeView::NotActive,
        ),
        account.hit(seed).account.stay(later_seed) == account.hit(seed).account.refused(
            later_seed,
            OutcomeView::NotActive,
        ),
{
}

/// A game that is settled stays settled: `Hit` and `Stay` are refused and
/// credit nothing, so a game is paid once.
pub proof fn law_settled_game_is_closed(account: AccountView, seed: u64)
    requires
        account.game matches Some(game) && !game.is_active,
    ensures
        account.hit(seed) == account.refused(seed, OutcomeView::NotActive),
        account.stay(seed) == account.refused(seed, OutcomeView::NotActive),
{
}

/// The dealer draws until the hand is worth 17 or more, and not one card
/// further: after `dealer_draws` cards the hand is worth at least 17, and
/// after any smaller number of cards it is worth less.
pub proof fn law_dealer_draws_to_17(hand: Seq<u8>, seed: u64)
    ensures
        hand_value(hand + Deck::cards(seed, dealer_draws(hand, seed))) >= 17,
        forall|fewer: nat|
            fewer < dealer_draws(hand, seed) ==> hand_value(
                hand + #[trigger] Deck::cards(seed, fewer),
            ) < 17,
    decreases dealer_draws(hand, seed),
{
    assert(hand + Deck::cards(seed, 0) =~= hand);
    if hand_value(hand) < 17 {
        let card = Deck::card_of(seed);
        let next = Deck::next_seed(seed);
        law_dealer_draws_to_17(hand.push(card), next);
        lemma_cards_unfold(seed, dealer_draws(hand, seed));
        assert(hand + Deck::cards(seed, dealer_draws(hand, seed)) =~= hand.push(card) + Deck::cards(
            next,
            dealer_draws(hand.push(card), next),
        ));
        assert forall|fewer: nat| fewer < dealer_draws(hand, seed) implies hand_value(
            hand + #[trigger] Deck::cards(seed, fewer),
        ) < 17 by {
            if fewer > 0 {
                lemma_cards_unfold(seed, fewer);
                assert(hand + Deck::cards(seed, fewer) =~= hand.push(card) + Deck::cards(
                    next,
                    (fewer - 1) as nat,
                ));
            } else {
                assert(hand + Deck::cards(seed, 0) =~= hand);
            }
        }
    }
}

/// A dealer whose hand is worth 17 or more draws no card.
pub proof fn law_dealer_stands_from_17(hand: Seq<u8>, seed: u64)
    requires
        hand_value(hand) >= 17,
    ensures
        dealer_draws(hand, seed) == 0,
        hand + Deck::cards(seed, dealer_draws(hand, seed)) == hand,
{
    assert(hand + Deck::cards(seed, 0) =~= hand);
}

/// The dealer draws at most 17 cards: every card adds to the hard total.
pub proof fn law_dealer_turn_is_short(hand: Seq<u8>, seed: u64)
    ensures
        dealer_draws(hand, seed) <= 17,
        dealer_draws(hand, seed) + hand.len() <= 17 || dealer_draws(hand, seed) == 0,
    decreases dealer_draws(hand, seed),
{
    lemma_hand_value_is_best(hand);
    lemma_total_bounds(hand);
    if hand_value(hand) < 17 {
        let card = Deck::card_of(seed);
        lemma_hard_total_push(hand, card);
        lemma_total_bounds(hand.push(card));
        lemma_hand_value_is_best(hand.push(card));
        law_dealer_turn_is_short(hand.push(card), Deck::next_seed(seed));
    }
}

/// The cards drawn from a seed are the first card, then the cards drawn from
/// the next seed.
pub proof fn lemma_cards_unfold(seed: u64, n: nat)
    requires
        n > 0,
    ensures
        Deck::cards(seed, n) == seq![Deck::card_of(seed)] + Deck::cards(
            Deck::next_seed(seed),
            (n - 1) as nat,
        ),
{
    assert forall|i: nat| #![auto] Deck::seed_after(seed, i + 1) == Deck::seed_after(Deck::next_seed(seed), i) by {
        lemma_seed_after_shift(seed, i);
    }
    assert(Deck::cards(seed, n) =~= seq![Deck::card_of(seed)] + Deck::cards(
        Deck::next_seed(seed),
        (n - 1) as nat,
    ));
}

/// Drawing once and then `n` times leaves the seed that `n + 1` draws leave.
pub proof fn lemma_seed_after_shift(seed: u64, n: nat)
    ensures
        Deck::seed_after(seed, n + 1) == Deck::seed_after(Deck::next_seed(seed), n),
    decreases n,
{
    reveal_with_fuel(Deck::seed_after, 2);
    if n > 0 {
        lemma_seed_after_shift(seed, (n - 1) as nat);
    }
}

/// A stay makes the dealer play to the end and settles the game: the dealer's
/// hand is worth 17 or more, the game is finished, and the balance is
/// credited with what the verdict pays.
pub proof fn law_stay_settles(account: AccountView, seed: u64)
    requires
        account.in_player_turn(),
    ensures
        account.stay(seed).account.game matches Some(game) && {
            &&& !game.is_active
            &&& game.player_stayed
            &&& game.player_hand == account.game->0.player_hand
            &&& game.bet_amount == account.game->0.bet_amount
            &&& hand_value(game.dealer_hand) >= 17
            &&& account.stay(seed).account.balance == account.balance + payout(game)
            &&& account.stay(seed).outcome matches OutcomeView::Resolved { verdict, .. } && verdict
                == verdict_of(game)
        },
{
    law_dealer_draws_to_17(account.game->0.revealed_hand(), seed);
}

/// After a stay a query shows the dealer's hand as it was settled: the
/// face-up card, the card that was turned over, and the cards that the
/// dealer drew, each once. Its value is the dealer's value in the verdict.
pub proof fn law_query_after_stay_shows_the_settled_hand(account: AccountView, seed: u64)
    requires
        account.in_player_turn(),
    ensures
        account.stay(seed).account.game matches Some(game) && {
            &&& game.shown().dealer_visible_hand == game.dealer_hand
            &&& game.shown().dealer_visible_hand == account.game->0.revealed_hand() + Deck::cards(
                seed,
                dealer_draws(account.game->0.revealed_hand(), seed),
            )
            &&& account.stay(seed).outcome matches OutcomeView::Resolved {
                dealer_hand,
                dealer_value,
                ..
            } && dealer_hand == game.shown().dealer_visible_hand && dealer_value
                == game.shown().dealer_visible_value
        },
{
}

/// During the player's turn a query withholds the face-down card. Once a
/// game has ended without a stay, on a dealt 21 or on a bust, it shows the
/// face-down card after the dealer's hand.
pub proof fn law_query_shows_the_hidden_card_at_the_end(game: GameView)
    ensures
        game.in_player_turn() ==> game.shown().dealer_visible_hand == game.dealer_hand,
        !game.is_active && !game.player_stayed ==> game.shown().dealer_visible_hand
            == game.revealed_hand(),
        game.player_stayed ==> game.shown().dealer_visible_hand == game.dealer_hand,
{
}

/// A push gives the stake back and no more: where a game is started and the
/// player stays at once, with any deck by then, and the two hands are level,
/// the balance is what it was before the game.
pub proof fn law_push_returns_the_stake(
    account: AccountView,
    seed: u64,
    bet_amount: u64,
    later_seed: u64,
)
    requires
        account.may_start(bet_amount),
        account.start_game(seed, bet_amount).account.stay(later_seed).outcome matches OutcomeView::Resolved {
            verdict,
            ..
        } && verdict == Verdict::Push,
    ensures
        account.start_game(seed, bet_amount).account.stay(later_seed).account.balance
            == account.balance,
{
    let game = GameView::dealt(seed, bet_amount as nat);
    assert(game.player_hand =~= Deck::cards(seed, 2));
    lemma_single_card_value(Deck::card_at(seed, 2));
}

/// Only a verdict moves chips: an operation changes an account's funds only
/// when it settles a game, and then by what the verdict pays less the stake.
/// A push changes nothing, a win adds the stake, a loss or a bust takes it.
pub proof fn law_funds_change_by_verdict_only(account: AccountView, seed: u64, operation: Operation)
    ensures
        match account.execute(seed, operation).outcome {
            OutcomeView::Resolved { verdict, .. } => {
                &&& account.execute(seed, operation).account.game matches Some(game)
                &&& funds(account.execute(seed, operation).account) + game.bet_amount == funds(
                    account,
                ) + credit(verdict, game.bet_amount)
            },
            _ => funds(account.execute(seed, operation).account) == funds(account),
        },
{
}

/// The account and the seed after a sequence of operations, carried out in
/// order.
pub open spec fn after_all(account: AccountView, seed: u64, operations: Seq<Operation>) -> (
    AccountView,
    u64,
)
    decreases operations.len(),
{
    if operations.len() == 0 {
        (account, seed)
    } else {
        let (before, seed) = after_all(account, seed, operations.drop_last());
        let step = before.execute(seed, operations.last());
        (step.account, step.seed)
    }
}

/// The start of a round: `StartGame` with a bet, then `hits` times `Hit`.
pub open spec fn opening(bet_amount: u64, hits: nat) -> Seq<Operation> {
    seq![Operation::StartGame { bet_amount }] + Seq::new(hits, |i: int| Operation::Hit)
}

/// A round: `StartGame` with a bet, then `hits` times `Hit`, then `Stay`.
pub open spec fn round(bet_amount: u64, hits: nat) -> Seq<Operation> {
    opening(bet_amount, hits).push(Operation::Stay)
}

/// Whether an account is in a round that began with `bet_amount` at a balance
/// of `before`: its game has that stake, and either it is the player's turn
/// and the stake is out, or the game is settled and paid.
pub open spec fn in_round(account: AccountView, before: nat, bet_amount: u64) -> bool {
    account.game matches Some(game) && {
        &&& game.bet_amount == bet_amount
        &&& bet_amount <= before
        &&& if game.is_active {
            !game.player_stayed && account.balance == before - bet_amount
        } else {
            account.balance == before - bet_amount + payout(game)
        }
    }
}

/// After a bet is accepted and the player has hit any number of times, the
/// account is in the round: nothing but the stake has left the balance, or
/// the game is settled and paid.
pub proof fn lemma_opening_keeps_round(account: AccountView, seed: u64, bet_amount: u64, hits: nat)
    requires
        account.may_start(bet_amount),
    ensures
        in_round(after_all(account, seed, opening(bet_amount, hits)).0, account.balance, bet_amount),
    decreases hits,
{
    let operations = opening(bet_amount, hits);
    if hits == 0 {
        assert(operations.drop_last() =~= Seq::<Operation>::empty());
        assert(operations.last() == (Operation::StartGame { bet_amount }));
        assert(after_all(account, seed, operations.drop_last()) == (account, seed));
        let game = GameView::dealt(seed, bet_amount as nat);
        lemma_single_card_value(Deck::card_at(seed, 2));
    } else {
        assert(operations.drop_last() =~= opening(bet_amount, (hits - 1) as nat));
        assert(operations.last() == Operation::Hit);
        lemma_opening_keeps_round(account, seed, bet_amount, (hits - 1) as nat);
    }
}

/// A whole round balances: after `StartGame`, any number of `Hit` and a
/// `Stay`, the game is settled, and the balance is what it was before the
/// round, less the stake, plus what the verdict on the kept game pays. So a
/// push leaves the balance where it was before the round, a win adds the
/// stake to it, a loss or a bust takes the stake from it.
pub proof fn law_round_balances(account: AccountView, seed: u64, bet_amount: u64, hits: nat)
    requires
        account.may_start(bet_amount),
    ensures
        after_all(account, seed, round(bet_amount, hits)).0.game matches Some(game) && {
            &&& !game.is_active
            &&& game.bet_amount == bet_amount
            &&& after_all(account, seed, round(bet_amount, hits)).0.balance == account.balance
                - bet_amount + payout(game)
            &&& verdict_of(game) == Verdict::Push ==> after_all(
                account,
                seed,
                round(bet_amount, hits),
            ).0.balance == account.balance
        },
{
    let operations = round(bet_amount, hits);
    assert(operations.drop_last() =~= opening(bet_amount, hits));
    assert(operations.last() == Operation::Stay);
    lemma_opening_keeps_round(account, seed, bet_amount, hits);
}

/// What each verdict pays: nothing for a bust or a loss, twice the stake for
/// a win, the stake for a push.
pub proof fn law_payouts(player_value: nat, dealer_value: nat, bet_amount: nat)
    ensures
        player_value > 21 ==> credit(verdict(player_value, dealer_value), bet_amount) == 0,
        player_value <= 21 && dealer_value > 21 ==> credit(
            verdict(player_value, dealer_value),
            bet_amount,
        ) == 2 * bet_amount,
        dealer_value < player_value <= 21 ==> credit(
            verdict(player_value, dealer_value),
            bet_amount,
        ) == 2 * bet_amount,
        player_value < dealer_value <= 21 ==> credit(
            verdict(player_value, dealer_value),
            bet_amount,
        ) == 0,
        player_value == dealer_value <= 21 ==> credit(
            verdict(player_value, dealer_value),
            bet_amount,
        ) == bet_amount,
{
}

/// Room for twice the stake is room for whatever a game pays: an account
/// that can take its game's largest credit can hit and stay whatever the deck
/// holds, and stays so. A bet that the balance has room to win can be started
/// whatever the deck holds, and leaves such an account.
pub proof fn law_solvent_account_can_always_play(
    account: AccountView,
    seed: u64,
    operation: Operation,
)
    requires
        account.balance <= u64::MAX,
        account.solvent(),
        operation matches Operation::StartGame { bet_amount } ==> account.balance + bet_amount
            <= u64::MAX,
    ensures
        account.can_execute(seed, operation),
        account.execute(seed, operation).account.solvent(),
{
    match operation {
        Operation::StartGame { bet_amount } => {
            if account.may_start(bet_amount) {
                let game = GameView::dealt(seed, bet_amount as nat);
                lemma_payout_bound(game);
            }
        },
        Operation::Hit => {
            if account.in_player_turn() {
                lemma_payout_bound(account.game->0.with_player_card(Deck::card_of(seed)));
            }
        },
        Operation::Stay => {
            if account.in_player_turn() {
                lemma_payout_bound(account.game->0.with_dealer_played(seed));
            }
        },
    }
}

/// A hit never needs room: it credits nothing, so the balance it leaves fits
/// wherever the balance before it did.
pub proof fn law_hit_needs_no_room(account: AccountView, seed: u64)
    requires
        account.balance <= u64::MAX,
    ensures
        account.can_execute(seed, Operation::Hit),
        account.hit(seed).account.balance == account.balance,
{
}

/// A start needs room only for a dealt 21: a bet that is refused, or that
/// deals any other hand, leaves a balance that fits.
pub proof fn law_start_needs_room_for_a_natural_only(
    account: AccountView,
    seed: u64,
    bet_amount: u64,
)
    requires
        account.balance <= u64::MAX,
    ensures
        account.can_start(seed, bet_amount) <==> !(account.may_start(bet_amount) && hand_value(
            Deck::cards(seed, 2),
        ) == 21) || account.balance + bet_amount <= u64::MAX,
{
    let game = GameView::dealt(seed, bet_amount as nat);
    assert(game.player_hand =~= Deck::cards(seed, 2));
    lemma_single_card_value(Deck::card_at(seed, 2));
}

/// No verdict pays more than twice the stake.
pub proof fn lemma_payout_bound(game: GameView)
    ensures
        payout(game) <= 2 * game.bet_amount,
        hand_value(game.player_hand) > 21 ==> payout(game) == 0,
{
}

} // verus!
