//! The value of a hand, as mathematics.
//!
//! A card's rank is `card % 13 + 1`. An ace (rank 1) counts 11 or 1, ranks 2
//! to 10 count their rank, ranks 11 to 13 count 10. A hand is worth the
//! largest total of 21 or less that its aces allow; if there is none, it is
//! worth the total with every ace counted as 1.

use vstd::prelude::*;

verus! {

/// The total above which a hand is bust.
pub const LIMIT: u128 = 21;

/// The rank of a card, from 1 (ace) to 13 (king).
pub open spec fn rank(card: u8) -> nat {
    (card % 13 + 1) as nat
}

/// Whether a card is an ace.
pub open spec fn is_ace(card: u8) -> bool {
    rank(card) == 1
}

/// What a card adds to a hand when an ace counts 11.
pub open spec fn card_points(card: u8) -> nat {
    if rank(card) == 1 {
        11
    } else if rank(card) > 10 {
        10
    } else {
        rank(card)
    }
}

/// The total of a hand with every ace counted as 11.
pub open spec fn raw_total(hand: Seq<u8>) -> nat
    decreases hand.len(),
{
    if hand.len() == 0 {
        0
    } else {
        raw_total(hand.drop_last()) + card_points(hand.last())
    }
}

/// The number of aces in a hand.
pub open spec fn ace_count(hand: Seq<u8>) -> nat
    decreases hand.len(),
{
    if hand.len() == 0 {
        0
    } else {
        ace_count(hand.drop_last()) + if is_ace(hand.last()) {
            1nat
        } else {
            0nat
        }
    }
}

/// The total of a hand with `low` of its aces counted as 1 and the others as
/// 11. It is one of the hand's totals where `low` is at most the number of
/// aces.
pub open spec fn total_with(hand: Seq<u8>, low: nat) -> int {
    raw_total(hand) - 10 * low
}

/// The total of a hand with every ace counted as 1.
pub open spec fn hard_total(hand: Seq<u8>) -> int {
    total_with(hand, ace_count(hand))
}

/// The number of aces that have to count 1 instead of 11 to bring `total`
/// down to 21, were there enough of them.
pub open spec fn reductions_wanted(total: nat) -> nat {
    if total <= 21 {
        0
    } else {
        ((total - 21 + 9) / 10) as nat
    }
}

/// The total after aces are taken down from 11 to 1, one at a time, for as
/// long as the total is above 21 and an ace is left at 11.
pub open spec fn soften(total: nat, aces: nat) -> nat {
    if reductions_wanted(total) <= aces {
        (total - 10 * reductions_wanted(total)) as nat
    } else {
        (total - 10 * aces) as nat
    }
}

/// The value of a hand.
pub open spec fn hand_value(hand: Seq<u8>) -> nat {
    soften(raw_total(hand), ace_count(hand))
}

/// One more card adds its points to the raw total.
pub proof fn lemma_raw_total_push(hand: Seq<u8>, card: u8)
    ensures
        raw_total(hand.push(card)) == raw_total(hand) + card_points(card),
{
    assert(hand.push(card).drop_last() =~= hand);
}

/// One more card adds one to the number of aces exactly if it is an ace.
pub proof fn lemma_ace_count_push(hand: Seq<u8>, card: u8)
    ensures
        ace_count(hand.push(card)) == ace_count(hand) + if is_ace(card) {
            1nat
        } else {
            0nat
        },
{
    assert(hand.push(card).drop_last() =~= hand);
}

/// One more card adds at least 1 and at most 10 to the hard total.
pub proof fn lemma_hard_total_push(hand: Seq<u8>, card: u8)
    ensures
        hard_total(hand) + 1 <= hard_total(hand.push(card)) <= hard_total(hand) + 10,
{
    lemma_raw_total_push(hand, card);
    lemma_ace_count_push(hand, card);
}

/// Every card counts between 1 and 11, and each ace counts 11 in the raw
/// total: so the totals of a hand lie between its length and 11 times that.
pub proof fn lemma_total_bounds(hand: Seq<u8>)
    ensures
        ace_count(hand) <= hand.len(),
        hand.len() <= hard_total(hand),
        hard_total(hand) <= raw_total(hand) <= 11 * hand.len(),
        hard_total(hand) <= 10 * hand.len(),
    decreases hand.len(),
{
    if hand.len() > 0 {
        lemma_total_bounds(hand.drop_last());
    }
}

/// Softening unfolds one ace at a time: while the total is above 21 and an
/// ace is left, take 10 off and go on with one ace fewer; else stop.
pub proof fn lemma_soften_unfold(total: nat, aces: nat)
    ensures
        soften(total, aces) == if total > 21 && aces > 0 {
            soften((total - 10) as nat, (aces - 1) as nat)
        } else {
            total
        },
{
    if total > 21 && aces > 0 {
        assert(reductions_wanted((total - 10) as nat) + 1 == reductions_wanted(total));
    }
}

/// The value of a hand is one of the totals that its aces allow, and among
/// them the largest that does not exceed 21; where every such total exceeds
/// 21, it is the smallest, the hard total.
pub proof fn lemma_hand_value_is_best(hand: Seq<u8>)
    ensures
        exists|low: nat| low <= ace_count(hand) && hand_value(hand) == #[trigger] total_with(hand, low),
        hard_total(hand) <= hand_value(hand) <= raw_total(hand),
        hand_value(hand) > 21 <==> hard_total(hand) > 21,
        hand_value(hand) > 21 ==> hand_value(hand) == hard_total(hand),
        forall|low: nat|
            low <= ace_count(hand) && #[trigger] total_with(hand, low) <= 21 ==> total_with(
                hand,
                low,
            ) <= hand_value(hand),
{
    let total = raw_total(hand);
    let aces = ace_count(hand);
    let low = if reductions_wanted(total) <= aces {
        reductions_wanted(total)
    } else {
        aces
    };
    assert(low <= ace_count(hand) && hand_value(hand) == total_with(hand, low));
}

/// A hand without aces is worth its raw total: nothing is taken off, so a
/// total above 21 stays above 21.
pub proof fn law_no_aces_no_reduction(hand: Seq<u8>)
    requires
        ace_count(hand) == 0,
    ensures
        hand_value(hand) == raw_total(hand),
        raw_total(hand) > 21 ==> hand_value(hand) > 21,
{
}

} // verus!
