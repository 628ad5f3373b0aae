//! The deck: a deterministic stream of cards driven by a 64-bit seed.
//!
//! The stream is a linear congruential generator. It is fully predictable
//! from the seed; it is meant for reproducible play, not for fairness.

use vstd::prelude::*;

verus! {

/// Number of cards: a card is a number below this.
pub const CARDS: u64 = 52;

/// Multiplier of the congruential step.
pub const MULTIPLIER: u64 = 1103515245;

/// Increment of the congruential step.
pub const INCREMENT: u64 = 12345;

/// The source of cards. One deck serves every account, so the order in which
/// operations are admitted decides who gets which card.
#[derive(Clone, Copy, Debug, PartialEq, Eq, Structural)]
pub struct Deck {
    /// The seed that decides the next card and all cards after it.
    pub seed: u64,
}

impl Deck {
    /// The card that a deck with this seed hands out next.
    pub open spec fn card_of(seed: u64) -> u8 {
        (seed % 52) as u8
    }

    /// The seed that follows `seed`: one congruential step modulo 2^64.
    #[verifier::opaque]
    pub open spec fn next_seed(seed: u64) -> u64 {
        ((seed * 1103515245 + 12345) % 0x1_0000_0000_0000_0000) as u64
    }

    /// The seed after `n` draws from a deck that starts at `seed`.
    pub open spec fn seed_after(seed: u64, n: nat) -> u64
        decreases n,
    {
        if n == 0 {
            seed
        } else {
            Self::next_seed(Self::seed_after(seed, (n - 1) as nat))
        }
    }

    /// The `i`-th card (counting from 0) drawn from a deck that starts at `seed`.
    pub open spec fn card_at(seed: u64, i: nat) -> u8 {
        Self::card_of(Self::seed_after(seed, i))
    }

    /// The first `n` cards drawn from a deck that starts at `seed`, in order.
    pub open spec fn cards(seed: u64, n: nat) -> Seq<u8> {
        Seq::new(n, |i: int| Self::card_at(seed, i as nat))
    }

    /// A deck at its initial seed, zero.
    pub fn new() -> (deck: Deck)
        ensures
            deck.seed == 0,
    {
        Deck { seed: 0 }
    }

    /// A deck that continues from a stored seed.
    pub fn from_seed(seed: u64) -> (deck: Deck)
        ensures
            deck.seed == seed,
    {
        Deck { seed }
    }

    /// Hands out the next card and advances the seed.
    pub fn draw_card(&mut self) -> (card: u8)
        ensures
            card == Self::card_of(old(self).seed),
            card < 52,
            final(self).seed == Self::next_seed(old(self).seed),
    {
        let seed = self.seed;
        let card = (seed % CARDS) as u8;
        let scaled = seed.wrapping_mul(MULTIPLIER);
        self.seed = scaled.wrapping_add(INCREMENT);
        proof {
            reveal(Deck::next_seed);
            let m: int = 0x1_0000_0000_0000_0000;
            let product: int = seed * 1103515245;
            assert(scaled == product % m);
            vstd::arithmetic::div_mod::lemma_add_mod_noop(product, 12345, m);
            vstd::arithmetic::div_mod::lemma_small_mod(12345, m as nat);
            if scaled + 12345 > u64::MAX {
                vstd::arithmetic::div_mod::lemma_mod_add_multiples_vanish(scaled + 12345 - m, m);
                vstd::arithmetic::div_mod::lemma_small_mod((scaled + 12345 - m) as nat, m as nat);
            } else {
                vstd::arithmetic::div_mod::lemma_small_mod((scaled + 12345) as nat, m as nat);
            }
        }
        card
    }
}

} // verus!
