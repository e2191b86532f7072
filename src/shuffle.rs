use rand::seq::SliceRandom;
use rand::SeedableRng;
use rand_pcg::Pcg32;
use vstd::prelude::*;
use crate::card::Card;

verus! {

/// The order in which a PCG32 generator seeded with `seed` leaves `cards`
/// after a Fisher-Yates shuffle.
pub uninterp spec fn seeded_shuffle(cards: Seq<Card>, seed: u64) -> Seq<Card>;

/// Relies on `rand_pcg::Pcg32::seed_from_u64` and `rand::seq::SliceRandom::shuffle`:
/// the generator is seeded from `seed` alone, and the shuffle permutes the cards in
/// place, so the result is a rearrangement of the input fixed by the input and the seed.
#[verifier::external_body]
pub(crate) fn shuffle_cards(cards: &mut Vec<Card>, seed: u64)
    ensures
        final(cards)@ == seeded_shuffle(old(cards)@, seed),
        final(cards)@.len() == old(cards)@.len(),
        final(cards)@.to_multiset() == old(cards)@.to_multiset(),
{
    let mut rng = Pcg32::seed_from_u64(seed);
    cards.shuffle(&mut rng);
}

} // verus!
