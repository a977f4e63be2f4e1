//! Chance, from the `rand` crate. What is stated here holds of every outcome.

use rand::rngs::ThreadRng;
use rand::seq::SliceRandom;
use rand::Rng;
use vstd::prelude::*;

verus! {

/// The generator of `rand::thread_rng`. Nothing is known of its state.
#[verifier::external_type_specification]
#[verifier::external_body]
pub struct ExThreadRng(rand::rngs::ThreadRng);

/// `SliceRandom::choose` of `rand`: an item of the slice, and none only where the slice is empty.
/// Which item it is, is left to chance.
#[verifier::external_body]
pub(crate) fn pick<'a, T>(items: &'a [T], rng: &mut ThreadRng) -> (picked: Option<&'a T>)
    ensures
        picked is None <==> items@.len() == 0,
        picked matches Some(item) ==> items@.contains(*item),
{
    items.choose(rng)
}

/// `SliceRandom::shuffle` of `rand`: the same items, each as often as before, in an order that is
/// left to chance.
#[verifier::external_body]
pub(crate) fn shuffle<T>(items: &mut Vec<T>, rng: &mut ThreadRng)
    ensures
        final(items)@.to_multiset() == old(items)@.to_multiset(),
{
    items.shuffle(rng);
}

/// `Rng::gen_range` of `rand` over a half-open range of `i64`: a number of the range. An empty
/// range, on which it panics, is left out.
#[verifier::external_body]
pub(crate) fn number_in(low: i64, high: i64, rng: &mut ThreadRng) -> (number: i64)
    requires
        low < high,
    ensures
        low <= number < high,
{
    rng.gen_range(low..high)
}

/// `Rng::gen` of `rand` for `bool`. Which of the two comes out is left to chance.
#[verifier::external_body]
pub(crate) fn coin(rng: &mut ThreadRng) -> (heads: bool) {
    rng.gen::<bool>()
}

} // verus!
