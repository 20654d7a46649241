//! The generator behind every draw.
//!
//! Two kinds of draw reach the generator. `Deck::random` and its neighbours
//! ask the thread-local one, whose outcome nothing here can know beforehand.
//! A `Shoe` owns a generator of its own instead, held as the single number
//! that is its whole state, so that a shoe built from a seed deals the same
//! cards every time.

use vstd::prelude::*;

verus! {

/// The order that a shuffle by a generator in state `state` gives `order`,
/// and the state it leaves the generator in.
///
/// The generator picks each position through the machine's word: 32-bit
/// arithmetic on a 32-bit target, 64-bit on a 64-bit one. So this is the
/// result on the target the crate is built for; two builds for targets of
/// different word sizes may shuffle the same state differently.
pub uninterp spec fn shuffled(state: u64, order: Seq<&'static str>) -> (u64, Seq<&'static str>);

/// The number below `bound` that a generator in state `state` picks, and the
/// state it leaves the generator in. Like `shuffled`, this is the result on
/// the target the crate is built for.
pub uninterp spec fn picked_below(state: u64, bound: usize) -> (u64, usize);

/// Trusted: `fastrand::usize(..bound)`, the thread-local generator, returns a
/// number below `bound`. Which one is chance, so nothing more is claimed. It
/// panics on an empty range, which `bound > 0` rules out.
#[verifier::external_body]
pub(crate) fn random_below(bound: usize) -> (r: usize)
    requires
        bound > 0,
    ensures
        r < bound,
{
    fastrand::usize(..bound)
}

/// Trusted: `fastrand::Rng::new()`, a generator forked from the thread-local
/// one, read back as its state. The state is chance: nothing is claimed of it.
#[verifier::external_body]
pub(crate) fn fresh_state() -> u64 {
    fastrand::Rng::new().get_seed()
}

/// Trusted: `fastrand::Rng::shuffle` on a generator in state `state`. The
/// generator is rebuilt from its state with `Rng::with_seed` and read back
/// with `Rng::get_seed`, both of which only move the one `u64` that an `Rng`
/// is. Claimed: the new order and the new state are `shuffled` of the old
/// state and order, and the shuffle only rearranges, since it is a run of
/// swaps.
#[verifier::external_body]
pub(crate) fn shuffle_from(state: u64, order: &mut Vec<&'static str>) -> (next: u64)
    ensures
        (next, final(order)@) == shuffled(state, old(order)@),
        final(order)@.to_multiset() == old(order)@.to_multiset(),
{
    let mut rng = fastrand::Rng::with_seed(state);
    rng.shuffle(order);
    rng.get_seed()
}

/// Trusted: `fastrand::Rng::usize(..bound)` on a generator in state `state`,
/// rebuilt and read back as in `shuffle_from`. Claimed: the result is
/// `picked_below` of the state and the bound, and the number is below `bound`.
/// It panics on an empty range, which `bound > 0` rules out.
#[verifier::external_body]
pub(crate) fn below_from(state: u64, bound: usize) -> (r: (u64, usize))
    requires
        bound > 0,
    ensures
        r == picked_below(state, bound),
        r.1 < bound,
{
    let mut rng = fastrand::Rng::with_seed(state);
    let picked = rng.usize(..bound);
    (rng.get_seed(), picked)
}

} // verus!
