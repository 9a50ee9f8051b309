//! The source of randomness behind every draw the encoder and the scheduler
//! make.
//!
//! A [`DrawSource`] owns one generator. The four draws it offers are thin
//! wrappers around the `rand` crate; their contracts state only what holds of
//! every outcome, so whatever is proved of a caller holds however the draws
//! fall.

use rand::distr::weighted::WeightedIndex;
use rand::distr::Distribution;
use rand::rngs::StdRng;
use rand::seq::IndexedRandom;
use rand::Rng;
use rand::SeedableRng;
use vstd::prelude::*;

verus! {

/// The generator type of the `rand` crate; nothing inside it is visible to
/// the proofs.
#[verifier::external_type_specification]
#[verifier::external_body]
pub struct ExStdRng(StdRng);

/// A random generator from which the encoder and the scheduler draw.
pub struct DrawSource {
    generator: StdRng,
}

/// The sum of a table of weights.
pub open spec fn weight_total(weights: Seq<u32>) -> int
    decreases weights.len(),
{
    if weights.len() == 0 {
        0
    } else {
        weight_total(weights.drop_last()) + weights.last()
    }
}

/// A table of weights supports a weighted draw when it is not empty and its
/// sum is positive and fits in a `u32`.
pub open spec fn weights_usable(weights: Seq<u32>) -> bool {
    &&& weights.len() > 0
    &&& 0 < weight_total(weights) <= u32::MAX
}

/// A generator seeded from the thread-local generator of the process.
///
/// Trusted: calls `rand::rng` and hands it to `SeedableRng::from_rng`.
/// Nothing is claimed of the result.
#[verifier::external_body]
fn generator_from_entropy() -> (generator: StdRng) {
    StdRng::from_rng(&mut rand::rng())
}

/// A generator seeded with `seed`.
///
/// Trusted: calls `SeedableRng::seed_from_u64`. Nothing is claimed of the
/// result: `StdRng` promises no fixed output across versions and machines.
#[verifier::external_body]
fn generator_from_seed(seed: u64) -> (generator: StdRng) {
    StdRng::seed_from_u64(seed)
}

impl DrawSource {
    /// A source seeded from the process's own generator. The generator is
    /// opaque to the proofs, so the contract says nothing of its draws.
    pub fn from_entropy() -> (source: DrawSource) {
        DrawSource { generator: generator_from_entropy() }
    }

    /// A source seeded with `seed`, for runs that are to be repeated. The
    /// generator is opaque to the proofs, so the contract says nothing of it.
    pub fn from_seed(seed: u64) -> (source: DrawSource) {
        DrawSource { generator: generator_from_seed(seed) }
    }

    /// One Bernoulli trial that succeeds with probability
    /// `numerator / denominator`.
    ///
    /// Trusted: calls `Rng::random_ratio`, which panics unless
    /// `0 < denominator` and `numerator <= denominator`, and which documents
    /// that the outcome is certain at both ends of the scale.
    #[verifier::external_body]
    pub(crate) fn ratio(&mut self, numerator: u32, denominator: u32) -> (hit: bool)
        requires
            0 < denominator,
            numerator <= denominator,
        ensures
            numerator == 0 ==> !hit,
            numerator == denominator ==> hit,
    {
        self.generator.random_ratio(numerator, denominator)
    }

    /// An index into `weights`, drawn with chances proportional to the
    /// weights.
    ///
    /// Trusted: calls `WeightedIndex::new`, which fails on an empty table, on
    /// a sum of zero and on a sum that overflows, and then
    /// `Distribution::sample`, which returns a position of the table and
    /// never one whose weight is zero.
    #[verifier::external_body]
    pub(crate) fn weighted(&mut self, weights: &Vec<u32>) -> (index: usize)
        requires
            weights_usable(weights@),
        ensures
            index < weights.len(),
            weights[index as int] > 0,
    {
        WeightedIndex::new(weights).unwrap().sample(&mut self.generator)
    }

    /// A position between `low` and `high`, both included, each equally
    /// likely.
    ///
    /// Trusted: calls `Rng::random_range` on an inclusive range, which panics
    /// on an empty range and returns a value of the range.
    #[verifier::external_body]
    pub(crate) fn between(&mut self, low: usize, high: usize) -> (position: usize)
        requires
            low <= high,
        ensures
            low <= position <= high,
    {
        self.generator.random_range(low..=high)
    }

    /// One of `items`, each equally likely; `None` when there are none.
    ///
    /// Trusted: calls `IndexedRandom::choose` on the slice, which returns an
    /// element of the slice, or `None` for an empty slice.
    #[verifier::external_body]
    pub(crate) fn pick<T: Copy>(&mut self, items: &Vec<T>) -> (picked: Option<T>)
        ensures
            items.len() == 0 ==> picked is None,
            items.len() > 0 ==> picked is Some && items@.contains(picked->0),
    {
        items.choose(&mut self.generator).copied()
    }
}

} // verus!
