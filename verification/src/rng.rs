//! Trusted wrappers around the process-wide random number generator.
//!
//! Randomness here only desynchronizes what is shown (shuffle order, scroll
//! direction, initial progress); no contract depends on a particular
//! outcome, only on bounds that hold of every outcome.

use vstd::prelude::*;

use rand::RngExt;
use rand::seq::SliceRandom;

verus! {

/// Relies on `rand::rng` and `RngExt::random_range(0..bound)`: the sample
/// always lies in the (non-empty) range. Nothing else is assumed of it.
#[verifier::external_body]
pub(crate) fn random_below(bound: u64) -> (r: u64)
    requires
        1 <= bound,
    ensures
        r < bound,
{
    rand::rng().random_range(0..bound)
}

/// Relies on `rand::random::<bool>`: a coin flip; nothing is assumed of
/// the outcome.
#[verifier::external_body]
pub(crate) fn random_flip() -> bool {
    rand::random()
}

/// Relies on `SliceRandom::shuffle`: the paths are permuted in place, so
/// the multiset of paths is exactly preserved.
#[verifier::external_body]
pub(crate) fn shuffle_paths(paths: &mut Vec<String>)
    ensures
        final(paths)@.to_multiset() == old(paths)@.to_multiset(),
{
    paths.shuffle(&mut rand::rng());
}

} // verus!
