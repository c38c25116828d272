//! Seedable randomness for tie-breaks and world generation.
//!
//! All randomness in the engine flows through one explicitly seeded source,
//! so scenario runs are reproducible from a fixed seed.  The drawing itself
//! is done by the `rand` crate; the engine relies only on the drawn value
//! lying below the requested bound, and every decision made from a draw is
//! verified for every value the draw could take.

use vstd::prelude::*;

verus! {

#[verifier::external_type_specification]
#[verifier::external_body]
pub struct ExStdRng(rand::rngs::StdRng);

/// A seedable random source for one match or one generation run.
pub struct MatchRandom {
    rng: rand::rngs::StdRng,
}

impl MatchRandom {
    /// Relies on rand's `SeedableRng::seed_from_u64` to build a `StdRng`
    /// from a word-sized seed.
    #[verifier::external_body]
    pub fn from_seed(seed: u64) -> MatchRandom {
        MatchRandom { rng: <rand::rngs::StdRng as rand::SeedableRng>::seed_from_u64(seed) }
    }

    /// Relies on rand's `Rng::gen_range` over the half-open range
    /// `0..bound`: the sample lies in that range, and the call panics only
    /// on an empty range, which the precondition rules out.
    #[verifier::external_body]
    pub fn draw(&mut self, bound: u32) -> (r: u32)
        requires
            bound >= 1,
        ensures
            r < bound,
    {
        rand::Rng::gen_range(&mut self.rng, 0..bound)
    }
}

} // verus!
