//! The injected randomness capability.
//!
//! The world consumes randomness only through this trait, so the platform
//! layer decides the source: a session seeds a generator (or supplies its
//! own) at world-initialization time, and a test can inject a fixed source
//! to make a run fully deterministic.

use vstd::prelude::*;

verus! {

/// A supplier of uniform-ish values in a caller-given range. Nothing more is
/// assumed of a source than that each draw lands in the requested range.
pub trait RandomSource {
    /// Draws a value in the half-open range `[min, max)`.
    fn random_in_range(&mut self, min: i64, max: i64) -> (r: i64)
        requires
            min < max,
        ensures
            min <= r < max,
    ;
}

/// A small deterministic generator (a linear congruential step with output
/// mixing), good enough for spawn placement and fully reproducible from its
/// seed.
#[derive(Clone, Copy, Debug, PartialEq, Eq, Structural)]
pub struct SeededRandom {
    pub state: u64,
}

impl SeededRandom {
    pub fn new(seed: u64) -> (r: SeededRandom)
        ensures
            r == (SeededRandom { state: seed }),
    {
        SeededRandom { state: seed }
    }
}

impl RandomSource for SeededRandom {
    fn random_in_range(&mut self, min: i64, max: i64) -> (r: i64) {
        self.state = self.state.wrapping_mul(6364136223846793005).wrapping_add(
            1442695040888963407,
        );
        let x = self.state ^ (self.state >> 33);
        let span = ((max as i128) - (min as i128)) as u128;
        let off = (x as u128) % span;
        proof {
            assert(off < span) by {
                vstd::arithmetic::div_mod::lemma_mod_bound(x as int, span as int);
            }
        }
        (min as i128 + off as i128) as i64
    }
}

} // verus!
