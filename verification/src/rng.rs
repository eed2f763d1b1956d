//! A small deterministic pseudo-random source for the combat checks.
//!
//! Hit and dodge checks each consume one sample drawn uniformly from
//! `0..100`. The generator is a 64-bit linear congruential generator; the
//! session seeds it once (for instance from the wall clock, outside this
//! library), while tests seed it with a fixed value or bypass it entirely by
//! passing chosen samples to the combat functions.

use vstd::prelude::*;

verus! {

/// Multiplier of the linear congruential step.
pub const LCG_MUL: u64 = 6364136223846793005;

/// Increment of the linear congruential step.
pub const LCG_ADD: u64 = 1442695040888963407;

/// The generator state after one step.
pub open spec fn spec_lcg_next(s: u64) -> u64 {
    ((s * LCG_MUL + LCG_ADD) % 0x10000000000000000) as u64
}

/// The percentage sample produced from a state: the high bits of the stepped
/// state, reduced modulo 100.
pub open spec fn spec_roll_of(s: u64) -> u64 {
    ((spec_lcg_next(s) / 0x200000000) % 100) as u64
}

/// A seeded pseudo-random generator.
#[derive(Debug, Clone, Copy)]
pub struct Rng {
    pub state: u64,
}

impl Rng {
    /// A generator starting from the given seed.
    pub fn new(seed: u64) -> (r: Rng)
        ensures
            r.state == seed,
    {
        Rng { state: seed }
    }

    /// Draws one sample uniform over `0..100`: steps the state once and
    /// reduces its high bits modulo 100.
    pub fn roll_percent(&mut self) -> (r: u64)
        ensures
            final(self).state == spec_lcg_next(old(self).state),
            r == spec_roll_of(old(self).state),
            r < 100,
    {
        let s = self.state;
        proof {
            assert((s as int) * (LCG_MUL as int) + (LCG_ADD as int) <= u128::MAX)
                by (nonlinear_arith)
                requires
                    s <= u64::MAX,
            ;
        }
        let wide: u128 = (s as u128) * (LCG_MUL as u128) + (LCG_ADD as u128);
        let next: u64 = (wide % 0x10000000000000000) as u64;
        proof {
            assert(next == spec_lcg_next(self.state));
        }
        self.state = next;
        (next / 0x200000000) % 100
    }
}

} // verus!
