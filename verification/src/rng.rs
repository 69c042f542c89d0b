//! The deterministic pseudo-random source the combat timing draws from: a
//! SplitMix64 generator. Seeded explicitly, so a fight replays exactly for
//! the same seed, and free of floating point, so every draw is an integer
//! whose contract is exact.
use vstd::prelude::*;
use vstd::wrapping::u64_specs;

verus! {

/// The SplitMix64 increment.
pub const GOLDEN_GAMMA: u64 = 0x9E37_79B9_7F4A_7C15;

/// A seeded, reproducible generator.
#[derive(Clone, Debug)]
pub struct SeededRng {
    /// The generator's whole state.
    pub state: u64,
}

/// The state after one draw.
pub open spec fn next_state(state: u64) -> u64 {
    u64_specs::wrapping_add(state, GOLDEN_GAMMA)
}

/// The value one draw returns from `state` (the SplitMix64 finaliser applied
/// to the advanced state).
pub open spec fn draw_value(state: u64) -> u64 {
    let z0 = next_state(state);
    let z1 = u64_specs::wrapping_mul(z0 ^ (z0 >> 30u64), 0xBF58_476D_1CE4_E5B9u64);
    let z2 = u64_specs::wrapping_mul(z1 ^ (z1 >> 27u64), 0x94D0_49BB_1331_11EBu64);
    z2 ^ (z2 >> 31u64)
}

/// The draw `chance_percent` makes: a number in `0..100`.
pub open spec fn percent_roll(state: u64) -> u64 {
    draw_value(state) % 100
}

impl SeededRng {
    /// A generator whose first state is `seed`.
    pub fn new(seed: u64) -> (rng: Self)
        ensures
            rng.state == seed,
    {
        SeededRng { state: seed }
    }

    /// The next 64 pseudo-random bits.
    pub fn next_u64(&mut self) -> (value: u64)
        ensures
            final(self).state == next_state(old(self).state),
            value == draw_value(old(self).state),
    {
        self.state = self.state.wrapping_add(GOLDEN_GAMMA);
        let mut z = self.state;
        z = (z ^ (z >> 30u64)).wrapping_mul(0xBF58_476D_1CE4_E5B9u64);
        z = (z ^ (z >> 27u64)).wrapping_mul(0x94D0_49BB_1331_11EBu64);
        z ^ (z >> 31u64)
    }

    /// A uniform draw in `0..bound`.
    pub fn below(&mut self, bound: u64) -> (value: u64)
        requires
            bound > 0,
        ensures
            final(self).state == next_state(old(self).state),
            value == draw_value(old(self).state) % bound,
            value < bound,
    {
        let v = self.next_u64();
        v % bound
    }

    /// `true` with probability `percent`/100.
    pub fn chance_percent(&mut self, percent: u64) -> (hit: bool)
        ensures
            final(self).state == next_state(old(self).state),
            hit == (percent_roll(old(self).state) < percent),
    {
        let roll = self.below(100);
        roll < percent
    }
}

} // verus!
