//! The injected random source for per-tick spawn decisions. The pipeline
//! draws from a seedable generator owned by the game phase, so a run is
//! reproducible from its seed; the seed itself may come from the host's
//! entropy.

use vstd::prelude::*;

verus! {

pub const PRNG_MULTIPLIER: u64 = 6364136223846793005;

pub const PRNG_INCREMENT: u64 = 1442695040888963407;

/// The generator state one draw later.
pub open spec fn spec_next_state(s: u64) -> u64 {
    s.wrapping_mul(PRNG_MULTIPLIER).wrapping_add(PRNG_INCREMENT)
}

/// The draw produced from a generator state: its high 31 bits.
pub open spec fn spec_output(s: u64) -> u32 {
    (s >> 33) as u32
}

/// The generator state after `k` draws.
pub open spec fn spec_state_after(s: u64, k: nat) -> u64
    decreases k,
{
    if k == 0 {
        s
    } else {
        spec_next_state(spec_state_after(s, (k - 1) as nat))
    }
}

/// A seedable linear congruential generator.
#[derive(Clone, Copy, PartialEq, Eq, Structural, Debug)]
pub struct Prng {
    pub state: u64,
}

impl Prng {
    pub fn new(seed: u64) -> (r: Prng)
        ensures
            r.state == seed,
    {
        Prng { state: seed }
    }

    /// A generator seeded from the host's entropy.
    /// Relies on rand::random for the seed; nothing is assumed of its value.
    pub fn from_entropy() -> (r: Prng) {
        Prng { state: rand::random::<u64>() }
    }

    /// Draw the next value and advance the state.
    pub fn next_u32(&mut self) -> (r: u32)
        ensures
            final(self).state == spec_next_state(old(self).state),
            r == spec_output(final(self).state),
    {
        self.state = self.state.wrapping_mul(PRNG_MULTIPLIER).wrapping_add(PRNG_INCREMENT);
        let shifted: u64 = self.state >> 33;
        proof {
            let s: u64 = self.state;
            assert(s >> 33 < 0x100000000u64) by (bit_vector);
        }
        shifted as u32
    }
}

/// Relies on rand::random: a uniformly drawn value of the requested type;
/// nothing can be promised of which value comes back.
pub assume_specification<T>[ rand::random::<T> ]() -> (r: T)
    where
        rand::distributions::Standard: rand::distributions::Distribution<T>,
;

} // verus!
