//! A deterministic random source for terrain generation.
//!
//! Generation must be exactly reproducible from a seed, so the random
//! source is an explicitly owned value threaded through the generation
//! calls, never global state.  The generator is a 64-bit xorshift; its
//! whole behaviour is captured by the spec functions below, which is what
//! makes the determinism of everything built on top of it provable.

use vstd::prelude::*;

verus! {

/// State that a zero seed is mapped to, so the xorshift state is never
/// stuck at zero for the common seed 0.
pub const ZERO_SEED_STATE: u64 = 0x9E37_79B9_7F4A_7C15;

/// The xorshift64 state transition.
pub open spec fn rng_next(s: u64) -> u64 {
    let a = s ^ (s << 13);
    let b = a ^ (a >> 7);
    b ^ (b << 17)
}

/// The initial state obtained from a seed.
pub open spec fn seed_state(seed: u64) -> u64 {
    if seed == 0 {
        ZERO_SEED_STATE
    } else {
        seed
    }
}

/// The value drawn when picking below `n` from state `s`: the next raw
/// output reduced modulo `n`.
pub open spec fn rng_pick(s: u64, n: u32) -> u32
    recommends
        n > 0,
{
    ((rng_next(s) % (n as u64)) as u32)
}

/// An explicitly seeded xorshift64 generator.
pub struct SeedRng {
    pub state: u64,
}

impl SeedRng {
    pub fn new(seed: u64) -> (r: SeedRng)
        ensures
            r.state == seed_state(seed),
    {
        if seed == 0 {
            SeedRng { state: ZERO_SEED_STATE }
        } else {
            SeedRng { state: seed }
        }
    }

    /// Draws a value uniformly-ish below `n`, advancing the state by one
    /// xorshift step.  The contract pins both the drawn value and the new
    /// state, so callers remain exactly reproducible.
    pub fn pick(&mut self, n: u32) -> (r: u32)
        requires
            n > 0,
        ensures
            final(self).state == rng_next(old(self).state),
            r == rng_pick(old(self).state, n),
            r < n,
    {
        let mut x: u64 = self.state;
        x = x ^ (x << 13);
        x = x ^ (x >> 7);
        x = x ^ (x << 17);
        self.state = x;
        let m: u64 = x % (n as u64);
        assert(m < n as u64);
        m as u32
    }
}

} // verus!
