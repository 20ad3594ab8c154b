//! GUM uncertainty engine: the deterministic xorshift64* generator behind
//! the Monte Carlo draws, and the first-order propagation engine handle.

use vstd::prelude::*;

verus! {

/// Default trial count per evaluation frame (N >= 10^6).
pub const DEFAULT_TRIALS: u64 = 1_000_000;
/// Output multiplier of xorshift64*.
pub const XORSHIFT_MULTIPLIER: u64 = 0x2545_F491_4F6C_DD1D;

/// One xorshift64 state transition (shifts 12, 25, 27).
pub open spec fn xorshift_step(x: u64) -> u64 {
    let a = x ^ (x >> 12u64);
    let b = a ^ (a << 25u64);
    b ^ (b >> 27u64)
}

/// The 53 output bits drawn from state `x`: the high bits of `x * M mod 2^64`.
pub open spec fn xorshift_output(x: u64) -> u64 {
    (((x as nat * XORSHIFT_MULTIPLIER as nat) % 0x1_0000_0000_0000_0000nat) as u64) >> 11u64
}

/// Law: the xorshift transition never reaches the all-zero state from a
/// nonzero one, and the output fits in 53 bits.
pub proof fn lemma_xorshift_nonzero(x: u64, y: u64)
    by (bit_vector)
    ensures
        x != 0 ==> xorshift_step(x) != 0,
        y >> 11u64 < 0x20_0000_0000_0000u64,
{
}

/// Law: zero is the one state the transition leaves in place (which is why
/// a zero seed is replaced by 1); from any nonzero state the generator
/// moves on to another nonzero state, so it never stalls.
pub proof fn lemma_xorshift_never_stalls(x: u64)
    by (bit_vector)
    ensures
        xorshift_step(0) == 0,
        x != 0 ==> xorshift_step(x) != x,
        x != 0 ==> xorshift_step(x) != 0,
{
}

/// GUM Supplement-1 propagation engine.
#[derive(Clone, Debug, Default)]
pub struct GumDualNumberEngine;

impl GumDualNumberEngine {
    pub fn new() -> Self {
        GumDualNumberEngine
    }
}

/// Deterministic xorshift64* generator for the Monte Carlo engine.
#[derive(Clone, Debug)]
pub struct XorShift64 {
    state: u64,
}

impl XorShift64 {
    /// The generator state.
    pub closed spec fn spec_state(&self) -> u64 {
        self.state
    }

    /// Seed the generator; a zero seed is replaced by 1.
    pub fn new(seed: u64) -> (r: Self)
        ensures
            r.spec_state() == if seed > 1 {
                seed
            } else {
                1
            },
    {
        XorShift64 { state: if seed > 1 { seed } else { 1 } }
    }

    /// Advance the state and return the next 53 uniform bits
    /// (`uniform() = next_bits() / 2^53`).
    pub fn next_bits(&mut self) -> (r: u64)
        ensures
            final(self).spec_state() == xorshift_step(old(self).spec_state()),
            r == xorshift_output(final(self).spec_state()),
            r < 0x20_0000_0000_0000u64,
    {
        let mut x = self.state;
        x = x ^ (x >> 12u64);
        x = x ^ (x << 25u64);
        x = x ^ (x >> 27u64);
        self.state = x;
        let m = x.wrapping_mul(XORSHIFT_MULTIPLIER);
        proof {
            lemma_xorshift_nonzero(0, m);
        }
        m >> 11u64
    }
}

} // verus!
