//! A small multiplicative congruential pseudo-random number generator.

use vstd::prelude::*;

verus! {

/// Generator state: one 16-bit word.
pub struct PRNG(pub u16);

impl PRNG {
    /// A generator starting from the given seed.
    pub fn new(seed: u16) -> (r: Self)
        ensures
            r.0 == seed,
    {
        PRNG(seed)
    }

    /// A generator seeded from the hardware scanline counter; the caller
    /// reads that register and passes the value in.
    pub fn seeded(vcount: u16) -> (r: Self)
        ensures
            r.0 == vcount,
    {
        PRNG(vcount)
    }

    /// Advances the state by one step of the congruential recurrence with
    /// multiplier 48271 and modulus 65535, wrapping the product at 16 bits,
    /// and returns the new state.
    pub fn next(&mut self) -> (r: u16)
        ensures
            final(self).0 == ((48271 * old(self).0) % 0x1_0000) % 0xFFFF,
            r == final(self).0,
    {
        self.0 = 48271u16.wrapping_mul(self.0) % 0xFFFF;
        self.0
    }
}

} // verus!
