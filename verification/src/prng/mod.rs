//! The seeded generator that drives interval fuzzing.
//!
//! The same seed gives the same numbers on every machine: the arithmetic is
//! exact integer arithmetic, rounded where binary64 rounds.
pub mod alea;
pub mod mash;

use vstd::arithmetic::power2::*;
use vstd::prelude::*;
use crate::binary64::Binary64;
use crate::rounding::round53;
use crate::rounding::round_to_53_bits;

pub use alea::Alea;
pub use mash::Mash;

verus! {

/// Two to the power 53: `double` counts units of 2^-53.
pub const DOUBLE_ONE: u64 = 0x20_0000_0000_0000;

/// A 32-bit pattern read as a signed number.
pub open spec fn wrap_to_i32(bits: int) -> int {
    if bits >= 0x8000_0000 {
        bits - 0x1_0000_0000
    } else {
        bits
    }
}

/// A generator of reproducible numbers.
#[derive(Debug, Clone, Copy, PartialEq, Eq, Structural)]
pub struct Prng {
    pub xg: Alea,
}

impl Prng {
    pub open spec fn wf(self) -> bool {
        self.xg.wf()
    }

    /// The generator as a seed leaves it.
    pub open spec fn spec_new(seed: Seq<char>) -> Prng {
        Prng { xg: Alea::spec_new(seed) }
    }

    /// The generator after `n` draws.
    pub open spec fn spec_after(self, n: nat) -> Prng {
        Prng { xg: self.xg.spec_nth(n) }
    }

    /// The next draw, in units of 2^-52.
    pub open spec fn spec_next(self) -> int {
        self.xg.spec_advance().s2 as int
    }

    /// The next draw scaled to 32 bits and read as a signed number.
    pub open spec fn spec_int32(self) -> int {
        wrap_to_i32(self.spec_next() / 0x10_0000)
    }

    /// The next two draws combined, in units of 2^-53: the second draw, and
    /// below its last bit the whole part of 2^21 times the first.
    pub open spec fn spec_double(self) -> nat {
        let high = self.spec_next() / 0x8000_0000;
        let low = self.spec_after(1).spec_next();
        round53((high + 2 * low) as nat)
    }

    /// What `double` returns as a binary64 number.
    pub open spec fn spec_double_binary64(self) -> Binary64 {
        let units = self.spec_double();
        if units >= DOUBLE_ONE {
            Binary64::spec_from_fixed(false, (units / 2) as u64, 52)
        } else {
            Binary64::spec_from_fixed(false, units as u64, 53)
        }
    }

    pub fn new(seed: &str) -> (prng: Self)
        ensures
            prng == Prng::spec_new(seed@),
            prng.wf(),
    {
        Self { xg: Alea::new(seed) }
    }

    /// Draws a number from `[0, 1)` and returns it in units of 2^-52.
    pub fn next_units(&mut self) -> (draw: u64)
        requires
            old(self).wf(),
        ensures
            *final(self) == old(self).spec_after(1),
            final(self).wf(),
            draw == old(self).spec_next(),
            draw < 0x10_0000_0000_0000,
    {
        proof {
            assert(self.xg.spec_nth(1) == self.xg.spec_nth(0).spec_advance());
        }
        self.xg.next()
    }

    /// Draws a number from `[0, 1)`: in units of 2^-1074, in which 1 is
    /// `2^1074`, the draw lies below one.
    pub fn gen_next(&mut self) -> (draw: Binary64)
        requires
            old(self).wf(),
        ensures
            *final(self) == old(self).spec_after(1),
            final(self).wf(),
            draw == Binary64::spec_from_fixed(false, old(self).spec_next() as u64, 52),
            !draw.sign_bit(),
            draw.scaled_value() < pow2(1074),
    {
        let units = self.next_units();
        proof {
            lemma2_to64();
            lemma2_to64_rest();
            lemma_pow2_adds(52, 1022);
            lemma_pow2_pos(1022);
            assert(units * pow2(1022) < pow2(52) * pow2(1022)) by (nonlinear_arith)
                requires
                    units < pow2(52),
                    pow2(1022) > 0,
            ;
        }
        Binary64::from_fixed(false, units, 52)
    }

    /// Draws a number and returns its first 32 bits as a signed number.
    pub fn int32(&mut self) -> (draw: i32)
        requires
            old(self).wf(),
        ensures
            *final(self) == old(self).spec_after(1),
            final(self).wf(),
            draw == old(self).spec_int32(),
    {
        let units = self.next_units();
        let bits: u64 = units / 0x10_0000;
        if bits >= 0x8000_0000 {
            (bits as i64 - 0x1_0000_0000) as i32
        } else {
            bits as i32
        }
    }

    /// Draws two numbers and combines them to one with 53 random bits, in
    /// units of 2^-53. The result is at most one, and below one unless the
    /// second draw is within 2^-32 of one.
    pub fn double_units(&mut self) -> (draw: u64)
        requires
            old(self).wf(),
        ensures
            *final(self) == old(self).spec_after(2),
            final(self).wf(),
            draw == old(self).spec_double(),
            draw <= DOUBLE_ONE + 0x20_0000,
    {
        proof {
            assert(self.xg.spec_nth(1) == self.xg.spec_nth(0).spec_advance());
            assert(self.xg.spec_nth(2) == self.xg.spec_nth(1).spec_advance());
        }
        let first = self.next_units();
        let high: u64 = first / 0x8000_0000;
        proof {
            assert(self.xg.spec_nth(1) == self.xg.spec_nth(0).spec_advance());
        }
        let low = self.next_units();
        round_to_53_bits((high + 2 * low) as u128) as u64
    }

    /// Draws two numbers and combines them to one with 53 random bits.
    pub fn double(&mut self) -> (draw: Binary64)
        requires
            old(self).wf(),
        ensures
            *final(self) == old(self).spec_after(2),
            final(self).wf(),
            draw == old(self).spec_double_binary64(),
    {
        let units = self.double_units();
        if units >= DOUBLE_ONE {
            Binary64::from_fixed(false, units / 2, 52)
        } else {
            Binary64::from_fixed(false, units, 53)
        }
    }

    pub fn set_state(&mut self, xg: Alea)
        ensures
            final(self).xg == xg,
    {
        self.xg = xg;
    }

    pub fn state(self) -> (xg: Alea)
        ensures
            xg == self.xg,
    {
        self.xg
    }
}

/// `double` is at most one and a little: 2^53 units and at most 2^21 more.
pub proof fn lemma_double_bound(prng: Prng)
    ensures
        prng.spec_double() <= DOUBLE_ONE + 0x20_0000,
{
    alea::lemma_draw_in_unit_interval(prng.xg);
    assert(prng.xg.spec_nth(1) == prng.xg.spec_nth(0).spec_advance());
    alea::lemma_draw_in_unit_interval(prng.spec_after(1).xg);
    let high = prng.spec_next() / 0x8000_0000;
    let low = prng.spec_after(1).spec_next();
    crate::rounding::lemma_round53_close((high + 2 * low) as nat);
}

/// A generator for `seed`.
pub fn alea(seed: &str) -> (prng: Prng)
    ensures
        prng == Prng::spec_new(seed@),
        prng.wf(),
{
    Prng::new(seed)
}

} // verus!
