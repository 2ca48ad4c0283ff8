//! The generator's state and its step.
//!
//! The state holds three fractions and a carry. The fractions are multiples
//! of 2^-52 and are kept as integers that count that unit; a step multiplies
//! the oldest fraction, adds the carry, rounds as binary64 does, and splits
//! the result into the new carry and the new fraction.
use vstd::prelude::*;
use super::mash::mash_fold;
use super::mash::lemma_mash_fold_bound;
use super::mash::Mash;
use super::mash::START;
use crate::binary64::Binary64;
use crate::rounding::round53_signed;
use crate::rounding::round_to_53_bits_signed;

verus! {

/// Two to the power 52: the fractions count units of 2^-52.
pub const ONE: i64 = 0x10_0000_0000_0000;

/// The factor of the step.
pub const FACTOR: i64 = 2091639;

/// Two to the power 20: the carry enters a step divided by 2^32.
pub const CARRY_UNIT: i64 = 0x10_0000;

/// The seed that is stirred in before the caller's.
pub open spec fn blank() -> Seq<char> {
    seq![' ']
}

/// A fraction of the first state: what the blank seed left, less what the
/// caller's seed left, and one more where that is negative.
pub open spec fn settle(blank: int, hash: int) -> int {
    if blank - hash < 0 {
        blank - hash + ONE
    } else {
        blank - hash
    }
}

/// The state of the generator.
#[derive(Debug, Clone, Copy, PartialEq, Eq, Structural)]
pub struct Alea {
    /// The carry, a whole number.
    pub c: i64,
    /// The fractions, oldest first, in units of 2^-52.
    pub s0: i64,
    pub s1: i64,
    pub s2: i64,
}

impl Alea {
    /// The bounds within which a step cannot overflow. Every state that a
    /// seed or a step gives lies within them.
    pub open spec fn wf(self) -> bool {
        &&& -0x80_0000 < self.c < 0x80_0000
        &&& -ONE < self.s0 < 2 * ONE
        &&& -ONE < self.s1 < 2 * ONE
        &&& -ONE < self.s2 < 2 * ONE
    }

    /// The first state for a seed: the hash is stirred three times with the
    /// blank seed, then three times with the caller's.
    pub open spec fn spec_new(seed: Seq<char>) -> Alea {
        let b0 = mash_fold(START as nat, blank());
        let b1 = mash_fold(b0, blank());
        let b2 = mash_fold(b1, blank());
        let h0 = mash_fold(b2, seed);
        let h1 = mash_fold(h0, seed);
        let h2 = mash_fold(h1, seed);
        Alea {
            c: 1,
            s0: settle(b0 as int, h0 as int) as i64,
            s1: settle(b1 as int, h1 as int) as i64,
            s2: settle(b2 as int, h2 as int) as i64,
        }
    }

    /// The sum that a step rounds and splits: `2091639 * s0 + c * 2^-32`,
    /// in units of 2^-52.
    pub open spec fn spec_sum(self) -> int {
        round53_signed(FACTOR * self.s0 + self.c * CARRY_UNIT)
    }

    /// The state after one step: the whole part of the sum is the new
    /// carry, the rest the newest fraction.
    pub open spec fn spec_advance(self) -> Alea {
        let t = self.spec_sum();
        Alea {
            c: (t / (ONE as int)) as i64,
            s0: self.s1,
            s1: self.s2,
            s2: (t % (ONE as int)) as i64,
        }
    }

    /// The state after `n` steps.
    pub open spec fn spec_nth(self, n: nat) -> Alea
        decreases n,
    {
        if n == 0 {
            self
        } else {
            self.spec_nth((n - 1) as nat).spec_advance()
        }
    }

    pub fn new(seed: &str) -> (alea: Self)
        ensures
            alea == Alea::spec_new(seed@),
            alea.wf(),
    {
        let mut mash = Mash::new();
        proof {
            reveal_strlit(" ");
            assert(" "@ =~= blank());
            let b0 = mash_fold(START as nat, blank());
            let b1 = mash_fold(b0, blank());
            let b2 = mash_fold(b1, blank());
            let h0 = mash_fold(b2, seed@);
            let h1 = mash_fold(h0, seed@);
            lemma_mash_fold_bound(START as nat, blank());
            lemma_mash_fold_bound(b0, blank());
            lemma_mash_fold_bound(b1, blank());
            lemma_mash_fold_bound(b2, seed@);
            lemma_mash_fold_bound(h0, seed@);
            lemma_mash_fold_bound(h1, seed@);
        }
        let b0 = mash.stir(" ");
        let b1 = mash.stir(" ");
        let b2 = mash.stir(" ");
        let h0 = mash.stir(seed);
        let h1 = mash.stir(seed);
        let h2 = mash.stir(seed);
        Self {
            c: 1,
            s0: Self::settled(b0, h0),
            s1: Self::settled(b1, h1),
            s2: Self::settled(b2, h2),
        }
    }

    fn settled(blank: u64, hash: u64) -> (s: i64)
        requires
            blank < 2 * ONE,
            hash < 2 * ONE,
        ensures
            s == settle(blank as int, hash as int),
            -ONE < s < 2 * ONE,
    {
        let mut s: i64 = blank as i64 - hash as i64;
        if s < 0 {
            s = s + ONE;
        }
        s
    }

    fn advance(&mut self)
        requires
            old(self).wf(),
        ensures
            *final(self) == old(self).spec_advance(),
            final(self).wf(),
            0 <= final(self).s2 < ONE,
    {
        let exact: i128 = 2091639 * (self.s0 as i128) + 0x10_0000 * (self.c as i128);
        let t: i128 = round_to_53_bits_signed(exact);
        let (whole, part) = split(t);
        self.c = whole as i64;
        self.s0 = self.s1;
        self.s1 = self.s2;
        self.s2 = part as i64;
    }

    /// Takes one step and returns the newest fraction, in units of 2^-52.
    pub fn next(&mut self) -> (draw: u64)
        requires
            old(self).wf(),
        ensures
            *final(self) == old(self).spec_advance(),
            final(self).wf(),
            draw == final(self).s2,
            draw < ONE,
    {
        self.advance();
        self.s2 as u64
    }

    /// The carry and the three fractions as binary64 numbers.
    pub fn to_binary64(&self) -> (parts: [Binary64; 4])
        requires
            self.wf(),
        ensures
            parts@ == seq![
                signed_binary64(self.c, 0),
                signed_binary64(self.s0, 52),
                signed_binary64(self.s1, 52),
                signed_binary64(self.s2, 52),
            ],
    {
        let parts = [
            to_signed_binary64(self.c, 0),
            to_signed_binary64(self.s0, 52),
            to_signed_binary64(self.s1, 52),
            to_signed_binary64(self.s2, 52),
        ];
        assert(parts@ =~= seq![
            signed_binary64(self.c, 0),
            signed_binary64(self.s0, 52),
            signed_binary64(self.s1, 52),
            signed_binary64(self.s2, 52),
        ]);
        parts
    }
}

/// The whole part of `t` units of 2^-52, rounded down, and what is left.
fn split(t: i128) -> (parts: (i128, i128))
    requires
        -0x1000_0000_0000_0000_0000 < t < 0x1000_0000_0000_0000_0000,
    ensures
        parts.0 == t as int / 0x10_0000_0000_0000,
        parts.1 == t as int % 0x10_0000_0000_0000,
        0 <= parts.1 < 0x10_0000_0000_0000,
{
    if t >= 0 {
        let m: u128 = t as u128;
        ((m / 0x10_0000_0000_0000) as i128, (m % 0x10_0000_0000_0000) as i128)
    } else {
        let m: u128 = (-t) as u128;
        let q: u128 = m / 0x10_0000_0000_0000;
        let r: u128 = m % 0x10_0000_0000_0000;
        if r == 0 {
            (-(q as i128), 0)
        } else {
            (-(q as i128) - 1, 0x10_0000_0000_0000 - (r as i128))
        }
    }
}

/// The binary64 datum for `value * 2^-frac_bits`.
pub open spec fn signed_binary64(value: i64, frac_bits: u32) -> Binary64 {
    if value < 0 {
        Binary64::spec_from_fixed(true, (-value) as u64, frac_bits)
    } else {
        Binary64::spec_from_fixed(false, value as u64, frac_bits)
    }
}

fn to_signed_binary64(value: i64, frac_bits: u32) -> (x: Binary64)
    requires
        -2 * ONE < value < 2 * ONE,
        frac_bits <= 1022,
    ensures
        x == signed_binary64(value, frac_bits),
{
    if value < 0 {
        Binary64::from_fixed(true, (-value) as u64, frac_bits)
    } else {
        Binary64::from_fixed(false, value as u64, frac_bits)
    }
}

/// Every draw lies in `[0, 1)`: after a step the newest fraction is
/// non-negative and below 2^52, whatever the state was.
pub proof fn lemma_draw_in_unit_interval(state: Alea)
    ensures
        0 <= state.spec_advance().s2 < ONE,
{
    let t = state.spec_sum();
    assert(0 <= t % (ONE as int) < ONE);
}

/// Two generators made from one seed are in the same state after any
/// number of steps, so their next draws are the same; and each number drawn
/// lies in `[0, 1)`.
pub proof fn lemma_same_seed_same_draws(first: Alea, second: Alea, seed: Seq<char>, steps: nat)
    requires
        first == Alea::spec_new(seed),
        second == Alea::spec_new(seed),
    ensures
        first.spec_nth(steps) == second.spec_nth(steps),
        first.spec_nth(steps).spec_advance().s2 == second.spec_nth(steps).spec_advance().s2,
        0 <= first.spec_nth(steps).spec_advance().s2 < ONE,
{
    lemma_draw_in_unit_interval(first.spec_nth(steps));
}

} // verus!
