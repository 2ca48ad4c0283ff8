//! The string hash that seeds the generator.
//!
//! The hash is defined by binary64 arithmetic. Every number that it meets is
//! a multiple of a small power of two, so the arithmetic is done here on
//! integers that count such a power, and each result is rounded to 53
//! significant bits where binary64 would round it.
use vstd::arithmetic::power2::*;
use vstd::prelude::*;
use crate::binary64::Binary64;
use crate::rounding::round53;
use crate::rounding::round_to_53_bits;

verus! {

/// The register before the first character, shifted left by 20 bits.
pub const START: u64 = 0xe_fc82_49d0_0000;

/// The significand of the binary64 number nearest to 0.02519603282416938;
/// the number is this significand times 2^-58.
pub const MULTIPLIER: u128 = 0x19_ccfd_23e0_0000;

/// Two to the power 20: the register counts units of 2^-20.
pub const REGISTER_ONE: u128 = 0x10_0000;

/// Two to the power 78: a product of the multiplier and the register counts
/// units of 2^-78.
pub const PRODUCT_ONE: u128 = 0x4000_0000_0000_0000_0000;

/// Two to the power 53: the bound of the register, and of a significand.
pub const REGISTER_LIMIT: u64 = 0x20_0000_0000_0000;

/// The register after one more character. With `n` for the register and
/// `h` for a scratch value, a character `c` does this:
/// `n += c; h = 0.02519603282416938 * n; n = trunc(h); h -= n; h *= n;
/// n = trunc(h); h -= n; n += h * 2^32`.
/// Here `n` counts units of 2^-20 and `h` units of 2^-78; the sum and the
/// two products are rounded, the differences are exact.
pub open spec fn mash_step(n: nat, c: char) -> nat {
    let sum = round53(n + (c as nat) * (REGISTER_ONE as nat));
    let h = round53((MULTIPLIER as nat) * sum);
    let whole = h / (PRODUCT_ONE as nat);
    let part = h % (PRODUCT_ONE as nat);
    let h2 = round53(part * whole);
    let whole2 = h2 / (PRODUCT_ONE as nat);
    let part2 = h2 % (PRODUCT_ONE as nat);
    whole2 * (REGISTER_ONE as nat) + part2 / 0x400_0000
}

/// The register after the characters of `seed`, taken in order.
pub open spec fn mash_fold(n: nat, seed: Seq<char>) -> nat
    decreases seed.len(),
{
    if seed.len() == 0 {
        n
    } else {
        mash_step(mash_fold(n, seed.drop_last()), seed.last())
    }
}

/// A step keeps the register below 2^53.
pub proof fn lemma_mash_step_bound(n: nat, c: char)
    requires
        n < REGISTER_LIMIT,
    ensures
        mash_step(n, c) < REGISTER_LIMIT,
{
    let exact = n + (c as nat) * (REGISTER_ONE as nat);
    let sum = round53(exact);
    crate::rounding::lemma_round53_close(exact);
    assert(sum < 0x40_0000_0000_0000);
    let product = (MULTIPLIER as nat) * sum;
    let h = round53(product);
    crate::rounding::lemma_round53_close(product);
    assert(h < 0x1000_0000_0000_0000_0000_0000_0000);
    let whole = h / (PRODUCT_ONE as nat);
    let part = h % (PRODUCT_ONE as nat);
    assert(whole < 0x4000_0000);
    assert(part * whole < 0x1000_0000_0000_0000_0000_0000_0000) by (nonlinear_arith)
        requires
            part < 0x4000_0000_0000_0000_0000,
            whole < 0x4000_0000,
    ;
    crate::rounding::lemma_round53_close(part * whole);
}

/// A step loses nothing: both whole parts fit in 32 bits, so no truncation
/// saturates; the last fractional part is a multiple of 2^-52, so it enters
/// the register in full; and the register has room for the sum, so the last
/// addition is exact.
pub proof fn lemma_mash_step_exact(n: nat, c: char)
    requires
        n < REGISTER_LIMIT,
    ensures
        ({
            let sum = round53(n + (c as nat) * (REGISTER_ONE as nat));
            let h = round53((MULTIPLIER as nat) * sum);
            let whole = h / (PRODUCT_ONE as nat);
            let part = h % (PRODUCT_ONE as nat);
            let h2 = round53(part * whole);
            let whole2 = h2 / (PRODUCT_ONE as nat);
            let part2 = h2 % (PRODUCT_ONE as nat);
            &&& whole < 0x1_0000_0000
            &&& whole2 < 0x1_0000_0000
            &&& part2 % 0x400_0000 == 0
            &&& mash_step(n, c) * 0x400_0000 == whole2 * 0x4000_0000_0000 + part2
            &&& mash_step(n, c) < REGISTER_LIMIT
        }),
{
    lemma_mash_step_bound(n, c);
    let exact = n + (c as nat) * (REGISTER_ONE as nat);
    let sum = round53(exact);
    crate::rounding::lemma_round53_close(exact);
    let product = (MULTIPLIER as nat) * sum;
    let h = round53(product);
    crate::rounding::lemma_round53_close(product);
    let whole = h / (PRODUCT_ONE as nat);
    let part = h % (PRODUCT_ONE as nat);
    lemma2_to64();
    lemma_pow2_adds(52, 26);
    lemma_pow2_adds(64, 14);
    assert(pow2(26) == 0x400_0000);
    assert(pow2(78) == PRODUCT_ONE) by {
        assert(pow2(14) == 0x4000);
        assert(pow2(64) * pow2(14) == 0x4000_0000_0000_0000_0000) by (nonlinear_arith)
            requires
                pow2(64) == 0x1_0000_0000_0000_0000,
                pow2(14) == 0x4000,
        ;
    }
    assert(part % 0x400_0000 == 0 || whole == 0) by {
        if whole > 0 {
            crate::rounding::lemma_round53_coarse(product, 26);
            assert(h % 0x400_0000 == 0);
        }
    }
    let squared = part * whole;
    assert(squared % 0x400_0000 == 0) by {
        if whole == 0 {
            assert(part * whole == 0) by (nonlinear_arith)
                requires
                    whole == 0,
            ;
        } else {
            let u = part / 0x400_0000;
            assert(part == 0x400_0000 * u);
            assert(part * whole == (u * whole) * 0x400_0000) by (nonlinear_arith)
                requires
                    part == 0x400_0000 * u,
            ;
            vstd::arithmetic::div_mod::lemma_mod_multiples_basic((u * whole) as int, 0x400_0000);
        }
    }
    assert(part * whole < 0x1000_0000_0000_0000_0000_0000_0000) by (nonlinear_arith)
        requires
            part < 0x4000_0000_0000_0000_0000,
            whole < 0x4000_0000,
    ;
    crate::rounding::lemma_round53_keeps_multiples(squared, 26);
    crate::rounding::lemma_round53_close(squared);
    let h2 = round53(squared);
    assert(h2 % 0x400_0000 == 0);
}

/// Folding keeps the register below 2^53.
pub proof fn lemma_mash_fold_bound(n: nat, seed: Seq<char>)
    requires
        n < REGISTER_LIMIT,
    ensures
        mash_fold(n, seed) < REGISTER_LIMIT,
    decreases seed.len(),
{
    if seed.len() > 0 {
        lemma_mash_fold_bound(n, seed.drop_last());
        lemma_mash_step_bound(mash_fold(n, seed.drop_last()), seed.last());
    }
}

/// The hash: a register that every character of every seed stirs.
#[derive(Debug, Clone, Copy, PartialEq, Eq, Structural)]
pub struct Mash {
    /// The register, in units of 2^-20.
    pub n: u64,
}

impl Mash {
    pub open spec fn wf(self) -> bool {
        self.n < REGISTER_LIMIT
    }

    pub fn new() -> (mash: Self)
        ensures
            mash.n == START,
            mash.wf(),
    {
        Self { n: START }
    }

    fn step(n: u64, c: char) -> (next: u64)
        requires
            n < REGISTER_LIMIT,
        ensures
            next == mash_step(n as nat, c),
            next < REGISTER_LIMIT,
    {
        proof {
            lemma_mash_step_exact(n as nat, c);
        }
        let code: u128 = c as u32 as u128;
        let sum = round_to_53_bits(n as u128 + code * REGISTER_ONE);
        let h = round_to_53_bits(MULTIPLIER * sum);
        let whole = h / PRODUCT_ONE;
        let part = h % PRODUCT_ONE;
        assert(part * whole < 0x1000_0000_0000_0000_0000_0000_0000) by (nonlinear_arith)
            requires
                part < 0x4000_0000_0000_0000_0000,
                whole < 0x4000_0000,
        ;
        let h2 = round_to_53_bits(part * whole);
        let whole2 = h2 / PRODUCT_ONE;
        let part2 = h2 % PRODUCT_ONE;
        (whole2 * REGISTER_ONE + part2 / 0x400_0000) as u64
    }

    /// Stirs `seed` into the register and returns the register times
    /// 2^-32, in units of 2^-52: the same integer under a smaller unit.
    pub fn stir(&mut self, seed: &str) -> (hash: u64)
        requires
            old(self).wf(),
        ensures
            final(self).wf(),
            final(self).n == mash_fold(old(self).n as nat, seed@),
            hash == final(self).n,
    {
        let mut n: u64 = self.n;
        for c in it: seed.chars()
            invariant
                it.seq() == seed@,
                n < REGISTER_LIMIT,
                n == mash_fold(old(self).n as nat, seed@.take(it.index() as int)),
        {
            proof {
                let done = seed@.take(it.index() as int);
                let more = seed@.take(it.index() + 1);
                assert(more.drop_last() =~= done);
                assert(more.last() == c);
            }
            n = Self::step(n, c);
        }
        assert(seed@.take(seed@.len() as int) =~= seed@);
        self.n = n;
        n
    }

    /// Stirs `seed` into the register and returns the register times 2^-32
    /// as a binary64 number.
    pub fn mash(&mut self, seed: &str) -> (hash: Binary64)
        requires
            old(self).wf(),
        ensures
            final(self).wf(),
            final(self).n == mash_fold(old(self).n as nat, seed@),
            hash == Binary64::spec_from_fixed(false, final(self).n, 52),
    {
        let n = self.stir(seed);
        Binary64::from_fixed(false, n, 52)
    }
}

} // verus!
