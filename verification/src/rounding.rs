//! Rounding to 53 significant bits, as binary64 arithmetic rounds.
//!
//! A binary64 significand has 53 bits. Where an exact result needs more,
//! the bits beyond the 53rd are dropped and the rest is rounded to the
//! nearest neighbour, a tie going to the even one. The numbers here are
//! integers that count a fixed power of two; the power does not matter to
//! the rounding, only the number of significant bits does.
use vstd::arithmetic::div_mod::*;
use vstd::arithmetic::power2::*;
use vstd::prelude::*;

verus! {

/// Two to the power 53.
pub const LIMIT: u128 = 0x20_0000_0000_0000;

/// The number of low bits that `x` has beyond its 53 most significant ones.
pub open spec fn excess_bits(x: nat) -> nat
    decreases x,
{
    if x < LIMIT {
        0
    } else {
        1 + excess_bits(x / 2)
    }
}

/// `x` divided by `2^k` and rounded to the nearest integer, a tie to the
/// even one.
pub open spec fn round_half_even(x: nat, k: nat) -> nat {
    let unit = pow2(k);
    let quotient = x / unit;
    let rest = x % unit;
    if 2 * rest > unit || (2 * rest == unit && quotient % 2 == 1) {
        quotient + 1
    } else {
        quotient
    }
}

/// The number with at most 53 significant bits that is nearest to `x`, a
/// tie going to the one whose 53rd bit is 0.
pub open spec fn round53(x: nat) -> nat {
    round_half_even(x, excess_bits(x)) * pow2(excess_bits(x))
}

/// Rounding away from zero mirrors rounding toward it.
pub open spec fn round53_signed(x: int) -> int {
    if x >= 0 {
        round53(x as nat) as int
    } else {
        -(round53((-x) as nat) as int)
    }
}

/// What remains of `x` without its excess bits is below 2^53, and with one
/// excess bit more it would not be.
pub proof fn lemma_excess_bits(x: nat)
    ensures
        x / pow2(excess_bits(x)) < LIMIT,
        excess_bits(x) > 0 ==> x / pow2((excess_bits(x) - 1) as nat) >= LIMIT,
    decreases x,
{
    lemma2_to64();
    if x >= LIMIT {
        let half = x / 2;
        let k = excess_bits(half);
        lemma_excess_bits(half);
        lemma_pow2_pos(k);
        lemma_pow2_unfold(k + 1);
        lemma_div_denominator(x as int, 2, pow2(k) as int);
        assert(excess_bits(x) == k + 1);
        assert(pow2(k + 1) == 2 * pow2(k));
        assert(x / pow2(k + 1) == half / pow2(k));
        if k > 0 {
            let j = (k - 1) as nat;
            lemma_pow2_pos(j);
            lemma_pow2_unfold(k);
            lemma_div_denominator(x as int, 2, pow2(j) as int);
            assert(pow2(k) == 2 * pow2(j));
            assert(x / pow2(k) == half / pow2(j));
        } else {
            assert(x as int / 1 == x);
        }
    } else {
        assert(x as int / 1 == x);
    }
}

/// Rounding moves a number by no more than the 2^-53 part of it, and leaves
/// a number below 2^53 as it is.
pub proof fn lemma_round53_close(x: nat)
    ensures
        round53(x) <= x + x / (LIMIT as nat),
        x <= round53(x) + x / (LIMIT as nat),
        x < LIMIT ==> round53(x) == x,
{
    let k = excess_bits(x);
    let unit = pow2(k);
    lemma_excess_bits(x);
    lemma_pow2_pos(k);
    lemma2_to64();
    let quotient = x / unit;
    let rest = x % unit;
    lemma_fundamental_div_mod(x as int, unit as int);
    assert(x == unit * quotient + rest);
    if k == 0 {
        assert(unit == 1);
        assert(x as int / 1 == x && x as int % 1 == 0);
        assert(round_half_even(x, k) == x);
        assert(round53(x) == x * 1);
    } else {
        let half = pow2((k - 1) as nat);
        lemma_pow2_pos((k - 1) as nat);
        lemma_pow2_unfold(k);
        assert(unit == 2 * half);
        assert(x / (LIMIT as nat) >= half) by (nonlinear_arith)
            requires
                x / half >= LIMIT,
                half > 0,
        ;
        assert((quotient + 1) * unit == unit * quotient + unit) by (nonlinear_arith);
        assert(quotient * unit == unit * quotient) by (nonlinear_arith);
    }
}

/// Rounding keeps a number on every grid of multiples of a power of two
/// that it lies on.
pub proof fn lemma_round53_keeps_multiples(x: nat, j: nat)
    requires
        x % pow2(j) == 0,
    ensures
        round53(x) % pow2(j) == 0,
{
    let k = excess_bits(x);
    let unit = pow2(k);
    lemma_pow2_pos(k);
    lemma_pow2_pos(j);
    let rounded = round_half_even(x, k);
    if k >= j {
        let d = (k - j) as nat;
        lemma_pow2_adds(j, d);
        lemma_pow2_pos(d);
        assert(rounded * unit == (rounded * pow2(d)) * pow2(j)) by (nonlinear_arith)
            requires
                unit == pow2(j) * pow2(d),
        ;
        lemma_mod_multiples_basic((rounded * pow2(d)) as int, pow2(j) as int);
    } else {
        let d = (j - k) as nat;
        lemma_pow2_adds(k, d);
        lemma_pow2_pos(d);
        let m = x / pow2(j);
        lemma_fundamental_div_mod(x as int, pow2(j) as int);
        assert(x == (m * pow2(d)) * unit + 0) by (nonlinear_arith)
            requires
                x == pow2(j) * m,
                pow2(j) == unit * pow2(d),
        ;
        lemma_fundamental_div_mod_converse(x as int, unit as int, (m * pow2(d)) as int, 0);
        assert(rounded == m * pow2(d));
        assert(round53(x) == x);
    }
}

/// A rounded number has at most 53 significant bits: from `2^(52+j)` on it
/// is a multiple of `2^j`.
pub proof fn lemma_round53_coarse(x: nat, j: nat)
    requires
        round53(x) >= pow2(52 + j),
    ensures
        round53(x) % pow2(j) == 0,
{
    let k = excess_bits(x);
    let unit = pow2(k);
    lemma_pow2_pos(k);
    lemma_pow2_pos(j);
    lemma2_to64();
    lemma2_to64_rest();
    lemma_excess_bits(x);
    let rounded = round_half_even(x, k);
    assert(rounded <= LIMIT);
    if k >= j {
        let d = (k - j) as nat;
        lemma_pow2_adds(j, d);
        lemma_pow2_pos(d);
        assert(rounded * unit == (rounded * pow2(d)) * pow2(j)) by (nonlinear_arith)
            requires
                unit == pow2(j) * pow2(d),
        ;
        lemma_mod_multiples_basic((rounded * pow2(d)) as int, pow2(j) as int);
    } else {
        let d = (j - k) as nat;
        lemma_pow2_adds(k, d);
        lemma_pow2_adds(52, j);
        lemma_pow2_pos(d);
        lemma_pow2_unfold(d);
        lemma_pow2_pos((d - 1) as nat);
        let half = pow2((d - 1) as nat);
        // rounded * unit >= 2^52 * unit * 2^d, with 2^d = 2 * half >= 2
        assert(rounded >= LIMIT * half) by (nonlinear_arith)
            requires
                rounded * unit >= pow2(52) * (unit * pow2(d)),
                pow2(52) == 0x10_0000_0000_0000,
                pow2(d) == 2 * half,
                LIMIT == 0x20_0000_0000_0000,
                unit >= 1,
        ;
        assert(half == 1 && rounded == LIMIT) by (nonlinear_arith)
            requires
                rounded >= LIMIT * half,
                rounded <= LIMIT,
                half >= 1,
                LIMIT == 0x20_0000_0000_0000,
        ;
        assert(rounded * unit == pow2(52) * pow2(j)) by (nonlinear_arith)
            requires
                rounded == 0x20_0000_0000_0000,
                pow2(52) == 0x10_0000_0000_0000,
                pow2(j) == unit * pow2(d),
                pow2(d) == 2,
        ;
        lemma_mod_multiples_basic(pow2(52) as int, pow2(j) as int);
    }
}

/// Rounds `x` to 53 significant bits.
pub fn round_to_53_bits(x: u128) -> (rounded: u128)
    requires
        x < 0x100_0000_0000_0000_0000_0000_0000_0000,
    ensures
        rounded == round53(x as nat),
        rounded <= x + x / LIMIT,
        x <= rounded + x / LIMIT,
        x < LIMIT ==> rounded == x,
{
    let mut unit: u128 = 1;
    let ghost mut k: nat = 0;
    proof {
        lemma2_to64();
    }
    while x / unit >= LIMIT
        invariant
            unit == pow2(k),
            unit >= 1,
            k == 0 ==> unit == 1,
            k > 0 ==> unit * LIMIT <= 2 * x,
            x < 0x100_0000_0000_0000_0000_0000_0000_0000,
            excess_bits(x as nat) == k + excess_bits((x / unit) as nat),
        decreases x / unit,
    {
        proof {
            let xi = x as int;
            let ui = unit as int;
            let limit = LIMIT as int;
            assert(ui * limit <= xi) by (nonlinear_arith)
                requires
                    xi / ui >= limit,
                    ui >= 1,
            ;
            lemma_pow2_unfold(k + 1);
            lemma_div_denominator(xi, ui, 2);
            assert(xi / (ui * 2) >= limit / 2);
            assert(2 * ui * limit <= 2 * xi);
            assert(xi / (ui * 2) < xi / ui);
            k = k + 1;
        }
        unit = unit * 2;
    }
    let quotient = x / unit;
    let rest = x % unit;
    proof {
        lemma_fundamental_div_mod(x as int, unit as int);
        assert(quotient * unit <= x) by (nonlinear_arith)
            requires
                x == unit * quotient + rest,
                rest >= 0,
        ;
        assert((quotient + 1) * unit == quotient * unit + unit) by (nonlinear_arith);
        lemma_round53_close(x as nat);
    }
    if 2 * rest > unit || (2 * rest == unit && quotient % 2 == 1) {
        (quotient + 1) * unit
    } else {
        quotient * unit
    }
}

/// Rounds `x` to 53 significant bits, whatever its sign.
pub fn round_to_53_bits_signed(x: i128) -> (rounded: i128)
    requires
        -0x100_0000_0000_0000_0000_0000_0000_0000 < x < 0x100_0000_0000_0000_0000_0000_0000_0000,
    ensures
        rounded == round53_signed(x as int),
        x >= 0 ==> 0 <= rounded <= x + (x as int) / (LIMIT as int),
        x < 0 ==> 0 <= -rounded <= (-x) + (-x as int) / (LIMIT as int),
{
    if x >= 0 {
        round_to_53_bits(x as u128) as i128
    } else {
        let magnitude = round_to_53_bits((-x) as u128);
        -(magnitude as i128)
    }
}

} // verus!
