//! Binary64 floating-point data, held by their bit patterns.
use vstd::arithmetic::power2::*;
use vstd::prelude::*;

verus! {

/// The bit that holds the sign.
pub const SIGN_BIT: u64 = 0x8000_0000_0000_0000;

/// The bits of positive infinity: every number has a smaller magnitude,
/// every NaN a larger one.
pub const INFINITY_BITS: u64 = 0x7ff0_0000_0000_0000;

/// Two to the power 52: the weight of the implicit leading bit of a
/// significand.
pub const HIDDEN_BIT: u64 = 0x10_0000_0000_0000;

/// Two to the power 53: every significand lies below it.
pub const SIGNIFICAND_LIMIT: u64 = 0x20_0000_0000_0000;

/// A binary64 datum: one sign bit, eleven exponent bits, 52 fraction bits.
///
/// Equality is equality of bit patterns, so the two zeros differ and a NaN
/// equals itself. Numbers are compared with [`Binary64::lt`] and
/// [`Binary64::le`].
#[derive(Debug, Clone, Copy, PartialEq, Eq, Structural, Hash)]
pub struct Binary64 {
    pub bits: u64,
}

impl Binary64 {
    pub open spec fn sign_bit(self) -> bool {
        self.bits >= SIGN_BIT
    }

    /// The bit pattern without its sign.
    pub open spec fn magnitude(self) -> u64 {
        if self.bits >= SIGN_BIT {
            (self.bits - SIGN_BIT) as u64
        } else {
            self.bits
        }
    }

    pub open spec fn spec_is_nan(self) -> bool {
        self.magnitude() > INFINITY_BITS
    }

    pub open spec fn spec_is_finite(self) -> bool {
        self.magnitude() < INFINITY_BITS
    }

    /// The exponent field.
    pub open spec fn biased_exponent(self) -> int {
        self.magnitude() as int / HIDDEN_BIT as int
    }

    /// The fraction field.
    pub open spec fn fraction(self) -> int {
        self.magnitude() as int % HIDDEN_BIT as int
    }

    /// The integer significand of a finite datum. Together with
    /// [`Binary64::exponent`] it gives the magnitude of the number:
    /// `significand * 2^exponent`.
    pub open spec fn significand(self) -> int {
        if self.biased_exponent() == 0 {
            self.fraction()
        } else {
            HIDDEN_BIT as int + self.fraction()
        }
    }

    /// The power of two that scales the significand of a finite datum.
    pub open spec fn exponent(self) -> int {
        if self.biased_exponent() == 0 {
            -1074
        } else {
            self.biased_exponent() - 1075
        }
    }

    /// The magnitude of a finite datum in units of 2^-1074, the least
    /// magnitude that a datum can hold.
    pub open spec fn scaled_value(self) -> nat {
        (self.significand() * pow2((self.exponent() + 1074) as nat)) as nat
    }

    /// A key that orders every datum but NaN as its number: magnitudes grow
    /// with their bit patterns, and a set sign bit mirrors them below zero.
    /// Both zeros have key 0.
    pub open spec fn order_key(self) -> int {
        if self.sign_bit() {
            -(self.magnitude() as int)
        } else {
            self.magnitude() as int
        }
    }

    /// Numeric `<`: false as soon as one side is NaN.
    pub open spec fn spec_lt(self, other: Binary64) -> bool {
        !self.spec_is_nan() && !other.spec_is_nan() && self.order_key() < other.order_key()
    }

    /// Numeric `<=`: false as soon as one side is NaN.
    pub open spec fn spec_le(self, other: Binary64) -> bool {
        !self.spec_is_nan() && !other.spec_is_nan() && self.order_key() <= other.order_key()
    }

    /// The larger of two numbers; where one side is NaN, the other side.
    pub open spec fn spec_max(self, other: Binary64) -> Binary64 {
        if self.spec_is_nan() {
            other
        } else if other.spec_is_nan() {
            self
        } else if self.spec_lt(other) {
            other
        } else {
            self
        }
    }

    /// The smaller of two numbers; where one side is NaN, the other side.
    pub open spec fn spec_min(self, other: Binary64) -> Binary64 {
        if self.spec_is_nan() {
            other
        } else if other.spec_is_nan() {
            self
        } else if other.spec_lt(self) {
            other
        } else {
            self
        }
    }

    /// The datum moved into `[lo, hi]`; a NaN stays as it is.
    pub open spec fn spec_clamp(self, lo: Binary64, hi: Binary64) -> Binary64 {
        if self.spec_lt(lo) {
            lo
        } else if hi.spec_lt(self) {
            hi
        } else {
            self
        }
    }

    /// The datum that holds `num * 2^-frac_bits`, negated where `negative`
    /// is set: its significand is `num` with its leading bit moved up to
    /// bit 52, and its exponent makes up for the move.
    pub open spec fn spec_from_fixed(negative: bool, num: u64, frac_bits: u32) -> Binary64 {
        let magnitude = if num == 0 {
            0
        } else {
            let d = doublings(num as nat);
            (1075 - frac_bits - d) * HIDDEN_BIT + (num * pow2(d) - HIDDEN_BIT)
        };
        Binary64 {
            bits: if negative {
                (SIGN_BIT + magnitude) as u64
            } else {
                magnitude as u64
            },
        }
    }

    pub fn from_bits(bits: u64) -> (x: Binary64)
        ensures
            x.bits == bits,
    {
        Binary64 { bits }
    }

    pub fn to_bits(self) -> (bits: u64)
        ensures
            bits == self.bits,
    {
        self.bits
    }

    /// The number 0.
    pub fn zero() -> (x: Binary64)
        ensures
            x.bits == 0,
    {
        Binary64 { bits: 0 }
    }

    /// The number 1.
    pub fn one() -> (x: Binary64)
        ensures
            x.bits == 0x3ff0_0000_0000_0000,
            x.significand() == HIDDEN_BIT,
            x.exponent() == -52,
    {
        Binary64 { bits: 0x3ff0_0000_0000_0000 }
    }

    /// The number 10.
    pub fn ten() -> (x: Binary64)
        ensures
            x.bits == 0x4024_0000_0000_0000,
            x.significand() == 5 * (HIDDEN_BIT / 4),
            x.exponent() == -49,
    {
        Binary64 { bits: 0x4024_0000_0000_0000 }
    }

    /// The binary64 number nearest to one tenth.
    pub fn tenth() -> (x: Binary64)
        ensures
            x.bits == 0x3fb9_9999_9999_999a,
            x.exponent() == -56,
    {
        Binary64 { bits: 0x3fb9_9999_9999_999a }
    }

    /// The binary64 datum for `num * 2^-frac_bits`, negated where
    /// `negative` is set.
    pub fn from_fixed(negative: bool, num: u64, frac_bits: u32) -> (x: Binary64)
        requires
            num < SIGNIFICAND_LIMIT,
            frac_bits <= 1022,
        ensures
            x == Binary64::spec_from_fixed(negative, num, frac_bits),
            x.sign_bit() == negative,
            x.spec_is_finite(),
            num == 0 ==> x.magnitude() == 0,
            x.scaled_value() == num * pow2((1074 - frac_bits) as nat),
    {
        proof {
            lemma_from_fixed_value(negative, num, frac_bits);
            lemma_from_fixed_exact(negative, num, frac_bits);
        }
        let mut magnitude: u64 = 0;
        if num > 0 {
            let mut m: u64 = num;
            let mut d: u32 = 0;
            proof {
                lemma2_to64();
                lemma_doublings(num as nat);
                assert(num * pow2(0) == num) by (nonlinear_arith)
                    requires
                        pow2(0) == 1,
                ;
            }
            while m < HIDDEN_BIT
                invariant
                    0 < num < SIGNIFICAND_LIMIT,
                    0 < m < SIGNIFICAND_LIMIT,
                    m == num * pow2(d as nat),
                    doublings(num as nat) == d + doublings(m as nat),
                    doublings(num as nat) <= 52,
                decreases
                    (if m < 0x10_0000_0000_0000 {
                        0x10_0000_0000_0000 - m
                    } else {
                        0
                    }),
            {
                proof {
                    lemma_pow2_unfold((d + 1) as nat);
                    assert(num * pow2((d + 1) as nat) == 2 * (num * pow2(d as nat)))
                        by (nonlinear_arith)
                        requires
                            pow2((d + 1) as nat) == 2 * pow2(d as nat),
                    ;
                }
                m = 2 * m;
                d = d + 1;
            }
            let field: u64 = (1075 - frac_bits - d) as u64;
            assert(field * HIDDEN_BIT <= 1075 * HIDDEN_BIT) by (nonlinear_arith)
                requires
                    field <= 1075,
            ;
            magnitude = field * HIDDEN_BIT + (m - HIDDEN_BIT);
        }
        if negative {
            Binary64 { bits: SIGN_BIT + magnitude }
        } else {
            Binary64 { bits: magnitude }
        }
    }

    fn magnitude_bits(self) -> (m: u64)
        ensures
            m == self.magnitude(),
    {
        if self.bits >= SIGN_BIT {
            self.bits - SIGN_BIT
        } else {
            self.bits
        }
    }

    fn key(self) -> (k: i128)
        ensures
            k == self.order_key(),
    {
        let m = self.magnitude_bits();
        if self.bits >= SIGN_BIT {
            -(m as i128)
        } else {
            m as i128
        }
    }

    #[verifier::when_used_as_spec(spec_is_nan)]
    pub fn is_nan(self) -> (b: bool)
        ensures
            b == self.spec_is_nan(),
    {
        self.magnitude_bits() > INFINITY_BITS
    }

    #[verifier::when_used_as_spec(spec_is_finite)]
    pub fn is_finite(self) -> (b: bool)
        ensures
            b == self.spec_is_finite(),
    {
        self.magnitude_bits() < INFINITY_BITS
    }

    #[verifier::when_used_as_spec(spec_lt)]
    pub fn lt(self, other: Binary64) -> (b: bool)
        ensures
            b == self.spec_lt(other),
    {
        !self.is_nan() && !other.is_nan() && self.key() < other.key()
    }

    #[verifier::when_used_as_spec(spec_le)]
    pub fn le(self, other: Binary64) -> (b: bool)
        ensures
            b == self.spec_le(other),
    {
        !self.is_nan() && !other.is_nan() && self.key() <= other.key()
    }

    #[verifier::when_used_as_spec(spec_max)]
    pub fn max(self, other: Binary64) -> (m: Binary64)
        ensures
            m == self.spec_max(other),
    {
        if self.is_nan() {
            other
        } else if other.is_nan() {
            self
        } else if self.lt(other) {
            other
        } else {
            self
        }
    }

    #[verifier::when_used_as_spec(spec_min)]
    pub fn min(self, other: Binary64) -> (m: Binary64)
        ensures
            m == self.spec_min(other),
    {
        if self.is_nan() {
            other
        } else if other.is_nan() {
            self
        } else if other.lt(self) {
            other
        } else {
            self
        }
    }

    #[verifier::when_used_as_spec(spec_clamp)]
    pub fn clamp(self, lo: Binary64, hi: Binary64) -> (c: Binary64)
        requires
            lo.spec_le(hi),
        ensures
            c == self.spec_clamp(lo, hi),
    {
        if self.lt(lo) {
            lo
        } else if hi.lt(self) {
            hi
        } else {
            self
        }
    }
}

/// How often a significand below 2^52 must be doubled to reach 2^52.
pub open spec fn doublings(num: nat) -> nat
    decreases
        (if num < 0x10_0000_0000_0000 {
            0x10_0000_0000_0000 - num
        } else {
            0
        }),
{
    if num == 0 || num >= HIDDEN_BIT {
        0
    } else {
        1 + doublings(2 * num)
    }
}

/// Doubling a positive significand as often as `doublings` says brings it
/// into `[2^52, 2^53)`, and takes at most 52 doublings.
pub proof fn lemma_doublings(num: nat)
    requires
        0 < num < SIGNIFICAND_LIMIT,
    ensures
        doublings(num) <= 52,
        HIDDEN_BIT <= num * pow2(doublings(num)) < SIGNIFICAND_LIMIT,
        num * pow2(doublings(num)) >= num,
    decreases
        (if num < 0x10_0000_0000_0000 {
            0x10_0000_0000_0000 - num
        } else {
            0
        }),
{
    lemma2_to64();
    if num < HIDDEN_BIT {
        let d = doublings(2 * num);
        lemma_doublings(2 * num);
        lemma_pow2_unfold(d + 1);
        assert(num * pow2(d + 1) == (2 * num) * pow2(d)) by (nonlinear_arith)
            requires
                pow2(d + 1) == 2 * pow2(d),
        ;
        if d == 52 {
            lemma2_to64_rest();
            assert((2 * num) * pow2(52) >= 2 * pow2(52)) by (nonlinear_arith)
                requires
                    num >= 1,
            ;
        }
    } else {
        assert(num * pow2(0) == num) by (nonlinear_arith)
            requires
                pow2(0) == 1,
        ;
    }
}

/// `from_fixed` encodes the number it was given: a positive `num` becomes a
/// normal datum whose significand is `num` times a power of two, and whose
/// exponent is `-frac_bits` less the power.
pub proof fn lemma_from_fixed_value(negative: bool, num: u64, frac_bits: u32)
    requires
        num < SIGNIFICAND_LIMIT,
        frac_bits <= 1022,
    ensures
        ({
            let x = Binary64::spec_from_fixed(negative, num, frac_bits);
            let d = doublings(num as nat);
            &&& x.sign_bit() == negative
            &&& x.spec_is_finite()
            &&& num == 0 ==> x.magnitude() == 0
            &&& num > 0 ==> x.significand() == num * pow2(d) && x.exponent() == -frac_bits - d
        }),
{
    if num > 0 {
        lemma_doublings(num as nat);
        let d = doublings(num as nat);
        let m = num * pow2(d);
        let field = 1075 - frac_bits - d;
        let magnitude = field * HIDDEN_BIT + (m - HIDDEN_BIT);
        assert(1 <= field <= 1075);
        assert(field * HIDDEN_BIT <= 1075 * HIDDEN_BIT) by (nonlinear_arith)
            requires
                field <= 1075,
        ;
        assert(field * HIDDEN_BIT >= HIDDEN_BIT) by (nonlinear_arith)
            requires
                field >= 1,
        ;
        vstd::arithmetic::div_mod::lemma_fundamental_div_mod_converse(
            magnitude,
            HIDDEN_BIT as int,
            field,
            m - HIDDEN_BIT,
        );
    }
}

/// Bit patterns order magnitudes as numbers: of two data that are not NaN,
/// the one with the smaller magnitude bits holds the smaller magnitude.
/// Infinity comes after every finite datum.
pub proof fn lemma_magnitudes_order_values(a: Binary64, b: Binary64)
    requires
        a.spec_is_finite(),
        b.spec_is_finite(),
    ensures
        a.magnitude() < b.magnitude() <==> a.scaled_value() < b.scaled_value(),
        a.magnitude() == b.magnitude() <==> a.scaled_value() == b.scaled_value(),
{
    lemma_scaled_value_bounds(a);
    lemma_scaled_value_bounds(b);
    let ea = a.biased_exponent();
    let eb = b.biased_exponent();
    if ea < eb {
        lemma_half_open_orders(a, b);
    } else if eb < ea {
        lemma_half_open_orders(b, a);
    } else {
        let p = pow2((a.exponent() + 1074) as nat);
        lemma_pow2_pos((a.exponent() + 1074) as nat);
        let sa = a.significand();
        let sb = b.significand();
        assert(sa < sb ==> sa * p < sb * p) by (nonlinear_arith)
            requires
                p > 0,
        ;
        assert(sb < sa ==> sb * p < sa * p) by (nonlinear_arith)
            requires
                p > 0,
        ;
    }
}

/// A datum with exponent field `e >= 1` holds a magnitude from
/// `2^52 * 2^(e-1)` up to, but not including, twice that; one with exponent
/// field 0 holds a magnitude below `2^52`.
pub proof fn lemma_scaled_value_bounds(x: Binary64)
    requires
        x.spec_is_finite(),
    ensures
        0 <= x.biased_exponent() <= 2046,
        0 <= x.fraction() < HIDDEN_BIT,
        x.magnitude() == x.biased_exponent() * HIDDEN_BIT + x.fraction(),
        x.biased_exponent() == 0 ==> x.scaled_value() == x.fraction(),
        x.biased_exponent() >= 1 ==> HIDDEN_BIT * pow2((x.biased_exponent() - 1) as nat)
            <= x.scaled_value() < 2 * HIDDEN_BIT * pow2((x.biased_exponent() - 1) as nat),
{
    lemma2_to64();
    let e = x.biased_exponent();
    let f = x.fraction();
    if e == 0 {
        assert(f * pow2(0) == f) by (nonlinear_arith)
            requires
                pow2(0) == 1,
        ;
    } else {
        let p = pow2((e - 1) as nat);
        lemma_pow2_pos((e - 1) as nat);
        assert((HIDDEN_BIT + f) * p >= HIDDEN_BIT * p) by (nonlinear_arith)
            requires
                f >= 0,
                p > 0,
        ;
        assert((HIDDEN_BIT + f) * p < 2 * HIDDEN_BIT * p) by (nonlinear_arith)
            requires
                f < HIDDEN_BIT,
                p > 0,
        ;
    }
}

/// A datum with a smaller exponent field has the smaller bits and holds
/// the smaller magnitude.
proof fn lemma_half_open_orders(a: Binary64, b: Binary64)
    requires
        a.spec_is_finite(),
        b.spec_is_finite(),
        a.biased_exponent() < b.biased_exponent(),
    ensures
        a.magnitude() < b.magnitude(),
        a.scaled_value() < b.scaled_value(),
{
    lemma_scaled_value_bounds(a);
    lemma_scaled_value_bounds(b);
    lemma2_to64();
    let ea = a.biased_exponent();
    let eb = b.biased_exponent();
    let pb = pow2((eb - 1) as nat);
    lemma_pow2_pos((eb - 1) as nat);
    assert(a.magnitude() < b.magnitude()) by (nonlinear_arith)
        requires
            a.magnitude() == ea * HIDDEN_BIT + a.fraction(),
            b.magnitude() == eb * HIDDEN_BIT + b.fraction(),
            a.fraction() < HIDDEN_BIT,
            b.fraction() >= 0,
            ea < eb,
    ;
    if ea == 0 {
        assert(HIDDEN_BIT * pb >= HIDDEN_BIT) by (nonlinear_arith)
            requires
                pb >= 1,
        ;
    } else {
        let pa = pow2((ea - 1) as nat);
        lemma_pow2_unfold(ea as nat);
        if ea < eb - 1 {
            lemma_pow2_strictly_increases(ea as nat, (eb - 1) as nat);
        }
        assert(2 * HIDDEN_BIT * pa <= HIDDEN_BIT * pb) by (nonlinear_arith)
            requires
                2 * pa <= pb,
        ;
    }
}

/// `from_fixed` holds the number it was given: in units of 2^-1074 its
/// magnitude is `num * 2^(1074 - frac_bits)`.
pub proof fn lemma_from_fixed_exact(negative: bool, num: u64, frac_bits: u32)
    requires
        num < SIGNIFICAND_LIMIT,
        frac_bits <= 1022,
    ensures
        Binary64::spec_from_fixed(negative, num, frac_bits).scaled_value() == num * pow2(
            (1074 - frac_bits) as nat,
        ),
{
    lemma_from_fixed_value(negative, num, frac_bits);
    let x = Binary64::spec_from_fixed(negative, num, frac_bits);
    if num > 0 {
        let d = doublings(num as nat);
        lemma_doublings(num as nat);
        let rest = (1074 - frac_bits - d) as nat;
        lemma_pow2_adds(d, rest);
        assert((num * pow2(d)) * pow2(rest) == num * (pow2(d) * pow2(rest))) by (nonlinear_arith);
    } else {
        lemma_scaled_value_bounds(x);
        assert(x.magnitude() == 0);
        assert(x.biased_exponent() == 0 && x.fraction() == 0);
        assert(0 * pow2((1074 - frac_bits) as nat) == 0) by (nonlinear_arith);
    }
}

/// A number that is clamped into `[lo, hi]` lies in `[lo, hi]`; a number
/// raised to at least `floor` is at least `floor`, even where it started as
/// NaN.
pub proof fn lemma_clamp_bounds(x: Binary64, lo: Binary64, hi: Binary64, floor: Binary64)
    requires
        lo.spec_le(hi),
        !floor.spec_is_nan(),
    ensures
        !x.spec_is_nan() ==> lo.spec_le(x.spec_clamp(lo, hi)) && x.spec_clamp(lo, hi).spec_le(hi),
        x.spec_is_nan() ==> x.spec_clamp(lo, hi) == x,
        floor.spec_le(x.spec_max(floor)),
{
}

} // verus!
