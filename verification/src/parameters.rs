//! The configuration of a scheduler, and the intervals it allows.
use vstd::arithmetic::power2::*;
use vstd::prelude::*;
use crate::binary64::Binary64;
use crate::fuzz_range::max_int;
use crate::fuzz_range::min_int;
use crate::fuzz_range::FuzzRange;
use crate::models::rating::Rating;
use crate::prng::Prng;

verus! {

/// The nineteen weights of the memory model, in their fixed order.
pub type Weights = [Binary64; 19];

/// The bit patterns of the published default weights:
/// 0.4072, 1.1829, 3.1262, 15.4722, 7.2102, 0.5316, 1.0651, 0.0234, 1.616,
/// 0.1544, 1.0824, 1.9813, 0.0953, 0.2975, 2.2042, 0.2407, 2.9466, 0.5034,
/// 0.6567.
pub const WEIGHTS: [u64; 19] = [
    0x3fda_0f90_96bb_98c8,
    0x3ff2_ed28_8ce7_03b0,
    0x4009_0275_2546_0aa6,
    0x402e_f1c4_32ca_57a8,
    0x401c_d73e_ab36_7a10,
    0x3fe1_02de_00d1_b717,
    0x3ff1_0aa6_4c2f_837b,
    0x3f97_f62b_6ae7_d567,
    0x3ff9_db22_d0e5_6042,
    0x3fc3_c361_1340_4ea5,
    0x3ff1_5182_a993_0be1,
    0x3fff_b367_a0f9_096c,
    0x3fb8_6594_af4f_0d84,
    0x3fd3_0a3d_70a3_d70a,
    0x4001_a233_9c0e_bee0,
    0x3fce_cf41_f212_d773,
    0x4007_92a3_0553_2618,
    0x3fe0_1bda_5119_ce07,
    0x3fe5_03af_b7e9_0ff9,
];

/// The bits of -0.5, the exponent of the forgetting curve.
pub const DECAY: u64 = 0xbfe0_0000_0000_0000;

/// The bits of 19/81, the factor of the forgetting curve.
pub const FACTOR: u64 = 0x3fce_0652_2c3f_35ba;

/// The bits of 0.9, the retention that is requested by default.
pub const REQUEST_RETENTION: u64 = 0x3fec_cccc_cccc_cccd;

/// The longest interval that is allowed by default, in days.
pub const MAXIMUM_INTERVAL: i32 = 36500;

/// The bits of 0.1, below which no stability is kept.
pub const STABILITY_FLOOR: u64 = 0x3fb9_9999_9999_999a;

/// The bits of 1, the least difficulty.
pub const DIFFICULTY_MIN: u64 = 0x3ff0_0000_0000_0000;

/// The bits of 10, the greatest difficulty.
pub const DIFFICULTY_MAX: u64 = 0x4024_0000_0000_0000;

/// A difficulty as a card keeps it: moved into `[1, 10]`.
pub open spec fn clamp_difficulty(difficulty: Binary64) -> Binary64 {
    difficulty.spec_clamp(Binary64 { bits: DIFFICULTY_MIN }, Binary64 { bits: DIFFICULTY_MAX })
}

/// A stability as a card keeps it: raised to at least 0.1.
pub open spec fn floor_stability(stability: Binary64) -> Binary64 {
    stability.spec_max(Binary64 { bits: STABILITY_FLOOR })
}

/// What a card keeps lies where it should, as numbers go. A kept
/// difficulty is a number from 1 to 10, unless the difficulty was NaN; a
/// kept stability is positive, and at least a tenth unless it is infinite.
/// Magnitudes are compared in units of 2^-1074, in which 1 is `2^1074`.
pub proof fn lemma_kept_memory_is_in_range(difficulty: Binary64, stability: Binary64)
    ensures
        ({
            let d = clamp_difficulty(difficulty);
            &&& difficulty.spec_is_nan() ==> d == difficulty
            &&& !difficulty.spec_is_nan() ==> !d.sign_bit() && d.spec_is_finite() && pow2(1074)
                <= d.scaled_value() <= 10 * pow2(1074)
        }),
        ({
            let s = floor_stability(stability);
            &&& !s.spec_is_nan()
            &&& !s.sign_bit()
            &&& s.spec_is_finite() ==> 10 * s.scaled_value() >= pow2(1074)
        }),
{
    let one = Binary64 { bits: DIFFICULTY_MIN };
    let ten = Binary64 { bits: DIFFICULTY_MAX };
    let tenth = Binary64 { bits: STABILITY_FLOOR };
    assert(one.significand() == 0x10_0000_0000_0000 && one.exponent() == -52);
    assert(ten.significand() == 0x14_0000_0000_0000 && ten.exponent() == -49);
    assert(tenth.significand() == 0x19_9999_9999_999a && tenth.exponent() == -56);
    lemma2_to64();
    lemma2_to64_rest();
    lemma_pow2_adds(52, 1022);
    lemma_pow2_adds(3, 1022);
    lemma_pow2_adds(50, 1025);
    lemma_pow2_adds(56, 1018);
    let unit = pow2(1074);
    assert(one.scaled_value() == unit);
    assert(ten.scaled_value() == 10 * unit) by {
        assert(pow2(1025) == 8 * pow2(1022));
        assert(unit == 0x10_0000_0000_0000 * pow2(1022));
        assert(0x14_0000_0000_0000 * pow2(1025) == 10 * (0x10_0000_0000_0000 * pow2(1022)))
            by (nonlinear_arith)
            requires
                pow2(1025) == 8 * pow2(1022),
        ;
    }
    assert(10 * tenth.scaled_value() >= unit) by {
        assert(unit == 0x100_0000_0000_0000 * pow2(1018));
        assert(10 * (0x19_9999_9999_999a * pow2(1018)) >= 0x100_0000_0000_0000 * pow2(1018))
            by (nonlinear_arith);
    }
    let d = clamp_difficulty(difficulty);
    if !difficulty.spec_is_nan() {
        crate::binary64::lemma_magnitudes_order_values(one, d);
        crate::binary64::lemma_magnitudes_order_values(d, ten);
    }
    let s = floor_stability(stability);
    if s.spec_is_finite() {
        crate::binary64::lemma_magnitudes_order_values(tenth, s);
    }
}

/// The difficulty that a card keeps for `difficulty`.
pub fn clamped_difficulty(difficulty: Binary64) -> (kept: Binary64)
    ensures
        kept == clamp_difficulty(difficulty),
{
    difficulty.clamp(Binary64::one(), Binary64::ten())
}

/// The stability that a card keeps for `stability`.
pub fn floored_stability(stability: Binary64) -> (kept: Binary64)
    ensures
        kept == floor_stability(stability),
{
    stability.max(Binary64::tenth())
}

/// The default weights.
pub fn default_weights() -> (w: Weights)
    ensures
        w@ == Parameters::spec_default_weights(),
{
    let w = [
        Binary64 { bits: WEIGHTS[0] },
        Binary64 { bits: WEIGHTS[1] },
        Binary64 { bits: WEIGHTS[2] },
        Binary64 { bits: WEIGHTS[3] },
        Binary64 { bits: WEIGHTS[4] },
        Binary64 { bits: WEIGHTS[5] },
        Binary64 { bits: WEIGHTS[6] },
        Binary64 { bits: WEIGHTS[7] },
        Binary64 { bits: WEIGHTS[8] },
        Binary64 { bits: WEIGHTS[9] },
        Binary64 { bits: WEIGHTS[10] },
        Binary64 { bits: WEIGHTS[11] },
        Binary64 { bits: WEIGHTS[12] },
        Binary64 { bits: WEIGHTS[13] },
        Binary64 { bits: WEIGHTS[14] },
        Binary64 { bits: WEIGHTS[15] },
        Binary64 { bits: WEIGHTS[16] },
        Binary64 { bits: WEIGHTS[17] },
        Binary64 { bits: WEIGHTS[18] },
    ];
    assert(w@ =~= Parameters::spec_default_weights());
    w
}

/// What a scheduler is configured with.
#[derive(Debug, PartialEq)]
pub struct Parameters {
    /// The weights of the memory model.
    pub w: Weights,
    /// The chance of recall at which a card should come up again.
    pub request_retention: Binary64,
    /// The longest interval, in days.
    pub maximum_interval: i32,
    /// The exponent of the forgetting curve.
    pub decay: Binary64,
    /// The factor of the forgetting curve.
    pub factor: Binary64,
    /// Whether cards pass through steps of minutes before their intervals
    /// are counted in days.
    pub enable_short_term: bool,
    /// Whether intervals are moved at random within their range.
    pub enable_fuzz: bool,
    /// What the random moves are drawn from.
    pub seed: String,
}

impl Parameters {
    pub open spec fn spec_default_weights() -> Seq<Binary64> {
        Seq::new(19, |i: int| Binary64 { bits: WEIGHTS[i] })
    }

    /// The published defaults: the default weights, a retention of 0.9, at
    /// most 36500 days, learning steps, no fuzzing, and the seed `"RNG"`.
    pub open spec fn is_default(self) -> bool {
        &&& self.w@ == Self::spec_default_weights()
        &&& self.request_retention.bits == REQUEST_RETENTION
        &&& self.maximum_interval == MAXIMUM_INTERVAL
        &&& self.decay.bits == DECAY
        &&& self.factor.bits == FACTOR
        &&& self.enable_short_term
        &&& !self.enable_fuzz
        &&& self.seed@ == "RNG"@
    }

    /// The parameters can be scheduled with: the longest interval is at
    /// least a day.
    pub open spec fn wf(self) -> bool {
        self.maximum_interval >= 1
    }

    /// The stability of a card after its first review.
    pub open spec fn spec_init_stability(self, rating: Rating) -> Binary64 {
        floor_stability(self.w[rating.spec_ordinal() - 1])
    }

    /// An interval of the memory model, limited to what the parameters
    /// allow.
    pub open spec fn spec_limit(self, interval: int) -> int {
        min_int(max_int(interval, 1), self.maximum_interval as int)
    }

    /// The interval after fuzzing. An interval under two and a half days
    /// stays, and so does every interval where fuzzing is off. Otherwise a
    /// fresh generator for the seed draws the place of the interval in its
    /// range.
    pub open spec fn spec_apply_fuzz(self, interval: int, elapsed_days: int) -> int {
        if !self.enable_fuzz || interval < 3 {
            interval
        } else {
            let draw = Prng::spec_new(self.seed@).spec_double();
            let (min, max) = FuzzRange::spec_get_fuzz_range(
                interval,
                elapsed_days,
                self.maximum_interval as int,
            );
            FuzzRange::spec_pick(min, max, draw as int)
        }
    }

    /// The days until the next review, for the interval that the memory
    /// model asks for.
    pub open spec fn spec_next_interval(self, interval: int, elapsed_days: int) -> int {
        self.spec_apply_fuzz(self.spec_limit(interval), elapsed_days)
    }

    pub fn is_wf(&self) -> (ok: bool)
        ensures
            ok == self.wf(),
    {
        self.maximum_interval >= 1
    }

    pub fn init_stability(&self, rating: Rating) -> (stability: Binary64)
        ensures
            stability == self.spec_init_stability(rating),
    {
        let index: usize = (rating.ordinal() - 1) as usize;
        floored_stability(self.w[index])
    }

    pub fn next_interval(&self, interval: i64, elapsed_days: i64) -> (days: i64)
        requires
            self.wf(),
        ensures
            days == self.spec_next_interval(interval as int, elapsed_days as int),
            1 <= days <= self.maximum_interval + 1,
    {
        let limited: i64 = if interval < 1 {
            1
        } else if interval > self.maximum_interval as i64 {
            self.maximum_interval as i64
        } else {
            interval
        };
        self.apply_fuzz(limited, elapsed_days)
    }

    pub fn apply_fuzz(&self, interval: i64, elapsed_days: i64) -> (days: i64)
        requires
            self.wf(),
        ensures
            days == self.spec_apply_fuzz(interval as int, elapsed_days as int),
            1 <= interval <= self.maximum_interval ==> 1 <= days <= self.maximum_interval + 1,
    {
        if !self.enable_fuzz || interval < 3 {
            return interval;
        }
        let mut generator = Prng::new(self.seed.as_str());
        let draw = generator.double_units();
        let (min_interval, max_interval) = FuzzRange::get_fuzz_range(
            interval,
            elapsed_days,
            self.maximum_interval,
        );
        proof {
            let span = max_interval - min_interval + 1;
            assert(0 <= (draw * span) / 0x20_0000_0000_0000 <= span) by (nonlinear_arith)
                requires
                    0 <= draw <= 0x20_0000_0000_0000 + 0x20_0000,
                    1 <= span <= 0x8000_0000,
            ;
        }
        FuzzRange::pick(min_interval, max_interval, draw)
    }
}

/// The days until the next review are at least one, and pass the longest
/// interval by at most a day.
pub proof fn lemma_next_interval_bounds(parameters: Parameters, interval: int, elapsed_days: int)
    requires
        parameters.wf(),
    ensures
        1 <= parameters.spec_next_interval(interval, elapsed_days) <= parameters.maximum_interval
            + 1,
{
    let limited = parameters.spec_limit(interval);
    if parameters.enable_fuzz && limited >= 3 {
        let prng = Prng::spec_new(parameters.seed@);
        crate::prng::lemma_double_bound(prng);
        let draw = prng.spec_double() as int;
        let (min, max) = FuzzRange::spec_get_fuzz_range(
            limited,
            elapsed_days,
            parameters.maximum_interval as int,
        );
        let span = max - min + 1;
        assert(0 <= (draw * span) / 0x20_0000_0000_0000 <= span) by (nonlinear_arith)
            requires
                0 <= draw <= 0x20_0000_0000_0000 + 0x20_0000,
                1 <= span <= 0x8000_0000,
        ;
    }
}

impl Clone for Parameters {
    fn clone(&self) -> (copy: Parameters)
        ensures
            copy == *self,
    {
        Parameters {
            w: self.w,
            request_retention: self.request_retention,
            maximum_interval: self.maximum_interval,
            decay: self.decay,
            factor: self.factor,
            enable_short_term: self.enable_short_term,
            enable_fuzz: self.enable_fuzz,
            seed: self.seed.clone(),
        }
    }
}

impl Default for Parameters {
    fn default() -> (parameters: Parameters)
        ensures
            parameters.is_default(),
            parameters.wf(),
    {
        Parameters {
            w: default_weights(),
            request_retention: Binary64 { bits: REQUEST_RETENTION },
            maximum_interval: MAXIMUM_INTERVAL,
            decay: Binary64 { bits: DECAY },
            factor: Binary64 { bits: FACTOR },
            enable_short_term: true,
            enable_fuzz: false,
            seed: "RNG".to_owned(),
        }
    }
}

} // verus!
