//! The range of days within which a due date may be moved at random.
//!
//! Intervals are whole days. The bands that widen the range start and end
//! at half days and widen by hundredths, so all sums here count in units of
//! one two-hundredth of a day and are exact.
use vstd::prelude::*;

verus! {

/// The `end` of a band that never ends.
pub const OPEN_END: u32 = 0xffff_ffff;

/// Two to the power 53: a draw below it stands for a number below one.
pub const DRAW_ONE: u64 = 0x20_0000_0000_0000;

/// A band of interval lengths and the share of it by which the range
/// widens.
#[derive(Debug, Clone, Copy, PartialEq, Eq, Structural)]
pub struct FuzzRange {
    /// Where the band starts, in half days.
    pub start: u32,
    /// Where the band ends, in half days; `OPEN_END` where it does not.
    pub end: u32,
    /// The widening per day of the band, in hundredths of a day.
    pub factor: u32,
}

/// The nearest whole number of days to `x` two-hundredths of a day, halves
/// rounded away from zero.
pub open spec fn round_200ths(x: int) -> int {
    if x >= 0 {
        (x + 100) / 200
    } else {
        -((100 - x) / 200)
    }
}

/// The larger of two integers.
pub open spec fn max_int(a: int, b: int) -> int {
    if a >= b {
        a
    } else {
        b
    }
}

/// The smaller of two integers.
pub open spec fn min_int(a: int, b: int) -> int {
    if a <= b {
        a
    } else {
        b
    }
}

fn rounded_days(x: i128) -> (days: i128)
    requires
        -0x1_0000_0000_0000_0000_0000_0000_0000 <= x <= 0x1_0000_0000_0000_0000_0000_0000_0000,
    ensures
        days == round_200ths(x as int),
{
    if x >= 0 {
        let up: u128 = (x + 100) as u128;
        (up / 200) as i128
    } else {
        let up: u128 = (100 - x) as u128;
        -((up / 200) as i128)
    }
}

impl FuzzRange {
    /// From 2.5 to 7 days the range widens by 0.15 days per day.
    pub open spec fn short() -> FuzzRange {
        FuzzRange { start: 5, end: 14, factor: 15 }
    }

    /// From 7 to 20 days the range widens by 0.1 days per day.
    pub open spec fn medium() -> FuzzRange {
        FuzzRange { start: 14, end: 40, factor: 10 }
    }

    /// Beyond 20 days the range widens by 0.05 days per day.
    pub open spec fn long() -> FuzzRange {
        FuzzRange { start: 40, end: OPEN_END, factor: 5 }
    }

    /// What the band adds to the half-width of the range around `interval`
    /// days, in two-hundredths of a day: its factor times the part of the
    /// band that the interval has passed.
    pub open spec fn spec_widening(self, interval: int) -> int {
        let reach = if self.end == OPEN_END {
            2 * interval
        } else {
            min_int(2 * interval, self.end as int)
        };
        self.factor * max_int(reach - self.start, 0)
    }

    /// The half-width of the range around `interval` days, in
    /// two-hundredths of a day: one day, widened by each band.
    pub open spec fn spec_delta(interval: int) -> int {
        200 + Self::short().spec_widening(interval) + Self::medium().spec_widening(interval)
            + Self::long().spec_widening(interval)
    }

    /// The range `(min, max)` for an interval of `interval` days, `elapsed_days`
    /// days after the last review, where no interval may pass
    /// `maximum_interval`.
    pub open spec fn spec_get_fuzz_range(
        interval: int,
        elapsed_days: int,
        maximum_interval: int,
    ) -> (int, int) {
        let delta = Self::spec_delta(interval);
        let i = min_int(interval, maximum_interval);
        let lowest = max_int(2, round_200ths(200 * i - delta));
        let max_interval = min_int(round_200ths(200 * i + delta), maximum_interval);
        let not_overdue = if i > elapsed_days {
            max_int(lowest, elapsed_days + 1)
        } else {
            lowest
        };
        (min_int(not_overdue, max_interval), max_interval)
    }

    /// The day that a draw picks from `[min, max]`: `min` plus the whole
    /// part of the draw's share of the days in the range. `draw` counts
    /// units of 2^-53.
    pub open spec fn spec_pick(min: int, max: int, draw: int) -> int {
        min + (draw * (max - min + 1)) / (DRAW_ONE as int)
    }

    pub fn new(start: u32, end: u32, factor: u32) -> (band: Self)
        ensures
            band == (FuzzRange { start, end, factor }),
    {
        Self { start, end, factor }
    }

    /// The three bands, shortest first.
    pub fn bands() -> (all: [FuzzRange; 3])
        ensures
            all@ == seq![Self::short(), Self::medium(), Self::long()],
    {
        let all = [
            FuzzRange::new(5, 14, 15),
            FuzzRange::new(14, 40, 10),
            FuzzRange::new(40, OPEN_END, 5),
        ];
        assert(all@ =~= seq![Self::short(), Self::medium(), Self::long()]);
        all
    }

    pub fn widening(&self, interval: i64) -> (w: i128)
        ensures
            w == self.spec_widening(interval as int),
            0 <= w <= 0x2_0000_0000_0000_0000_0000_0000,
    {
        let doubled: i128 = 2 * (interval as i128);
        let reach: i128 = if self.end == OPEN_END || doubled <= self.end as i128 {
            doubled
        } else {
            self.end as i128
        };
        let passed: i128 = if reach - (self.start as i128) >= 0 {
            reach - (self.start as i128)
        } else {
            0
        };
        let factor: i128 = self.factor as i128;
        assert(0 <= factor * passed <= 0x2_0000_0000_0000_0000_0000_0000)
            by (nonlinear_arith)
            requires
                0 <= factor <= 0x1_0000_0000,
                0 <= passed <= 0x2_0000_0000_0000_0000,
        ;
        factor * passed
    }

    pub fn get_fuzz_range(interval: i64, elapsed_days: i64, maximum_interval: i32) -> (range: (
        i64,
        i64,
    ))
        ensures
            (range.0 as int, range.1 as int) == Self::spec_get_fuzz_range(
                interval as int,
                elapsed_days as int,
                maximum_interval as int,
            ),
    {
        let bands = Self::bands();
        let delta: i128 = 200 + bands[0].widening(interval) + bands[1].widening(interval)
            + bands[2].widening(interval);
        let i: i128 = if interval <= maximum_interval as i64 {
            interval as i128
        } else {
            maximum_interval as i128
        };
        let below = rounded_days(200 * i - delta);
        let above = rounded_days(200 * i + delta);
        let mut min_interval: i128 = if below >= 2 {
            below
        } else {
            2
        };
        let max_interval: i128 = if above <= maximum_interval as i128 {
            above
        } else {
            maximum_interval as i128
        };
        if i > elapsed_days as i128 && min_interval < elapsed_days as i128 + 1 {
            min_interval = elapsed_days as i128 + 1;
        }
        if min_interval > max_interval {
            min_interval = max_interval;
        }
        (min_interval as i64, max_interval as i64)
    }

    /// The day that `draw` picks from `[min, max]`.
    pub fn pick(min: i64, max: i64, draw: u64) -> (day: i64)
        requires
            0 <= min <= max <= i32::MAX,
        ensures
            day == Self::spec_pick(min as int, max as int, draw as int),
    {
        let span: u128 = (max - min + 1) as u128;
        assert(draw * span <= 0x8000_0000_0000_0000_0000_0000) by (nonlinear_arith)
            requires
                0 <= draw <= 0xffff_ffff_ffff_ffff,
                0 <= span <= 0x8000_0000,
        ;
        let product: u128 = (draw as u128) * span;
        let share: u128 = product / (DRAW_ONE as u128);
        min + (share as i64)
    }
}

/// A draw below one picks a day of the range, the range ends at the longest
/// interval or before, and it starts after the days that have already
/// passed, where the interval itself lies beyond them and within the limit.
pub proof fn lemma_fuzz_bounds(interval: int, elapsed_days: int, maximum_interval: int, draw: int)
    requires
        0 <= draw < DRAW_ONE,
    ensures
        ({
            let (min, max) = FuzzRange::spec_get_fuzz_range(
                interval,
                elapsed_days,
                maximum_interval,
            );
            let day = FuzzRange::spec_pick(min, max, draw);
            &&& min <= day <= max <= maximum_interval
            &&& elapsed_days < interval <= maximum_interval ==> min >= elapsed_days + 1
        }),
{
    let (min, max) = FuzzRange::spec_get_fuzz_range(interval, elapsed_days, maximum_interval);
    let span = max - min + 1;
    let one = DRAW_ONE as int;
    assert(0 <= (draw * span) / one < span) by (nonlinear_arith)
        requires
            0 <= draw < one,
            span >= 1,
            one > 0,
    ;
}

} // verus!
