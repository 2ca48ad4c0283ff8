use vstd::prelude::*;
use crate::binary64::Binary64;

verus! {

/// What the memory model foresees for one rating.
#[derive(Debug, Clone, Copy, PartialEq, Eq, Structural)]
pub struct Estimate {
    /// The difficulty after the review.
    pub difficulty: Binary64,
    /// The stability after the review.
    pub stability: Binary64,
    /// The days after which recall of a memory of that stability falls to
    /// the requested retention, rounded to whole days and not yet limited.
    pub interval: i64,
}

/// The part of the memory model that applies to a review.
#[derive(Debug, Clone, Copy, PartialEq, Eq, Structural)]
pub enum MemoryRule {
    /// First review: difficulty and stability start from the rating alone.
    Initial,
    /// A step taken within a day: difficulty is updated, stability follows
    /// the short-term rule.
    ShortTerm,
    /// A review after days: difficulty is updated, stability grows on
    /// success and shrinks on failure, by the chance of recall.
    LongTerm,
}

/// What the memory model must be asked before a card is scheduled.
#[derive(Debug, Clone, Copy, PartialEq, Eq, Structural)]
pub struct MemoryQuery {
    pub rule: MemoryRule,
    /// The difficulty before the review.
    pub difficulty: Binary64,
    /// The stability before the review.
    pub stability: Binary64,
    /// Whole days since the last review.
    pub elapsed_days: i64,
}

} // verus!
