use vstd::prelude::*;
use super::rating::Rating;
use super::state::State;
use crate::time::Timestamp;

verus! {

/// The record of one review: what was answered, and how the card stood when
/// the answer came.
#[derive(Debug, Clone, Copy, PartialEq, Eq, Structural)]
pub struct ReviewLog {
    pub rating: Rating,
    /// Days since the review before this one.
    pub elapsed_days: i64,
    /// Days for which the card had been scheduled.
    pub scheduled_days: i64,
    /// The state in which the card was reviewed.
    pub state: State,
    pub reviewed_date: Timestamp,
}

/// A shorter name for the record of a review.
pub type Review = ReviewLog;

} // verus!
