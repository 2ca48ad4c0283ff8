use vstd::prelude::*;
use super::card::Card;
use super::review_log::ReviewLog;

verus! {

/// The outcome of one rating: the card as it will be, and the record of the
/// review that made it so.
#[derive(Debug, Clone, Copy, PartialEq, Eq, Structural)]
pub struct SchedulingInfo {
    pub card: Card,
    pub review_log: ReviewLog,
}

/// A shorter name for an outcome.
pub type Schedule = SchedulingInfo;

} // verus!
