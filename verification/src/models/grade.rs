use vstd::prelude::*;
use super::rating::Rating;

verus! {

/// Difficulty of a review: the ratings, with `Fail` for the lowest.
#[derive(Debug, Clone, Copy, PartialEq, Eq, Structural, PartialOrd, Ord, Hash)]
pub enum Grade {
    Fail,
    Hard,
    Good,
    Easy,
}

impl Grade {
    /// The rating that this grade stands for.
    pub open spec fn spec_rating(self) -> Rating {
        match self {
            Grade::Fail => Rating::Again,
            Grade::Hard => Rating::Hard,
            Grade::Good => Rating::Good,
            Grade::Easy => Rating::Easy,
        }
    }

    pub fn rating(self) -> (r: Rating)
        ensures
            r == self.spec_rating(),
    {
        match self {
            Grade::Fail => Rating::Again,
            Grade::Hard => Rating::Hard,
            Grade::Good => Rating::Good,
            Grade::Easy => Rating::Easy,
        }
    }
}

} // verus!
