use vstd::prelude::*;

verus! {

/// The grade a learner gives at a review, from worst recall to best.
#[derive(Debug, Clone, Copy, PartialEq, Eq, Structural, PartialOrd, Ord, Hash)]
pub enum Rating {
    Again,
    Hard,
    Good,
    Easy,
}

impl Rating {
    /// The rating's place in the order, counted from one.
    pub open spec fn spec_ordinal(self) -> int {
        match self {
            Rating::Again => 1,
            Rating::Hard => 2,
            Rating::Good => 3,
            Rating::Easy => 4,
        }
    }

    /// The four ratings in ascending order.
    pub open spec fn spec_variants() -> Seq<Rating> {
        seq![Rating::Again, Rating::Hard, Rating::Good, Rating::Easy]
    }

    pub fn ordinal(self) -> (n: u8)
        ensures
            n == self.spec_ordinal(),
    {
        match self {
            Rating::Again => 1,
            Rating::Hard => 2,
            Rating::Good => 3,
            Rating::Easy => 4,
        }
    }

    /// The rating with the given ordinal, if there is one.
    pub fn from_ordinal(n: u8) -> (r: Option<Rating>)
        ensures
            1 <= n <= 4 <==> r is Some,
            r matches Some(rating) ==> rating.spec_ordinal() == n,
    {
        match n {
            1 => Some(Rating::Again),
            2 => Some(Rating::Hard),
            3 => Some(Rating::Good),
            4 => Some(Rating::Easy),
            _ => None,
        }
    }

    /// All ratings, each once, in ascending order.
    pub fn iter_variants() -> (all: [Rating; 4])
        ensures
            all@ == Rating::spec_variants(),
    {
        let all = [Rating::Again, Rating::Hard, Rating::Good, Rating::Easy];
        assert(all@ =~= Rating::spec_variants());
        all
    }
}

} // verus!
