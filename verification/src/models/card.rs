use vstd::prelude::*;
use super::state::State;
use crate::binary64::Binary64;
use crate::time::whole_days_between;
use crate::time::Timestamp;

verus! {

/// The memory state of one learnable item, as it is kept between reviews.
#[derive(Debug, Clone, Copy, PartialEq, Eq, Structural)]
pub struct Card {
    /// When the next review is scheduled.
    pub due: Timestamp,
    /// When the card was last reviewed; without meaning while the card is new.
    pub last_review: Timestamp,
    pub state: State,
    /// Memory strength, in days.
    pub stability: Binary64,
    /// Intrinsic hardness, from 1 to 10.
    pub difficulty: Binary64,
    /// Days between the last two reviews.
    pub elapsed_days: i64,
    /// Days from the last review to `due`.
    pub scheduled_days: i64,
    pub reps: i32,
    pub lapses: i32,
}

impl Card {
    /// The card of an item that was never reviewed.
    pub open spec fn spec_new(now: Timestamp) -> Card {
        Card {
            due: now,
            last_review: now,
            state: State::New,
            stability: Binary64 { bits: 0 },
            difficulty: Binary64 { bits: 0 },
            elapsed_days: 0,
            scheduled_days: 0,
            reps: 0,
            lapses: 0,
        }
    }

    /// Whole days since the last review; none for a new card.
    pub open spec fn spec_elapsed_days(self, now: Timestamp) -> int {
        if self.state == State::New {
            0
        } else {
            whole_days_between(now, self.last_review)
        }
    }

    /// A card can be reviewed at `now` when both instants are valid and the
    /// counters have room for one more review.
    pub open spec fn reviewable_at(self, now: Timestamp) -> bool {
        &&& now.is_valid()
        &&& self.state != State::New ==> self.last_review.is_valid()
        &&& self.reps < i32::MAX
        &&& self.lapses < i32::MAX
    }

    /// A new card, due at once.
    pub fn new(now: Timestamp) -> (card: Card)
        ensures
            card == Card::spec_new(now),
    {
        Card {
            due: now,
            last_review: now,
            state: State::New,
            stability: Binary64::zero(),
            difficulty: Binary64::zero(),
            elapsed_days: 0,
            scheduled_days: 0,
            reps: 0,
            lapses: 0,
        }
    }

    pub fn elapsed_days(&self, now: Timestamp) -> (days: i64)
        requires
            now.is_valid(),
            self.state != State::New ==> self.last_review.is_valid(),
        ensures
            days == self.spec_elapsed_days(now),
    {
        match self.state {
            State::New => 0,
            _ => now.whole_days_since(self.last_review),
        }
    }

    /// Whether the card can be reviewed at `now`.
    pub fn is_reviewable_at(&self, now: Timestamp) -> (ok: bool)
        ensures
            ok == self.reviewable_at(now),
    {
        let now_ok = Timestamp::new(now.secs, now.nanos).is_some();
        let last_ok = match self.state {
            State::New => true,
            _ => Timestamp::new(self.last_review.secs, self.last_review.nanos).is_some(),
        };
        now_ok && last_ok && self.reps < i32::MAX && self.lapses < i32::MAX
    }
}

impl Default for Card {
    /// A new card, due at the start of 1970.
    fn default() -> (card: Card)
        ensures
            card == Card::spec_new(Timestamp { secs: 0, nanos: 0 }),
    {
        Card::new(Timestamp::epoch())
    }
}

} // verus!
