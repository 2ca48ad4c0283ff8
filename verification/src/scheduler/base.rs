//! What both ways of scheduling share: the card as it was, and the card as
//! it stands at the moment of the review.
use vstd::prelude::*;
use crate::models::card::Card;
use crate::models::estimate::Estimate;
use crate::models::estimate::MemoryQuery;
use crate::models::estimate::MemoryRule;
use crate::models::rating::Rating;
use crate::models::review_log::ReviewLog;
use crate::models::state::State;
use crate::parameters::clamp_difficulty;
use crate::parameters::clamped_difficulty;
use crate::parameters::floor_stability;
use crate::parameters::floored_stability;
use crate::parameters::Parameters;
use crate::time::Timestamp;

verus! {

/// The most days by which the reconciled intervals can pass the longest
/// interval: one by a draw that rounds up to one, and one for each of the
/// three ratings that must come later than the rating before.
pub const SLACK_DAYS: i64 = 4;

/// The instant `days` days after `now`.
pub open spec fn after_days(now: Timestamp, days: int) -> Timestamp {
    Timestamp { secs: (now.secs + 86_400 * days) as i64, nanos: now.nanos }
}

/// The instant `minutes` minutes after `now`.
pub open spec fn after_minutes(now: Timestamp, minutes: int) -> Timestamp {
    Timestamp { secs: (now.secs + 60 * minutes) as i64, nanos: now.nanos }
}

/// The card with the memory that an estimate foresees: the difficulty
/// moved into `[1, 10]`, the stability raised to at least 0.1.
pub open spec fn remember(card: Card, estimate: Estimate) -> Card {
    Card {
        difficulty: clamp_difficulty(estimate.difficulty),
        stability: floor_stability(estimate.stability),
        ..card
    }
}

/// The card due in `minutes` minutes, on the same day.
pub open spec fn due_in_minutes(card: Card, now: Timestamp, minutes: int, state: State) -> Card {
    Card { scheduled_days: 0, due: after_minutes(now, minutes), state, ..card }
}

/// The card due in `days` days.
pub open spec fn due_in_days(card: Card, now: Timestamp, days: int, state: State) -> Card {
    Card { scheduled_days: days as i64, due: after_days(now, days), state, ..card }
}

/// The card with the memory that `estimate` foresees.
pub fn remembered(card: Card, estimate: Estimate) -> (next: Card)
    ensures
        next == remember(card, estimate),
{
    let mut next = card;
    next.difficulty = clamped_difficulty(estimate.difficulty);
    next.stability = floored_stability(estimate.stability);
    next
}

/// The card due in `minutes` minutes, on the same day.
pub fn set_due_in_minutes(card: Card, now: Timestamp, minutes: i64, state: State) -> (next: Card)
    requires
        now.reaches(1),
        0 <= minutes <= 1440,
    ensures
        next == due_in_minutes(card, now, minutes as int, state),
        next.due.is_valid(),
{
    let mut next = card;
    next.scheduled_days = 0;
    next.due = now.plus_minutes(minutes);
    next.state = state;
    next
}

/// The card due in `days` days.
pub fn set_due_in_days(card: Card, now: Timestamp, days: i64, state: State) -> (next: Card)
    requires
        now.reaches(days as int),
    ensures
        next == due_in_days(card, now, days as int, state),
        next.due.is_valid(),
{
    let mut next = card;
    next.scheduled_days = days;
    next.due = now.plus_days(days);
    next.state = state;
    next
}

/// A review in progress: the parameters, the moment, the card as it was
/// kept and the card as the review finds it.
#[derive(Debug, Clone)]
pub struct Base {
    pub now: Timestamp,
    pub parameters: Parameters,
    /// The card as it was before the review.
    pub last: Card,
    /// The card at the review: the days since the last review counted, the
    /// review itself dated and counted.
    pub current: Card,
}

impl Base {
    /// The card as a review at `now` finds it.
    pub open spec fn spec_current(card: Card, now: Timestamp) -> Card {
        Card {
            elapsed_days: card.spec_elapsed_days(now) as i64,
            last_review: now,
            reps: (card.reps + 1) as i32,
            ..card
        }
    }

    /// A review can be scheduled: the parameters allow an interval, the
    /// card can be reviewed at `now`, and the calendar reaches as far past
    /// `now` as the longest interval can lead.
    pub open spec fn accepts(parameters: Parameters, card: Card, now: Timestamp) -> bool {
        &&& parameters.wf()
        &&& card.reviewable_at(now)
        &&& now.reaches(parameters.maximum_interval + SLACK_DAYS)
    }

    pub open spec fn wf(self) -> bool {
        &&& Self::accepts(self.parameters, self.last, self.now)
        &&& self.current == Self::spec_current(self.last, self.now)
    }

    /// The record of the review, whatever the rating leads to: it keeps the
    /// state and the schedule that the review found.
    pub open spec fn spec_current_review(self, rating: Rating) -> ReviewLog {
        ReviewLog {
            rating,
            state: self.current.state,
            elapsed_days: self.current.elapsed_days,
            scheduled_days: self.current.scheduled_days,
            reviewed_date: self.now,
        }
    }

    /// What the memory model must be asked for this review. A new card
    /// starts from the rating alone. A card in a learning step follows the
    /// short-term rule where the parameters have such steps. Every other
    /// review follows the long-term rule.
    pub open spec fn spec_memory_query(self) -> MemoryQuery {
        let rule = if self.last.state == State::New {
            MemoryRule::Initial
        } else if self.parameters.enable_short_term && (self.last.state == State::Learning
            || self.last.state == State::Relearning) {
            MemoryRule::ShortTerm
        } else {
            MemoryRule::LongTerm
        };
        MemoryQuery {
            rule,
            difficulty: self.last.difficulty,
            stability: self.last.stability,
            elapsed_days: self.current.elapsed_days,
        }
    }

    /// Whether a review of `card` at `now` can be scheduled.
    pub fn can_accept(parameters: &Parameters, card: &Card, now: Timestamp) -> (ok: bool)
        ensures
            ok == Self::accepts(*parameters, *card, now),
    {
        parameters.is_wf() && card.is_reviewable_at(now) && now.can_reach(
            parameters.maximum_interval as i64 + SLACK_DAYS,
        )
    }

    pub fn new(parameters: Parameters, card: Card, now: Timestamp) -> (base: Self)
        requires
            Self::accepts(parameters, card, now),
        ensures
            base.wf(),
            base.parameters == parameters,
            base.last == card,
            base.now == now,
    {
        let mut current: Card = card;
        current.elapsed_days = card.elapsed_days(now);
        current.last_review = now;
        current.reps = current.reps + 1;
        Self { parameters, last: card, current, now }
    }

    pub fn current_review(&self, rating: Rating) -> (log: ReviewLog)
        ensures
            log == self.spec_current_review(rating),
    {
        ReviewLog {
            rating,
            state: self.current.state,
            elapsed_days: self.current.elapsed_days,
            scheduled_days: self.current.scheduled_days,
            reviewed_date: self.now,
        }
    }

    pub fn memory_query(&self) -> (query: MemoryQuery)
        ensures
            query == self.spec_memory_query(),
    {
        let rule = match self.last.state {
            State::New => MemoryRule::Initial,
            State::Learning | State::Relearning => {
                if self.parameters.enable_short_term {
                    MemoryRule::ShortTerm
                } else {
                    MemoryRule::LongTerm
                }
            },
            State::Review => MemoryRule::LongTerm,
        };
        MemoryQuery {
            rule,
            difficulty: self.last.difficulty,
            stability: self.last.stability,
            elapsed_days: self.current.elapsed_days,
        }
    }
}

} // verus!
