//! Scheduling with learning steps: minutes first, days after.
use vstd::prelude::*;
use super::base::due_in_days;
use super::base::due_in_minutes;
use super::base::remember;
use super::base::remembered;
use super::base::set_due_in_days;
use super::base::set_due_in_minutes;
use super::base::Base;
use crate::cards::Cards;
use crate::fuzz_range::max_int;
use crate::fuzz_range::min_int;
use crate::models::card::Card;
use crate::models::estimate::Estimate;
use crate::models::rating::Rating;
use crate::models::review_log::ReviewLog;
use crate::models::state::State;
use crate::parameters::Parameters;
use crate::time::Timestamp;

verus! {

/// The state of a card in review after `rating`: a failed review sends it
/// back to relearning.
pub open spec fn spec_next_state(rating: Rating) -> State {
    match rating {
        Rating::Again => State::Relearning,
        _ => State::Review,
    }
}

pub fn next_state(rating: Rating) -> (state: State)
    ensures
        state == spec_next_state(rating),
{
    match rating {
        Rating::Again => State::Relearning,
        Rating::Hard | Rating::Good | Rating::Easy => State::Review,
    }
}

/// The scheduler with learning steps.
#[derive(Debug, Clone)]
pub struct Basic(pub Base);

impl Basic {
    pub open spec fn wf(self) -> bool {
        self.0.wf()
    }

    /// The days for which the memory model asks after the rating `rating`,
    /// as the parameters allow them.
    pub open spec fn spec_days(self, estimates: Cards<Estimate>, rating: Rating) -> int {
        self.0.parameters.spec_next_interval(
            estimates.spec_get(rating).interval as int,
            self.0.current.elapsed_days as int,
        )
    }

    /// The intervals of a card in review, in days. `Hard` never comes later
    /// than `Good` was to come, `Good` at least a day after `Hard`, `Easy`
    /// at least a day after `Good`; `Again` has no interval of days.
    pub open spec fn spec_review_intervals(self, estimates: Cards<Estimate>) -> Cards<int> {
        let hard = min_int(
            self.spec_days(estimates, Rating::Hard),
            self.spec_days(estimates, Rating::Good),
        );
        let good = max_int(self.spec_days(estimates, Rating::Good), hard + 1);
        let easy = max_int(self.spec_days(estimates, Rating::Easy), good + 1);
        Cards { again: 0, hard, good, easy }
    }

    /// First review. `Again`, `Hard` and `Good` lead to a learning step of
    /// one, five and ten minutes; `Easy` leads straight to review.
    pub open spec fn spec_review_new(self, estimates: Cards<Estimate>, rating: Rating) -> Card {
        let card = remember(self.0.current, estimates.spec_get(rating));
        match rating {
            Rating::Again => due_in_minutes(card, self.0.now, 1, State::Learning),
            Rating::Hard => due_in_minutes(card, self.0.now, 5, State::Learning),
            Rating::Good => due_in_minutes(card, self.0.now, 10, State::Learning),
            Rating::Easy => due_in_days(
                card,
                self.0.now,
                self.spec_days(estimates, Rating::Easy),
                State::Review,
            ),
        }
    }

    /// A review within the learning steps. `Again` and `Hard` stay in the
    /// step, for five and ten minutes; `Good` and `Easy` lead to review,
    /// `Easy` at least a day later than `Good` would.
    pub open spec fn spec_review_learning(
        self,
        estimates: Cards<Estimate>,
        rating: Rating,
    ) -> Card {
        let card = remember(self.0.current, estimates.spec_get(rating));
        match rating {
            Rating::Again => due_in_minutes(card, self.0.now, 5, self.0.last.state),
            Rating::Hard => due_in_minutes(card, self.0.now, 10, self.0.last.state),
            Rating::Good => due_in_days(
                card,
                self.0.now,
                self.spec_days(estimates, Rating::Good),
                State::Review,
            ),
            Rating::Easy => due_in_days(
                card,
                self.0.now,
                max_int(
                    self.spec_days(estimates, Rating::Easy),
                    self.spec_days(estimates, Rating::Good) + 1,
                ),
                State::Review,
            ),
        }
    }

    /// A review of a card in review. `Again` counts a lapse and sends the
    /// card to relearning for five minutes; every other rating keeps it in
    /// review for its reconciled interval.
    pub open spec fn spec_review_reviewing(
        self,
        estimates: Cards<Estimate>,
        rating: Rating,
    ) -> Card {
        let card = remember(self.0.current, estimates.spec_get(rating));
        let interval = self.spec_review_intervals(estimates);
        match rating {
            Rating::Again => Card {
                lapses: (card.lapses + 1) as i32,
                ..due_in_minutes(card, self.0.now, 5, State::Relearning)
            },
            _ => due_in_days(card, self.0.now, interval.spec_get(rating), State::Review),
        }
    }

    /// The card after `rating`.
    pub open spec fn spec_next_card(self, estimates: Cards<Estimate>, rating: Rating) -> Card {
        match self.0.last.state {
            State::New => self.spec_review_new(estimates, rating),
            State::Learning | State::Relearning => self.spec_review_learning(estimates, rating),
            State::Review => self.spec_review_reviewing(estimates, rating),
        }
    }

    pub fn new(parameters: Parameters, card: Card, now: Timestamp) -> (scheduler: Self)
        requires
            Base::accepts(parameters, card, now),
        ensures
            scheduler.wf(),
            scheduler.0.parameters == parameters,
            scheduler.0.last == card,
            scheduler.0.now == now,
    {
        Self(Base::new(parameters, card, now))
    }

    pub fn next_card(&self, estimates: &Cards<Estimate>, rating: Rating) -> (card: Card)
        requires
            self.wf(),
        ensures
            card == self.spec_next_card(*estimates, rating),
            card.due.is_valid(),
    {
        match self.0.last.state {
            State::New => self.review_new(estimates, rating),
            State::Learning | State::Relearning => self.review_learning(estimates, rating),
            State::Review => self.review_reviewing(estimates, rating),
        }
    }

    pub fn current_review(&self, rating: Rating) -> (log: ReviewLog)
        ensures
            log == self.0.spec_current_review(rating),
    {
        self.0.current_review(rating)
    }

    fn days(&self, estimates: &Cards<Estimate>, rating: Rating) -> (days: i64)
        requires
            self.wf(),
        ensures
            days == self.spec_days(*estimates, rating),
            1 <= days <= self.0.parameters.maximum_interval + 1,
    {
        self.0.parameters.next_interval(estimates.get(rating).interval, self.0.current.elapsed_days)
    }

    pub fn review_new(&self, estimates: &Cards<Estimate>, rating: Rating) -> (card: Card)
        requires
            self.wf(),
        ensures
            card == self.spec_review_new(*estimates, rating),
            card.due.is_valid(),
    {
        let card = remembered(self.0.current, estimates.get(rating));
        match rating {
            Rating::Again => set_due_in_minutes(card, self.0.now, 1, State::Learning),
            Rating::Hard => set_due_in_minutes(card, self.0.now, 5, State::Learning),
            Rating::Good => set_due_in_minutes(card, self.0.now, 10, State::Learning),
            Rating::Easy => {
                let easy_interval = self.days(estimates, Rating::Easy);
                set_due_in_days(card, self.0.now, easy_interval, State::Review)
            },
        }
    }

    pub fn review_learning(&self, estimates: &Cards<Estimate>, rating: Rating) -> (card: Card)
        requires
            self.wf(),
        ensures
            card == self.spec_review_learning(*estimates, rating),
            card.due.is_valid(),
    {
        let card = remembered(self.0.current, estimates.get(rating));
        match rating {
            Rating::Again => set_due_in_minutes(card, self.0.now, 5, self.0.last.state),
            Rating::Hard => set_due_in_minutes(card, self.0.now, 10, self.0.last.state),
            Rating::Good => {
                let good_interval = self.days(estimates, Rating::Good);
                set_due_in_days(card, self.0.now, good_interval, State::Review)
            },
            Rating::Easy => {
                let good_interval = self.days(estimates, Rating::Good);
                let mut easy_interval = self.days(estimates, Rating::Easy);
                if easy_interval < good_interval + 1 {
                    easy_interval = good_interval + 1;
                }
                set_due_in_days(card, self.0.now, easy_interval, State::Review)
            },
        }
    }

    pub fn review_reviewing(&self, estimates: &Cards<Estimate>, rating: Rating) -> (card: Card)
        requires
            self.wf(),
        ensures
            card == self.spec_review_reviewing(*estimates, rating),
            card.due.is_valid(),
    {
        let card = remembered(self.0.current, estimates.get(rating));
        let interval = self.review_intervals(estimates);
        match rating {
            Rating::Again => {
                let mut next = set_due_in_minutes(card, self.0.now, 5, next_state(rating));
                next.lapses = next.lapses + 1;
                next
            },
            _ => set_due_in_days(card, self.0.now, interval.get(rating), next_state(rating)),
        }
    }

    pub fn review_intervals(&self, estimates: &Cards<Estimate>) -> (interval: Cards<i64>)
        requires
            self.wf(),
        ensures
            interval.again == self.spec_review_intervals(*estimates).again,
            interval.hard == self.spec_review_intervals(*estimates).hard,
            interval.good == self.spec_review_intervals(*estimates).good,
            interval.easy == self.spec_review_intervals(*estimates).easy,
            0 == interval.again < interval.hard < interval.good < interval.easy,
            interval.easy <= self.0.parameters.maximum_interval + 3,
    {
        let mut interval: Cards<i64> = Cards::splat(0);
        let hard = self.days(estimates, Rating::Hard);
        let good = self.days(estimates, Rating::Good);
        let easy = self.days(estimates, Rating::Easy);
        interval.hard = if hard <= good {
            hard
        } else {
            good
        };
        interval.good = if good >= interval.hard + 1 {
            good
        } else {
            interval.hard + 1
        };
        interval.easy = if easy >= interval.good + 1 {
            easy
        } else {
            interval.good + 1
        };
        interval
    }
}

} // verus!
