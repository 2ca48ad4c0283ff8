//! Scheduling without learning steps: every review is counted in days.
use vstd::prelude::*;
use super::base::due_in_days;
use super::base::remember;
use super::base::remembered;
use super::base::set_due_in_days;
use super::base::Base;
use crate::cards::Cards;
use crate::fuzz_range::max_int;
use crate::fuzz_range::min_int;
use crate::models::card::Card;
use crate::models::estimate::Estimate;
use crate::models::rating::Rating;
use crate::models::review_log::ReviewLog;
use crate::models::state::State;
use crate::parameters::Parameters;
use crate::time::Timestamp;

verus! {

/// The scheduler without learning steps.
#[derive(Debug, Clone)]
pub struct Longterm(pub Base);

impl Longterm {
    pub open spec fn wf(self) -> bool {
        self.0.wf()
    }

    /// The days for which the memory model asks after the rating `rating`,
    /// as the parameters allow them.
    pub open spec fn spec_days(
        self,
        estimates: Cards<Estimate>,
        elapsed_days: int,
        rating: Rating,
    ) -> int {
        self.0.parameters.spec_next_interval(
            estimates.spec_get(rating).interval as int,
            elapsed_days,
        )
    }

    /// The intervals of the four ratings, in days. `Again` never comes
    /// later than `Hard` was to come, and each rating after it comes at
    /// least a day after the one before.
    pub open spec fn spec_intervals(
        self,
        estimates: Cards<Estimate>,
        elapsed_days: int,
    ) -> Cards<int> {
        let again = min_int(
            self.spec_days(estimates, elapsed_days, Rating::Again),
            self.spec_days(estimates, elapsed_days, Rating::Hard),
        );
        let hard = max_int(self.spec_days(estimates, elapsed_days, Rating::Hard), again + 1);
        let good = max_int(self.spec_days(estimates, elapsed_days, Rating::Good), hard + 1);
        let easy = max_int(self.spec_days(estimates, elapsed_days, Rating::Easy), good + 1);
        Cards { again, hard, good, easy }
    }

    /// The interval after `rating`, in days.
    pub open spec fn spec_next_interval(
        self,
        estimates: Cards<Estimate>,
        elapsed_days: int,
        rating: Rating,
    ) -> int {
        self.spec_intervals(estimates, elapsed_days).spec_get(rating)
    }

    /// First review: the card goes to review, for the interval of its
    /// rating.
    pub open spec fn spec_review_new(self, estimates: Cards<Estimate>, rating: Rating) -> Card {
        due_in_days(
            remember(self.0.current, estimates.spec_get(rating)),
            self.0.now,
            self.spec_next_interval(estimates, 0, rating),
            State::Review,
        )
    }

    /// Any later review: the card goes to review, for the interval of its
    /// rating.
    pub open spec fn spec_review_reviewing(
        self,
        estimates: Cards<Estimate>,
        rating: Rating,
    ) -> Card {
        due_in_days(
            remember(self.0.current, estimates.spec_get(rating)),
            self.0.now,
            self.spec_next_interval(estimates, self.0.current.elapsed_days as int, rating),
            State::Review,
        )
    }

    /// The card after `rating`.
    pub open spec fn spec_next_card(self, estimates: Cards<Estimate>, rating: Rating) -> Card {
        match self.0.last.state {
            State::New => self.spec_review_new(estimates, rating),
            _ => self.spec_review_reviewing(estimates, rating),
        }
    }

    pub fn new(parameters: Parameters, card: Card, now: Timestamp) -> (scheduler: Self)
        requires
            Base::accepts(parameters, card, now),
        ensures
            scheduler.wf(),
            scheduler.0.parameters == parameters,
            scheduler.0.last == card,
            scheduler.0.now == now,
    {
        Self(Base::new(parameters, card, now))
    }

    pub fn next_card(&self, estimates: &Cards<Estimate>, rating: Rating) -> (card: Card)
        requires
            self.wf(),
        ensures
            card == self.spec_next_card(*estimates, rating),
            card.state == State::Review,
            card.due.is_valid(),
    {
        match self.0.last.state {
            State::New => self.review_new(estimates, rating),
            State::Learning | State::Relearning | State::Review => self.review_reviewing(
                estimates,
                rating,
            ),
        }
    }

    pub fn current_review(&self, rating: Rating) -> (log: ReviewLog)
        ensures
            log == self.0.spec_current_review(rating),
    {
        self.0.current_review(rating)
    }

    pub fn review_new(&self, estimates: &Cards<Estimate>, rating: Rating) -> (card: Card)
        requires
            self.wf(),
        ensures
            card == self.spec_review_new(*estimates, rating),
            card.due.is_valid(),
    {
        let next = remembered(self.0.current, estimates.get(rating));
        let interval = self.next_interval(estimates, 0, rating);
        set_due_in_days(next, self.0.now, interval, State::Review)
    }

    pub fn review_reviewing(&self, estimates: &Cards<Estimate>, rating: Rating) -> (card: Card)
        requires
            self.wf(),
        ensures
            card == self.spec_review_reviewing(*estimates, rating),
            card.due.is_valid(),
    {
        let next = remembered(self.0.current, estimates.get(rating));
        let interval = self.next_interval(estimates, self.0.current.elapsed_days, rating);
        set_due_in_days(next, self.0.now, interval, State::Review)
    }

    /// The intervals of the four ratings, in days.
    pub fn intervals(&self, estimates: &Cards<Estimate>, elapsed_days: i64) -> (interval: Cards<
        i64,
    >)
        requires
            self.wf(),
        ensures
            interval.again == self.spec_intervals(*estimates, elapsed_days as int).again,
            interval.hard == self.spec_intervals(*estimates, elapsed_days as int).hard,
            interval.good == self.spec_intervals(*estimates, elapsed_days as int).good,
            interval.easy == self.spec_intervals(*estimates, elapsed_days as int).easy,
            1 <= interval.again < interval.hard < interval.good < interval.easy,
            interval.easy <= self.0.parameters.maximum_interval + 4,
    {
        let p = &self.0.parameters;
        let mut interval: Cards<i64> = Cards::new(
            p.next_interval(estimates.again.interval, elapsed_days),
            p.next_interval(estimates.hard.interval, elapsed_days),
            p.next_interval(estimates.good.interval, elapsed_days),
            p.next_interval(estimates.easy.interval, elapsed_days),
        );
        if interval.again > interval.hard {
            interval.again = interval.hard;
        }
        if interval.hard < interval.again + 1 {
            interval.hard = interval.again + 1;
        }
        if interval.good < interval.hard + 1 {
            interval.good = interval.hard + 1;
        }
        if interval.easy < interval.good + 1 {
            interval.easy = interval.good + 1;
        }
        interval
    }

    pub fn next_interval(&self, estimates: &Cards<Estimate>, elapsed_days: i64, rating: Rating) -> (days:
        i64)
        requires
            self.wf(),
        ensures
            days == self.spec_next_interval(*estimates, elapsed_days as int, rating),
            1 <= days <= self.0.parameters.maximum_interval + 4,
    {
        self.intervals(estimates, elapsed_days).get(rating)
    }
}

} // verus!
