//! The review state machine.
//!
//! A scheduler is made for one review of one card. It says what the memory
//! model must be asked, and turns the model's estimates into the card that
//! each rating leads to.
pub mod base;
pub mod basic;
pub mod longterm;

use vstd::arithmetic::power2::pow2;
use vstd::prelude::*;
use crate::binary64::Binary64;
use crate::cards::Cards;
use crate::models::card::Card;
use crate::models::estimate::Estimate;
use crate::models::estimate::MemoryQuery;
use crate::models::rating::Rating;
use crate::models::review_log::ReviewLog;
use crate::models::scheduling_info::SchedulingInfo;
use crate::models::state::State;
use crate::parameters::Parameters;
use crate::parameters::DIFFICULTY_MAX;
use crate::parameters::DIFFICULTY_MIN;
use crate::parameters::STABILITY_FLOOR;
use crate::time::Timestamp;

pub use base::Base;
pub use basic::next_state;
pub use basic::Basic;
pub use longterm::Longterm;

verus! {

/// The two ways of scheduling.
#[derive(Debug, Clone)]
pub enum Mode {
    Basic(Basic),
    Longterm(Longterm),
}

/// The scheduler for one review, in the mode that its parameters ask for.
#[derive(Debug, Clone)]
pub struct Scheduler(pub Mode);

impl Scheduler {
    /// What the two modes share.
    pub open spec fn base(self) -> Base {
        match self.0 {
            Mode::Basic(basic) => basic.0,
            Mode::Longterm(longterm) => longterm.0,
        }
    }

    pub open spec fn wf(self) -> bool {
        self.base().wf()
    }

    /// The scheduler for a review of `card` at `now`.
    pub open spec fn spec_new(parameters: Parameters, card: Card, now: Timestamp) -> Scheduler {
        let base = Base { now, parameters, last: card, current: Base::spec_current(card, now) };
        if parameters.enable_short_term {
            Scheduler(Mode::Basic(Basic(base)))
        } else {
            Scheduler(Mode::Longterm(Longterm(base)))
        }
    }

    /// The card after `rating`.
    pub open spec fn spec_next_card(self, estimates: Cards<Estimate>, rating: Rating) -> Card {
        match self.0 {
            Mode::Basic(basic) => basic.spec_next_card(estimates, rating),
            Mode::Longterm(longterm) => longterm.spec_next_card(estimates, rating),
        }
    }

    /// The card after `rating`, with the record of the review.
    pub open spec fn spec_review(
        self,
        estimates: Cards<Estimate>,
        rating: Rating,
    ) -> SchedulingInfo {
        SchedulingInfo {
            card: self.spec_next_card(estimates, rating),
            review_log: self.base().spec_current_review(rating),
        }
    }

    /// What each of the four ratings would lead to.
    pub open spec fn spec_preview(self, estimates: Cards<Estimate>) -> Cards<SchedulingInfo> {
        Cards {
            again: self.spec_review(estimates, Rating::Again),
            hard: self.spec_review(estimates, Rating::Hard),
            good: self.spec_review(estimates, Rating::Good),
            easy: self.spec_review(estimates, Rating::Easy),
        }
    }

    pub fn new(parameters: Parameters, card: Card, now: Timestamp) -> (scheduler: Scheduler)
        requires
            Base::accepts(parameters, card, now),
        ensures
            scheduler == Scheduler::spec_new(parameters, card, now),
            scheduler.wf(),
    {
        if parameters.enable_short_term {
            Scheduler(Mode::Basic(Basic::new(parameters, card, now)))
        } else {
            Scheduler(Mode::Longterm(Longterm::new(parameters, card, now)))
        }
    }

    /// What the memory model must be asked before a rating is scheduled.
    pub fn memory_query(&self) -> (query: MemoryQuery)
        ensures
            query == self.base().spec_memory_query(),
    {
        match &self.0 {
            Mode::Basic(basic) => basic.0.memory_query(),
            Mode::Longterm(longterm) => longterm.0.memory_query(),
        }
    }

    pub fn next_card(&self, estimates: &Cards<Estimate>, rating: Rating) -> (card: Card)
        requires
            self.wf(),
        ensures
            card == self.spec_next_card(*estimates, rating),
            card.due.is_valid(),
    {
        match &self.0 {
            Mode::Basic(basic) => basic.next_card(estimates, rating),
            Mode::Longterm(longterm) => longterm.next_card(estimates, rating),
        }
    }

    pub fn current_review(&self, rating: Rating) -> (log: ReviewLog)
        ensures
            log == self.base().spec_current_review(rating),
    {
        match &self.0 {
            Mode::Basic(basic) => basic.current_review(rating),
            Mode::Longterm(longterm) => longterm.current_review(rating),
        }
    }

    /// Commits `rating`: the card as it will be kept, and the record of the
    /// review.
    pub fn review(&self, estimates: &Cards<Estimate>, rating: Rating) -> (info: SchedulingInfo)
        requires
            self.wf(),
        ensures
            info == self.spec_review(*estimates, rating),
    {
        SchedulingInfo {
            card: self.next_card(estimates, rating),
            review_log: self.current_review(rating),
        }
    }

    /// What each of the four ratings would lead to, without committing to
    /// any.
    pub fn preview(&self, estimates: &Cards<Estimate>) -> (all: Cards<SchedulingInfo>)
        requires
            self.wf(),
        ensures
            all == self.spec_preview(*estimates),
    {
        Cards::new(
            self.review(estimates, Rating::Again),
            self.review(estimates, Rating::Hard),
            self.review(estimates, Rating::Good),
            self.review(estimates, Rating::Easy),
        )
    }
}

/// Whatever the memory model foresees, the card that a review leaves has a
/// stability of at least 0.1, and a difficulty from 1 to 10 unless the
/// model's difficulty is not a number. Both hold of the numbers themselves:
/// in units of 2^-1074 the difficulty lies between `2^1074` and ten times
/// that, and ten times the stability reaches `2^1074`.
pub proof fn lemma_memory_stays_clamped(
    scheduler: Scheduler,
    estimates: Cards<Estimate>,
    rating: Rating,
)
    ensures
        ({
            let card = scheduler.spec_next_card(estimates, rating);
            let estimate = estimates.spec_get(rating);
            &&& (Binary64 { bits: STABILITY_FLOOR }).spec_le(card.stability)
            &&& !card.stability.sign_bit()
            &&& card.stability.spec_is_finite() ==> 10 * card.stability.scaled_value() >= pow2(
                1074,
            )
            &&& !estimate.difficulty.spec_is_nan() ==> {
                &&& (Binary64 { bits: DIFFICULTY_MIN }).spec_le(card.difficulty)
                &&& card.difficulty.spec_le(Binary64 { bits: DIFFICULTY_MAX })
                &&& pow2(1074) <= card.difficulty.scaled_value() <= 10 * pow2(1074)
            }
        }),
{
    let estimate = estimates.spec_get(rating);
    crate::binary64::lemma_clamp_bounds(
        estimate.difficulty,
        Binary64 { bits: DIFFICULTY_MIN },
        Binary64 { bits: DIFFICULTY_MAX },
        Binary64 { bits: STABILITY_FLOOR },
    );
    crate::parameters::lemma_kept_memory_is_in_range(estimate.difficulty, estimate.stability);
}

/// A review is dated and counted, and no count ever falls: the card that
/// it leaves was last reviewed at the moment of the review, has one
/// repetition more, and at least as many lapses as before.
pub proof fn lemma_review_is_counted(
    scheduler: Scheduler,
    estimates: Cards<Estimate>,
    rating: Rating,
)
    requires
        scheduler.wf(),
    ensures
        ({
            let before = scheduler.base().last;
            let after = scheduler.spec_next_card(estimates, rating);
            &&& after.last_review == scheduler.base().now
            &&& after.reps == before.reps + 1
            &&& before.lapses <= after.lapses <= before.lapses + 1
            &&& after.lapses > before.lapses <==> (scheduler.0 is Basic && before.state
                == State::Review && rating == Rating::Again)
        }),
{
}

/// The states follow each other as the life cycle allows. With learning
/// steps a new card goes to learning or review, a card in a step stays or
/// goes to review, and a card in review stays or goes to relearning.
/// Without them every review leads to review. No review leads back to new.
pub proof fn lemma_states_follow_the_life_cycle(
    scheduler: Scheduler,
    estimates: Cards<Estimate>,
    rating: Rating,
)
    ensures
        ({
            let before = scheduler.base().last.state;
            let after = scheduler.spec_next_card(estimates, rating).state;
            &&& after != State::New
            &&& scheduler.0 is Longterm ==> after == State::Review
            &&& scheduler.0 is Basic ==> match before {
                State::New => after == (if rating == Rating::Easy {
                    State::Review
                } else {
                    State::Learning
                }),
                State::Learning | State::Relearning => after == (if rating == Rating::Again
                    || rating == Rating::Hard {
                    before
                } else {
                    State::Review
                }),
                State::Review => after == (if rating == Rating::Again {
                    State::Relearning
                } else {
                    State::Review
                }),
            }
        }),
{
}

/// Without learning steps the four ratings lead to intervals in strict
/// order: `Again` before `Hard` before `Good` before `Easy`, the first of at
/// least one day.
pub proof fn lemma_longterm_intervals_ordered(scheduler: Longterm, estimates: Cards<Estimate>)
    requires
        scheduler.wf(),
    ensures
        ({
            let again = scheduler.spec_next_card(estimates, Rating::Again).scheduled_days;
            let hard = scheduler.spec_next_card(estimates, Rating::Hard).scheduled_days;
            let good = scheduler.spec_next_card(estimates, Rating::Good).scheduled_days;
            let easy = scheduler.spec_next_card(estimates, Rating::Easy).scheduled_days;
            1 <= again < hard < good < easy
        }),
{
    let p = scheduler.0.parameters;
    let elapsed: int = if scheduler.0.last.state == State::New {
        0
    } else {
        scheduler.0.current.elapsed_days as int
    };
    crate::parameters::lemma_next_interval_bounds(p, estimates.again.interval as int, elapsed);
    crate::parameters::lemma_next_interval_bounds(p, estimates.hard.interval as int, elapsed);
    crate::parameters::lemma_next_interval_bounds(p, estimates.good.interval as int, elapsed);
    crate::parameters::lemma_next_interval_bounds(p, estimates.easy.interval as int, elapsed);
}

/// With learning steps a card in review is scheduled in strict order too:
/// `Again` on the same day, then `Hard` before `Good` before `Easy`.
pub proof fn lemma_review_intervals_ordered(scheduler: Basic, estimates: Cards<Estimate>)
    requires
        scheduler.wf(),
        scheduler.0.last.state == State::Review,
    ensures
        ({
            let again = scheduler.spec_next_card(estimates, Rating::Again).scheduled_days;
            let hard = scheduler.spec_next_card(estimates, Rating::Hard).scheduled_days;
            let good = scheduler.spec_next_card(estimates, Rating::Good).scheduled_days;
            let easy = scheduler.spec_next_card(estimates, Rating::Easy).scheduled_days;
            0 == again < hard < good < easy
        }),
{
    let p = scheduler.0.parameters;
    let elapsed = scheduler.0.current.elapsed_days as int;
    crate::parameters::lemma_next_interval_bounds(p, estimates.hard.interval as int, elapsed);
    crate::parameters::lemma_next_interval_bounds(p, estimates.good.interval as int, elapsed);
    crate::parameters::lemma_next_interval_bounds(p, estimates.easy.interval as int, elapsed);
}

} // verus!
