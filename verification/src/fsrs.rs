//! The entry points: one review committed, or all four previewed.
use vstd::prelude::*;
use crate::cards::Cards;
use crate::models::card::Card;
use crate::models::estimate::Estimate;
use crate::models::estimate::MemoryQuery;
use crate::models::rating::Rating;
use crate::models::scheduling_info::SchedulingInfo;
use crate::parameters::Parameters;
use crate::scheduler::Base;
use crate::scheduler::Scheduler;
use crate::time::Timestamp;

verus! {

/// The scheduling algorithm under one set of parameters.
#[derive(Debug, Clone, PartialEq)]
pub struct Fsrs {
    pub parameters: Parameters,
}

impl Fsrs {
    /// The card of an item: the one that is kept, or a new one where none
    /// is.
    pub open spec fn card_or_new(card: Option<Card>, now: Timestamp) -> Card {
        match card {
            Some(kept) => kept,
            None => Card::spec_new(now),
        }
    }

    /// A review of `card` at `now` can be scheduled.
    pub open spec fn accepts(self, card: Option<Card>, now: Timestamp) -> bool {
        Base::accepts(self.parameters, Self::card_or_new(card, now), now)
    }

    /// What the memory model must be asked before `card` is scheduled at
    /// `now`.
    pub open spec fn spec_memory_query(self, card: Option<Card>, now: Timestamp) -> MemoryQuery {
        Scheduler::spec_new(
            self.parameters,
            Self::card_or_new(card, now),
            now,
        ).base().spec_memory_query()
    }

    /// The outcome of `rating` for `card`, reviewed at `now`.
    pub open spec fn spec_next(
        self,
        card: Option<Card>,
        now: Timestamp,
        estimates: Cards<Estimate>,
        rating: Rating,
    ) -> SchedulingInfo {
        Scheduler::spec_new(self.parameters, Self::card_or_new(card, now), now).spec_review(
            estimates,
            rating,
        )
    }

    /// The outcomes of all four ratings for `card`, reviewed at `now`.
    pub open spec fn spec_repeat(
        self,
        card: Option<Card>,
        now: Timestamp,
        estimates: Cards<Estimate>,
    ) -> Cards<SchedulingInfo> {
        Scheduler::spec_new(self.parameters, Self::card_or_new(card, now), now).spec_preview(
            estimates,
        )
    }

    pub fn new(parameters: Parameters) -> (fsrs: Self)
        ensures
            fsrs.parameters == parameters,
    {
        Self { parameters }
    }

    /// Whether a review of `card` at `now` can be scheduled.
    pub fn can_accept(&self, card: Option<Card>, now: Timestamp) -> (ok: bool)
        ensures
            ok == self.accepts(card, now),
    {
        let reviewed = match card {
            Some(kept) => kept,
            None => Card::new(now),
        };
        Base::can_accept(&self.parameters, &reviewed, now)
    }

    /// The scheduler for a review of `card` at `now`.
    pub fn scheduler(&self, card: Option<Card>, now: Timestamp) -> (scheduler: Scheduler)
        requires
            self.accepts(card, now),
        ensures
            scheduler == Scheduler::spec_new(self.parameters, Self::card_or_new(card, now), now),
            scheduler.wf(),
    {
        let reviewed = match card {
            Some(kept) => kept,
            None => Card::new(now),
        };
        Scheduler::new(self.parameters.clone(), reviewed, now)
    }

    /// What the memory model must be asked before `card` is scheduled at
    /// `now`. `estimates` in the other calls are the model's answers to
    /// this, one per rating.
    pub fn memory_query(&self, card: Option<Card>, now: Timestamp) -> (query: MemoryQuery)
        requires
            self.accepts(card, now),
        ensures
            query == self.spec_memory_query(card, now),
    {
        self.scheduler(card, now).memory_query()
    }

    /// Commits `rating` and returns the card as it will be kept.
    pub fn next_card(
        &self,
        card: Option<Card>,
        now: Timestamp,
        estimates: &Cards<Estimate>,
        rating: Rating,
    ) -> (next: Card)
        requires
            self.accepts(card, now),
        ensures
            next == self.spec_next(card, now, *estimates, rating).card,
    {
        self.scheduler(card, now).next_card(estimates, rating)
    }

    /// Commits `rating`: the card as it will be kept, and the record of the
    /// review.
    pub fn next(
        &self,
        card: Option<Card>,
        now: Timestamp,
        estimates: &Cards<Estimate>,
        rating: Rating,
    ) -> (info: SchedulingInfo)
        requires
            self.accepts(card, now),
        ensures
            info == self.spec_next(card, now, *estimates, rating),
    {
        self.scheduler(card, now).review(estimates, rating)
    }

    /// Previews all four ratings, without committing to any.
    pub fn repeat(&self, card: Option<Card>, now: Timestamp, estimates: &Cards<Estimate>) -> (all:
        Cards<SchedulingInfo>)
        requires
            self.accepts(card, now),
        ensures
            all == self.spec_repeat(card, now, *estimates),
    {
        self.scheduler(card, now).preview(estimates)
    }
}

impl Default for Fsrs {
    fn default() -> (fsrs: Fsrs)
        ensures
            fsrs.parameters.is_default(),
            fsrs.parameters.wf(),
    {
        Fsrs { parameters: Parameters::default() }
    }
}

/// A preview holds, for every rating, what committing that rating gives:
/// the same card and the same record. Both are functions of the
/// parameters, the card, the moment and the estimates, so the same inputs
/// give the same preview every time.
pub proof fn lemma_preview_matches_review(
    fsrs: Fsrs,
    card: Option<Card>,
    now: Timestamp,
    estimates: Cards<Estimate>,
    rating: Rating,
)
    ensures
        fsrs.spec_repeat(card, now, estimates).spec_get(rating) == fsrs.spec_next(
            card,
            now,
            estimates,
            rating,
        ),
{
}

} // verus!
