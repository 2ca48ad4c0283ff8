use fsrs::Base;
use fsrs::Basic;
use fsrs::Binary64;
use fsrs::Card;
use fsrs::Cards;
use fsrs::Estimate;
use fsrs::Fsrs;
use fsrs::Longterm;
use fsrs::Parameters;
use fsrs::ParametersBuilder;
use fsrs::Rating;
use fsrs::Scheduler;
use fsrs::State;
use fsrs::Timestamp;

fn bits(x: f64) -> Binary64 {
    Binary64::from_bits(x.to_bits())
}

fn number(x: Binary64) -> f64 {
    f64::from_bits(x.to_bits())
}

fn now() -> Timestamp {
    Timestamp::new(1_669_725_000, 250).unwrap()
}

fn foreseen(difficulty: f64, stability: f64, interval: i64) -> Estimate {
    Estimate { difficulty: bits(difficulty), stability: bits(stability), interval }
}

fn model(intervals: [i64; 4]) -> Cards<Estimate> {
    Cards::new(
        foreseen(7.0, 0.5, intervals[0]),
        foreseen(6.0, 2.5, intervals[1]),
        foreseen(5.0, 4.5, intervals[2]),
        foreseen(4.0, 8.5, intervals[3]),
    )
}

fn parameters(short_term: bool) -> Parameters {
    ParametersBuilder::new().enable_short_term(Some(short_term)).build()
}

fn kept(state: State) -> Card {
    let mut card = Card::new(now());
    card.state = state;
    card.last_review = Timestamp::new(now().secs - 10 * 86_400 - 30, 250).unwrap();
    card.stability = bits(3.0);
    card.difficulty = bits(5.0);
    card.scheduled_days = 9;
    card.elapsed_days = 2;
    card.reps = 5;
    card.lapses = 1;
    card
}

#[test]
fn a_review_dates_and_counts_itself() {
    let base = Base::new(parameters(true), kept(State::Review), now());
    assert_eq!(base.last, kept(State::Review));
    assert_eq!(base.current.elapsed_days, 10);
    assert_eq!(base.current.last_review, now());
    assert_eq!(base.current.reps, 6);
    assert_eq!(base.current.lapses, 1);
    assert_eq!(base.current.scheduled_days, 9);

    let fresh = Base::new(parameters(true), Card::new(Timestamp::epoch()), now());
    assert_eq!(fresh.current.elapsed_days, 0);
    assert_eq!(fresh.current.reps, 1);
}

#[test]
fn the_record_keeps_what_the_review_found() {
    let scheduler = Scheduler::new(parameters(true), kept(State::Relearning), now());
    let log = scheduler.current_review(Rating::Hard);
    assert_eq!(log.rating, Rating::Hard);
    assert_eq!(log.state, State::Relearning);
    assert_eq!(log.elapsed_days, 10);
    assert_eq!(log.scheduled_days, 9);
    assert_eq!(log.reviewed_date, now());
    let info = scheduler.review(&model([1, 2, 3, 4]), Rating::Hard);
    assert_eq!(info.review_log, log);
    assert_eq!(info.card, scheduler.next_card(&model([1, 2, 3, 4]), Rating::Hard));
}

#[test]
fn a_new_card_takes_steps_of_minutes() {
    let scheduler = Basic::new(parameters(true), Card::new(now()), now());
    let model = model([1, 2, 3, 16]);
    for (rating, seconds) in [(Rating::Again, 60), (Rating::Hard, 300), (Rating::Good, 600)] {
        let card = scheduler.next_card(&model, rating);
        assert_eq!(card.state, State::Learning);
        assert_eq!(card.scheduled_days, 0);
        assert_eq!(card.due, Timestamp::new(now().secs + seconds, 250).unwrap());
        assert_eq!(card.reps, 1);
        assert_eq!(card.lapses, 0);
        assert_eq!(card.last_review, now());
    }
    let easy = scheduler.next_card(&model, Rating::Easy);
    assert_eq!(easy.state, State::Review);
    assert_eq!(easy.scheduled_days, 16);
    assert_eq!(easy.due, now().plus_days(16));
    assert_eq!(number(easy.stability), 8.5);
    assert_eq!(number(easy.difficulty), 4.0);
    assert_eq!(easy, scheduler.review_new(&model, Rating::Easy));
}

#[test]
fn a_learning_step_is_repeated_or_left() {
    for state in [State::Learning, State::Relearning] {
        let scheduler = Basic::new(parameters(true), kept(state), now());
        let model = model([1, 2, 5, 3]);
        let again = scheduler.next_card(&model, Rating::Again);
        assert_eq!((again.state, again.scheduled_days), (state, 0));
        assert_eq!(again.due, now().plus_minutes(5));
        assert_eq!(again.lapses, 1);
        let hard = scheduler.next_card(&model, Rating::Hard);
        assert_eq!((hard.state, hard.scheduled_days), (state, 0));
        assert_eq!(hard.due, now().plus_minutes(10));
        let good = scheduler.next_card(&model, Rating::Good);
        assert_eq!((good.state, good.scheduled_days), (State::Review, 5));
        assert_eq!(good.due, now().plus_days(5));
        let easy = scheduler.next_card(&model, Rating::Easy);
        assert_eq!((easy.state, easy.scheduled_days), (State::Review, 6));
        assert_eq!(easy.due, now().plus_days(6));
        assert_eq!(easy, scheduler.review_learning(&model, Rating::Easy));
    }
}

#[test]
fn easy_is_not_held_back_where_it_is_later_anyway() {
    let scheduler = Basic::new(parameters(true), kept(State::Learning), now());
    let easy = scheduler.next_card(&model([1, 2, 5, 30]), Rating::Easy);
    assert_eq!(easy.scheduled_days, 30);
}

#[test]
fn a_failed_review_counts_a_lapse() {
    let scheduler = Basic::new(parameters(true), kept(State::Review), now());
    let model = model([1, 20, 10, 5]);
    let again = scheduler.next_card(&model, Rating::Again);
    assert_eq!(again.state, State::Relearning);
    assert_eq!(again.scheduled_days, 0);
    assert_eq!(again.due, now().plus_minutes(5));
    assert_eq!(again.lapses, 2);
    assert_eq!(number(again.stability), 0.5);
    assert_eq!(number(again.difficulty), 7.0);
    for rating in [Rating::Hard, Rating::Good, Rating::Easy] {
        let card = scheduler.next_card(&model, rating);
        assert_eq!(card.state, State::Review);
        assert_eq!(card.lapses, 1);
        assert_eq!(card.due, now().plus_days(card.scheduled_days));
        assert_eq!(card, scheduler.review_reviewing(&model, rating));
    }
}

#[test]
fn review_intervals_are_put_in_order() {
    let scheduler = Basic::new(parameters(true), kept(State::Review), now());
    let interval = scheduler.review_intervals(&model([1, 20, 10, 5]));
    assert_eq!(interval, Cards::new(0, 10, 11, 12));
    let kept_apart = scheduler.review_intervals(&model([1, 3, 10, 50]));
    assert_eq!(kept_apart, Cards::new(0, 3, 10, 50));
    let equal = scheduler.review_intervals(&model([9, 9, 9, 9]));
    assert_eq!(equal, Cards::new(0, 9, 10, 11));
    let at_the_limit = scheduler.review_intervals(&model([0, 99999, 99999, 99999]));
    assert_eq!(at_the_limit, Cards::new(0, 36500, 36501, 36502));
}

#[test]
fn longterm_intervals_are_put_in_order() {
    let scheduler = Longterm::new(parameters(false), kept(State::Review), now());
    assert_eq!(scheduler.intervals(&model([30, 20, 10, 5]), 10), Cards::new(20, 21, 22, 23));
    assert_eq!(scheduler.intervals(&model([1, 3, 10, 50]), 10), Cards::new(1, 3, 10, 50));
    assert_eq!(scheduler.intervals(&model([9, 9, 9, 9]), 10), Cards::new(9, 10, 11, 12));
    assert_eq!(scheduler.intervals(&model([0, -4, 0, 0]), 10), Cards::new(1, 2, 3, 4));
    assert_eq!(
        scheduler.intervals(&model([99999, 99999, 99999, 99999]), 10),
        Cards::new(36500, 36501, 36502, 36503)
    );
    for rating in Rating::iter_variants() {
        assert_eq!(
            scheduler.next_interval(&model([30, 20, 10, 5]), 10, rating),
            19 + rating.ordinal() as i64
        );
    }
}

#[test]
fn without_steps_every_review_leads_to_review() {
    for state in [State::New, State::Learning, State::Review, State::Relearning] {
        let scheduler = Scheduler::new(parameters(false), kept(state), now());
        let model = model([30, 20, 10, 5]);
        for rating in Rating::iter_variants() {
            let card = scheduler.next_card(&model, rating);
            assert_eq!(card.state, State::Review);
            assert_eq!(card.scheduled_days, 19 + rating.ordinal() as i64);
            assert_eq!(card.due, now().plus_days(card.scheduled_days));
            assert_eq!(card.lapses, 1);
            assert_eq!(card.reps, 6);
        }
    }
}

#[test]
fn the_four_intervals_are_ordered_whatever_the_model_says() {
    let shapes = [
        [1, 1, 1, 1],
        [4, 3, 2, 1],
        [0, 0, 0, 0],
        [i64::MIN, i64::MAX, i64::MIN, i64::MAX],
        [i64::MAX, i64::MAX, i64::MAX, i64::MAX],
        [7, 7, 100, 7],
        [36500, 36499, 36500, 1],
    ];
    for fuzz in [false, true] {
        for intervals in shapes {
            let estimates = model(intervals);
            for short_term in [true, false] {
                let p = ParametersBuilder::new()
                    .enable_short_term(Some(short_term))
                    .enable_fuzz(Some(fuzz))
                    .build();
                let preview = Scheduler::new(p, kept(State::Review), now()).preview(&estimates);
                let days = preview.map(|(_, info)| info.card.scheduled_days);
                assert!(days.again <= days.hard, "{days:?}");
                assert!(days.hard < days.good, "{days:?}");
                assert!(days.good < days.easy, "{days:?}");
                assert_eq!(days.again == 0, short_term);
            }
        }
    }
}

#[test]
fn memory_is_clamped_whatever_the_model_says() {
    let wild = Cards::new(
        foreseen(-3.0, -1.0, 1),
        foreseen(0.0, 0.0, 1),
        foreseen(1.0e9, 0.05, 1),
        foreseen(f64::INFINITY, f64::NAN, 1),
    );
    for short_term in [true, false] {
        for state in [State::New, State::Learning, State::Review, State::Relearning] {
            let scheduler = Scheduler::new(parameters(short_term), kept(state), now());
            for rating in Rating::iter_variants() {
                let card = scheduler.next_card(&wild, rating);
                let difficulty = number(card.difficulty);
                assert!((1.0..=10.0).contains(&difficulty));
                assert_eq!(number(card.stability), 0.1);
            }
        }
    }
    let scheduler = Scheduler::new(parameters(true), kept(State::Review), now());
    let lost = scheduler.next_card(&Cards::splat(foreseen(f64::NAN, 2.0, 1)), Rating::Good);
    assert!(lost.difficulty.is_nan());
    assert_eq!(number(lost.stability), 2.0);
}

#[test]
fn a_preview_holds_what_each_rating_commits() {
    for short_term in [true, false] {
        for state in [State::New, State::Learning, State::Review, State::Relearning] {
            let fsrs = Fsrs::new(parameters(short_term));
            let estimates = model([3, 2, 8, 8]);
            let all = fsrs.repeat(Some(kept(state)), now(), &estimates);
            assert_eq!(all, fsrs.repeat(Some(kept(state)), now(), &estimates));
            for rating in Rating::iter_variants() {
                let one = fsrs.next(Some(kept(state)), now(), &estimates, rating);
                assert_eq!(all.get(rating), one);
                assert_eq!(one.card, fsrs.next_card(Some(kept(state)), now(), &estimates, rating));
            }
        }
    }
}

#[test]
fn reviews_are_refused_where_they_cannot_be_scheduled() {
    let fsrs = Fsrs::default();
    assert!(fsrs.can_accept(None, now()));
    assert!(fsrs.can_accept(Some(kept(State::Review)), now()));
    assert!(Base::can_accept(&fsrs.parameters, &kept(State::Review), now()));

    let mut worn = kept(State::Review);
    worn.reps = i32::MAX;
    assert!(!fsrs.can_accept(Some(worn), now()));

    let no_days = Fsrs::new(ParametersBuilder::new().maximum_interval(Some(0)).build());
    assert!(!no_days.can_accept(None, now()));

    let late = Timestamp::new(8_210_266_876_799 - 36503 * 86_400 - 86_399, 0).unwrap();
    assert!(!fsrs.can_accept(None, late));
    let in_time = Timestamp::new(8_210_266_876_799 - 36504 * 86_400, 0).unwrap();
    assert!(fsrs.can_accept(None, in_time));
    let last = fsrs.next(None, in_time, &model([99999, 99999, 99999, 99999]), Rating::Easy);
    assert_eq!(last.card.scheduled_days, 36500);
}

#[test]
fn the_last_reachable_review_is_scheduled() {
    let p = ParametersBuilder::new().enable_short_term(Some(false)).build();
    let fsrs = Fsrs::new(p);
    let in_time = Timestamp::new(8_210_266_876_799 - 36504 * 86_400, 0).unwrap();
    let all = fsrs.repeat(None, in_time, &model([99999, 99999, 99999, 99999]));
    assert_eq!(all.easy.card.scheduled_days, 36503);
    assert_eq!(all.easy.card.due.secs, 8_210_266_876_799 - 86_400);
}
