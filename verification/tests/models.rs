use fsrs::next_state;
use fsrs::Binary64;
use fsrs::Card;
use fsrs::Cards;
use fsrs::Fsrs;
use fsrs::Grade;
use fsrs::Parameters;
use fsrs::ParametersBuilder;
use fsrs::Rating;
use fsrs::State;
use fsrs::Timestamp;

fn number(x: Binary64) -> f64 {
    f64::from_bits(x.to_bits())
}

fn bits(x: f64) -> Binary64 {
    Binary64::from_bits(x.to_bits())
}

#[test]
fn ratings_come_in_ascending_order() {
    let all = Rating::iter_variants();
    assert_eq!(all, [Rating::Again, Rating::Hard, Rating::Good, Rating::Easy]);
    assert!(all[0] < all[1] && all[1] < all[2] && all[2] < all[3]);
    for (i, rating) in all.into_iter().enumerate() {
        assert_eq!(rating.ordinal() as usize, i + 1);
        assert_eq!(Rating::from_ordinal(rating.ordinal()), Some(rating));
    }
    assert_eq!(Rating::from_ordinal(0), None);
    assert_eq!(Rating::from_ordinal(5), None);
}

#[test]
fn grades_are_ratings_under_older_names() {
    assert_eq!(Grade::Fail.rating(), Rating::Again);
    assert_eq!(Grade::Hard.rating(), Rating::Hard);
    assert_eq!(Grade::Good.rating(), Rating::Good);
    assert_eq!(Grade::Easy.rating(), Rating::Easy);
}

#[test]
fn a_failed_review_leads_to_relearning() {
    assert_eq!(next_state(Rating::Again), State::Relearning);
    assert_eq!(next_state(Rating::Hard), State::Review);
    assert_eq!(next_state(Rating::Good), State::Review);
    assert_eq!(next_state(Rating::Easy), State::Review);
}

#[test]
fn a_new_card_is_blank_and_due_at_once() {
    let now = Timestamp::new(1_669_725_000, 0).unwrap();
    let card = Card::new(now);
    assert_eq!(card.state, State::New);
    assert_eq!(State::default(), State::New);
    assert_eq!(card.due, now);
    assert_eq!(card.last_review, now);
    assert_eq!(number(card.stability), 0.0);
    assert_eq!(number(card.difficulty), 0.0);
    assert_eq!((card.elapsed_days, card.scheduled_days, card.reps, card.lapses), (0, 0, 0, 0));
    assert_eq!(Card::default(), Card::new(Timestamp::epoch()));
}

#[test]
fn a_new_card_has_no_elapsed_days() {
    let now = Timestamp::new(1_669_725_000, 0).unwrap();
    let mut card = Card::new(now);
    let later = now.plus_days(30);
    assert_eq!(card.elapsed_days(later), 0);
    card.state = State::Review;
    assert_eq!(card.elapsed_days(later), 30);
    card.state = State::Learning;
    assert_eq!(card.elapsed_days(later.plus_minutes(1439)), 30);
    card.state = State::Relearning;
    assert_eq!(card.elapsed_days(now), 0);
}

#[test]
fn a_card_is_reviewable_while_its_counters_have_room() {
    let now = Timestamp::new(1_669_725_000, 0).unwrap();
    let mut card = Card::new(now);
    assert!(card.is_reviewable_at(now));
    card.reps = i32::MAX;
    assert!(!card.is_reviewable_at(now));
    card.reps = 7;
    card.lapses = i32::MAX;
    assert!(!card.is_reviewable_at(now));
    card.lapses = 0;
    card.last_review = Timestamp { secs: i64::MAX, nanos: 0 };
    assert!(card.is_reviewable_at(now));
    card.state = State::Review;
    assert!(!card.is_reviewable_at(now));
    card.last_review = now;
    assert!(!card.is_reviewable_at(Timestamp { secs: 0, nanos: 1_000_000_000 }));
}

#[test]
fn cards_keep_one_value_per_rating() {
    let mut cards = Cards::new(1, 2, 3, 4);
    assert_eq!(cards.into_array(), [1, 2, 3, 4]);
    assert_eq!(cards.as_array(), [&1, &2, &3, &4]);
    assert_eq!(Cards::splat(7), Cards::new(7, 7, 7, 7));
    for rating in Rating::iter_variants() {
        assert_eq!(cards.get(rating), rating.ordinal() as i32);
    }
    cards.set(Rating::Good, 30);
    assert_eq!(cards, Cards::new(1, 2, 30, 4));
    cards.set(Rating::Again, 10);
    cards.set(Rating::Hard, 20);
    cards.set(Rating::Easy, 40);
    assert_eq!(cards, Cards::new(10, 20, 30, 40));
}

#[test]
fn cards_are_indexed_by_rating() {
    let mut cards = Cards::new(1, 2, 3, 4);
    assert_eq!(cards[Rating::Again], 1);
    assert_eq!(cards[Rating::Easy], 4);
    cards[Rating::Hard] = 20;
    cards[Rating::Good] += 30;
    assert_eq!(cards, Cards::new(1, 20, 33, 4));
}

#[test]
fn cards_lend_their_values_for_change() {
    let mut cards = Cards::new(1, 2, 3, 4);
    let [again, hard, good, easy] = cards.as_array_mut();
    *again = 10;
    *easy += *hard + *good;
    assert_eq!(cards, Cards::new(10, 2, 3, 9));
}

#[test]
fn cards_are_made_and_mapped_rating_by_rating() {
    let made = Cards::from_fn(|rating: Rating| rating.ordinal() as i64 * 100);
    assert_eq!(made, Cards::new(100, 200, 300, 400));
    let mapped = made.map(|(rating, value): (Rating, i64)| value + rating.ordinal() as i64);
    assert_eq!(mapped, Cards::new(101, 202, 303, 404));
    let mut updated = mapped;
    updated.update(|(rating, value): (Rating, i64)| if rating == Rating::Again { 0 } else { -value });
    assert_eq!(updated, Cards::new(0, -202, -303, -404));
}

#[test]
fn the_defaults_are_the_published_ones() {
    let p = Parameters::default();
    let expected = [
        0.4072, 1.1829, 3.1262, 15.4722, 7.2102, 0.5316, 1.0651, 0.0234, 1.616, 0.1544, 1.0824,
        1.9813, 0.0953, 0.2975, 2.2042, 0.2407, 2.9466, 0.5034, 0.6567,
    ];
    for (i, w) in expected.into_iter().enumerate() {
        assert_eq!(number(p.w[i]), w);
    }
    assert_eq!(number(p.request_retention), 0.9);
    assert_eq!(p.maximum_interval, 36500);
    assert_eq!(number(p.decay), -0.5);
    assert_eq!(number(p.factor), 19.0 / 81.0);
    assert!(p.enable_short_term);
    assert!(!p.enable_fuzz);
    assert_eq!(p.seed, "RNG");
    assert!(p.is_wf());
    assert_eq!(ParametersBuilder::new().build(), p);
    assert_eq!(Fsrs::default().parameters, p);
    assert_eq!(p.clone(), p);
}

#[test]
fn overrides_replace_the_defaults_one_by_one() {
    let mut w = Parameters::default().w;
    w[0] = bits(0.5);
    let p = ParametersBuilder::new()
        .request_retention(Some(bits(0.85)))
        .maximum_interval(Some(365))
        .weights(Some(w))
        .decay(Some(bits(-0.6)))
        .factor(Some(bits(0.25)))
        .enable_short_term(Some(false))
        .enable_fuzz(Some(true))
        .seed(Some("tests".to_string()))
        .build();
    assert_eq!(number(p.request_retention), 0.85);
    assert_eq!(p.maximum_interval, 365);
    assert_eq!(number(p.w[0]), 0.5);
    assert_eq!(number(p.w[18]), 0.6567);
    assert_eq!(number(p.decay), -0.6);
    assert_eq!(number(p.factor), 0.25);
    assert!(!p.enable_short_term);
    assert!(p.enable_fuzz);
    assert_eq!(p.seed, "tests");

    let back = ParametersBuilder::new()
        .maximum_interval(Some(365))
        .maximum_interval(None)
        .build();
    assert_eq!(back, Parameters::default());
}

#[test]
fn parameters_need_a_longest_interval_of_a_day() {
    assert!(ParametersBuilder::new().maximum_interval(Some(1)).build().is_wf());
    assert!(!ParametersBuilder::new().maximum_interval(Some(0)).build().is_wf());
    assert!(!ParametersBuilder::new().maximum_interval(Some(-5)).build().is_wf());
}

#[test]
fn the_first_stability_is_the_weight_of_the_rating() {
    let p = Parameters::default();
    assert_eq!(number(p.init_stability(Rating::Again)), 0.4072);
    assert_eq!(number(p.init_stability(Rating::Hard)), 1.1829);
    assert_eq!(number(p.init_stability(Rating::Good)), 3.1262);
    assert_eq!(number(p.init_stability(Rating::Easy)), 15.4722);
    let mut w = p.w;
    w[0] = bits(0.05);
    w[1] = bits(-2.0);
    w[2] = bits(f64::NAN);
    let low = ParametersBuilder::new().weights(Some(w)).build();
    assert_eq!(number(low.init_stability(Rating::Again)), 0.1);
    assert_eq!(number(low.init_stability(Rating::Hard)), 0.1);
    assert_eq!(number(low.init_stability(Rating::Good)), 0.1);
    assert_eq!(number(low.init_stability(Rating::Easy)), 15.4722);
}
