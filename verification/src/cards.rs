//! One value per rating.
use vstd::prelude::*;
use crate::models::rating::Rating;

verus! {

/// Four values of one kind, one for each rating.
#[derive(Debug, Clone, Copy, PartialEq, Eq, PartialOrd, Ord, Hash)]
pub struct Cards<T: Copy> {
    pub again: T,
    pub hard: T,
    pub good: T,
    pub easy: T,
}

impl<T: Copy> Cards<T> {
    /// The value kept for `rating`.
    pub open spec fn spec_get(self, rating: Rating) -> T {
        match rating {
            Rating::Again => self.again,
            Rating::Hard => self.hard,
            Rating::Good => self.good,
            Rating::Easy => self.easy,
        }
    }

    /// The four values with the one for `rating` replaced.
    pub open spec fn spec_set(self, rating: Rating, value: T) -> Cards<T> {
        match rating {
            Rating::Again => Cards { again: value, ..self },
            Rating::Hard => Cards { hard: value, ..self },
            Rating::Good => Cards { good: value, ..self },
            Rating::Easy => Cards { easy: value, ..self },
        }
    }

    pub fn new(again: T, hard: T, good: T, easy: T) -> (cards: Self)
        ensures
            cards == (Cards { again, hard, good, easy }),
    {
        Self { again, hard, good, easy }
    }

    /// The same value for every rating.
    pub fn splat(t: T) -> (cards: Self)
        ensures
            cards == (Cards { again: t, hard: t, good: t, easy: t }),
    {
        Self::new(t, t, t, t)
    }

    /// For every rating the value that `f` gives for it; `f` is called once
    /// per rating, in ascending order.
    pub fn from_fn<F: Fn(Rating) -> T>(f: F) -> (cards: Self)
        requires
            forall|rating: Rating| call_requires(f, (rating,)),
        ensures
            forall|rating: Rating| call_ensures(f, (rating,), #[trigger] cards.spec_get(rating)),
    {
        let again = f(Rating::Again);
        let hard = f(Rating::Hard);
        let good = f(Rating::Good);
        let easy = f(Rating::Easy);
        let cards = Self::new(again, hard, good, easy);
        assert forall|rating: Rating| call_ensures(f, (rating,), #[trigger] cards.spec_get(rating)) by {
            match rating {
                Rating::Again => {},
                Rating::Hard => {},
                Rating::Good => {},
                Rating::Easy => {},
            }
        }
        cards
    }

    /// The four values in ascending order of their ratings.
    pub fn into_array(self) -> (all: [T; 4])
        ensures
            all@ == seq![self.again, self.hard, self.good, self.easy],
    {
        let all = [self.again, self.hard, self.good, self.easy];
        assert(all@ =~= seq![self.again, self.hard, self.good, self.easy]);
        all
    }

    /// References to the four values in ascending order of their ratings.
    pub fn as_array(&self) -> (all: [&T; 4])
        ensures
            all@ == seq![&self.again, &self.hard, &self.good, &self.easy],
    {
        let all = [&self.again, &self.hard, &self.good, &self.easy];
        assert(all@ =~= seq![&self.again, &self.hard, &self.good, &self.easy]);
        all
    }

    /// Mutable references to the four values in ascending order of their
    /// ratings.
    pub fn as_array_mut(&mut self) -> (all: [&mut T; 4])
        ensures
            *all[0] == old(self).again,
            *all[1] == old(self).hard,
            *all[2] == old(self).good,
            *all[3] == old(self).easy,
            final(self).again == *final(all[0]),
            final(self).hard == *final(all[1]),
            final(self).good == *final(all[2]),
            final(self).easy == *final(all[3]),
    {
        [&mut self.again, &mut self.hard, &mut self.good, &mut self.easy]
    }

    /// The value kept for `rating`.
    pub fn get(&self, rating: Rating) -> (value: T)
        ensures
            value == self.spec_get(rating),
    {
        match rating {
            Rating::Again => self.again,
            Rating::Hard => self.hard,
            Rating::Good => self.good,
            Rating::Easy => self.easy,
        }
    }

    /// Replaces the value kept for `rating`.
    pub fn set(&mut self, rating: Rating, value: T)
        ensures
            *final(self) == old(self).spec_set(rating, value),
    {
        match rating {
            Rating::Again => self.again = value,
            Rating::Hard => self.hard = value,
            Rating::Good => self.good = value,
            Rating::Easy => self.easy = value,
        }
    }

    /// For every rating what `f` makes of the rating and its value.
    pub fn map<R: Copy, F: Fn((Rating, T)) -> R>(self, f: F) -> (mapped: Cards<R>)
        requires
            forall|rating: Rating| call_requires(f, ((rating, #[trigger] self.spec_get(rating)),)),
        ensures
            forall|rating: Rating|
                call_ensures(
                    f,
                    ((rating, self.spec_get(rating)),),
                    #[trigger] mapped.spec_get(rating),
                ),
    {
        assert(self.spec_get(Rating::Again) == self.again);
        assert(self.spec_get(Rating::Hard) == self.hard);
        assert(self.spec_get(Rating::Good) == self.good);
        assert(self.spec_get(Rating::Easy) == self.easy);
        let again = f((Rating::Again, self.again));
        let hard = f((Rating::Hard, self.hard));
        let good = f((Rating::Good, self.good));
        let easy = f((Rating::Easy, self.easy));
        let mapped = Cards::new(again, hard, good, easy);
        assert forall|rating: Rating|
            call_ensures(
                f,
                ((rating, self.spec_get(rating)),),
                #[trigger] mapped.spec_get(rating),
            ) by {
            match rating {
                Rating::Again => {},
                Rating::Hard => {},
                Rating::Good => {},
                Rating::Easy => {},
            }
        }
        mapped
    }

    /// Replaces every value by what `f` makes of its rating and the value.
    pub fn update<F: Fn((Rating, T)) -> T>(&mut self, f: F)
        requires
            forall|rating: Rating|
                call_requires(f, ((rating, #[trigger] old(self).spec_get(rating)),)),
        ensures
            forall|rating: Rating|
                call_ensures(
                    f,
                    ((rating, old(self).spec_get(rating)),),
                    #[trigger] final(self).spec_get(rating),
                ),
    {
        let mapped = self.map(f);
        *self = mapped;
    }
}

impl<T: Copy> std::ops::Index<Rating> for Cards<T> {
    type Output = T;

    fn index(&self, index: Rating) -> (value: &T)
        ensures
            *value == self.spec_get(index),
    {
        match index {
            Rating::Again => &self.again,
            Rating::Hard => &self.hard,
            Rating::Good => &self.good,
            Rating::Easy => &self.easy,
        }
    }
}

impl<T: Copy> std::ops::IndexMut<Rating> for Cards<T> {
    fn index_mut(&mut self, index: Rating) -> (value: &mut T)
        ensures
            *value == old(self).spec_get(index),
            *final(self) == old(self).spec_set(index, *final(value)),
    {
        match index {
            Rating::Again => &mut self.again,
            Rating::Hard => &mut self.hard,
            Rating::Good => &mut self.good,
            Rating::Easy => &mut self.easy,
        }
    }
}

} // verus!
