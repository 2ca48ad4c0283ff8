use vstd::prelude::*;

verus! {

/// Where a card stands in its learning life cycle.
#[derive(Debug, Clone, Copy, PartialEq, Eq, Structural, PartialOrd, Ord, Hash)]
pub enum State {
    New,
    Learning,
    Review,
    Relearning,
}

impl Default for State {
    fn default() -> (s: State)
        ensures
            s == State::New,
    {
        State::New
    }
}

} // verus!
