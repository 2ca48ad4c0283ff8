//! Spaced-repetition scheduling with machine-checked contracts.
//!
//! The crate holds the discrete part of the scheduler: the review state
//! machine, the reconciliation of intervals, interval fuzzing and the seeded
//! generator behind it. Real-valued quantities (stability, difficulty, the
//! weights) travel through it as [`Binary64`] bit patterns; the memory model
//! that produces them is evaluated by the caller and handed in as an
//! [`Estimate`] per rating.
//!
//! A review takes three steps. [`Fsrs::memory_query`] says what the memory
//! model must be asked; the caller evaluates the model for each rating;
//! [`Fsrs::next`] commits one rating, or [`Fsrs::repeat`] previews all four.
pub mod binary64;
pub mod cards;
pub mod fsrs;
pub mod fuzz_range;
pub mod models;
pub mod parameters;
pub mod parameters_builder;
pub mod prng;
pub mod rounding;
pub mod scheduler;
pub mod time;

pub use binary64::Binary64;
pub use cards::Cards;
pub use fsrs::Fsrs;
pub use fuzz_range::FuzzRange;
pub use models::Card;
pub use models::Estimate;
pub use models::Grade;
pub use models::MemoryQuery;
pub use models::MemoryRule;
pub use models::Rating;
pub use models::Review;
pub use models::ReviewLog;
pub use models::Schedule;
pub use models::SchedulingInfo;
pub use models::State;
pub use parameters::Parameters;
pub use parameters_builder::ParametersBuilder;
pub use prng::alea;
pub use prng::Alea;
pub use prng::Mash;
pub use prng::Prng;
pub use scheduler::next_state;
pub use scheduler::Base;
pub use scheduler::Basic;
pub use scheduler::Longterm;
pub use scheduler::Scheduler;
pub use time::Timestamp;
