//! The value types of the scheduler.
pub mod card;
pub mod estimate;
pub mod grade;
pub mod rating;
pub mod review_log;
pub mod scheduling_info;
pub mod state;

pub use card::Card;
pub use estimate::Estimate;
pub use estimate::MemoryQuery;
pub use estimate::MemoryRule;
pub use grade::Grade;
pub use rating::Rating;
pub use review_log::Review;
pub use review_log::ReviewLog;
pub use scheduling_info::Schedule;
pub use scheduling_info::SchedulingInfo;
pub use state::State;
