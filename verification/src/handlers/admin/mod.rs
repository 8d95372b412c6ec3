pub mod initialize;
pub mod manage_period;

pub use initialize::{initialize_tracker, InitializeTrackerAccountConstraints};
pub use manage_period::{start_new_period, StartNewPeriodAccountConstraints};
