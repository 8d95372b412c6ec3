//! The records the tracker keeps: one tracker, and any number of periods,
//! contributors and contributions, each addressed by its own identifier.

pub mod address;
pub mod contribution;
pub mod contribution_tracker;
pub mod contributor;
pub mod distribution_period;
pub mod enums;

pub use address::Address;
pub use contribution::Contribution;
pub use contribution_tracker::ContributionTracker;
pub use contributor::{Contributor, ContributorView};
pub use distribution_period::DistributionPeriod;
pub use enums::{ContributionStatus, ContributionType, Severity};
