pub mod record;
pub mod review;

pub use record::{record_contribution, RecordContributionAccountConstraints};
pub use review::{review_contribution, ReviewContributionAccountConstraints};
