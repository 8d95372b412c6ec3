use vstd::prelude::*;
use crate::constants::{MAX_PERIOD_DURATION, MIN_PERIOD_DURATION, MIN_POINTS_THRESHOLD};
use crate::state::address::Address;

verus! {

/// The one record that holds the configuration and the running totals.
#[derive(Clone, Copy, Debug, PartialEq, Eq)]
pub struct ContributionTracker {
    /// Who may administer the tracker.
    pub admin: Address,
    /// Index of the period that is currently open.
    pub current_period: u64,
    /// Length of every period, in seconds.
    pub period_duration: i64,
    /// Points approved since the tracker was set up.
    pub total_points_all_time: u64,
    /// Points a period needs for its whole allocation to be distributed.
    pub minimum_points_threshold: u32,
    /// Tokens withheld so far from periods that stayed under the threshold.
    pub reserve_pool_amount: u64,
    /// Tokens allocated to each new period.
    pub tokens_per_period: u64,
    /// Bump seed of the record's identifier.
    pub bump: u8,
}

impl ContributionTracker {
    /// The configuration is one that setting up a tracker accepts.
    pub open spec fn wf(&self) -> bool {
        &&& MIN_PERIOD_DURATION <= self.period_duration <= MAX_PERIOD_DURATION
        &&& self.minimum_points_threshold >= MIN_POINTS_THRESHOLD
        &&& self.tokens_per_period > 0
    }
}

} // verus!
