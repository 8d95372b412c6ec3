use vstd::prelude::*;
use crate::constants::{MAX_PERIOD_DURATION, MIN_PERIOD_DURATION, MIN_POINTS_THRESHOLD};
use crate::error::ContributionError;
use crate::state::address::Address;
use crate::state::contribution_tracker::ContributionTracker;
use crate::state::distribution_period::DistributionPeriod;
use crate::utils::TimeUtils;

verus! {

/// What setting up a tracker is given besides its configuration.
#[derive(Clone, Copy, Debug, PartialEq, Eq)]
pub struct InitializeTrackerAccountConstraints {
    /// The caller, who becomes the administrator.
    pub admin: Address,
    /// Bump seed under which the store keeps the tracker.
    pub contribution_tracker_bump: u8,
    /// Bump seed under which the store keeps the first period.
    pub initial_period_bump: u8,
}

/// The first check that a configuration fails, if any. The checks, in
/// order: the duration is from one to thirty days; the threshold is at
/// least 100 points; some tokens are allocated per period; and the first
/// period's end is a representable time.
pub open spec fn initialize_rejection(
    period_duration: i64,
    minimum_points_threshold: u32,
    tokens_per_period: u64,
    current_time: i64,
) -> Option<ContributionError> {
    if !(MIN_PERIOD_DURATION <= period_duration <= MAX_PERIOD_DURATION) {
        Some(ContributionError::InvalidPeriodDuration)
    } else if minimum_points_threshold < MIN_POINTS_THRESHOLD {
        Some(ContributionError::InvalidPointsThreshold)
    } else if tokens_per_period == 0 {
        Some(ContributionError::InvalidTokenAllocation)
    } else if current_time + period_duration > i64::MAX {
        Some(ContributionError::InvalidTimestamp)
    } else {
        None
    }
}

/// The tracker as it is right after it was set up.
pub open spec fn initial_tracker(
    context: InitializeTrackerAccountConstraints,
    period_duration: i64,
    minimum_points_threshold: u32,
    tokens_per_period: u64,
) -> ContributionTracker {
    ContributionTracker {
        admin: context.admin,
        current_period: 0,
        period_duration,
        total_points_all_time: 0,
        minimum_points_threshold,
        reserve_pool_amount: 0,
        tokens_per_period,
        bump: context.contribution_tracker_bump,
    }
}

/// Sets up the tracker and opens period 0 at `current_time`. Returns the
/// two new records, or the first check that the configuration fails.
pub fn initialize_tracker(
    context: &InitializeTrackerAccountConstraints,
    period_duration: i64,
    minimum_points_threshold: u32,
    tokens_per_period: u64,
    current_time: i64,
) -> (result: Result<(ContributionTracker, DistributionPeriod), ContributionError>)
    ensures
        match initialize_rejection(
            period_duration,
            minimum_points_threshold,
            tokens_per_period,
            current_time,
        ) {
            Some(e) => result == Err::<(ContributionTracker, DistributionPeriod), ContributionError>(e),
            None => result == Ok::<(ContributionTracker, DistributionPeriod), ContributionError>(
                (
                    initial_tracker(
                        *context,
                        period_duration,
                        minimum_points_threshold,
                        tokens_per_period,
                    ),
                    DistributionPeriod::opened(
                        0,
                        current_time,
                        period_duration,
                        tokens_per_period,
                        context.initial_period_bump,
                    ),
                ),
            ),
        },
        result matches Ok((tracker, period)) ==> {
            &&& tracker.wf()
            &&& period.wf()
            &&& period.period_number == tracker.current_period
            &&& period.end_time == current_time + period_duration
        },
{
    match TimeUtils::validate_period_duration(period_duration) {
        Ok(()) => {},
        Err(e) => {
            return Err(e);
        },
    }
    if minimum_points_threshold < MIN_POINTS_THRESHOLD {
        return Err(ContributionError::InvalidPointsThreshold);
    }
    if tokens_per_period == 0 {
        return Err(ContributionError::InvalidTokenAllocation);
    }
    let initial_period = match DistributionPeriod::starting_at(
        0,
        current_time,
        period_duration,
        tokens_per_period,
        context.initial_period_bump,
    ) {
        Ok(period) => period,
        Err(e) => {
            return Err(e);
        },
    };
    let tracker = ContributionTracker {
        admin: context.admin,
        current_period: 0,
        period_duration,
        total_points_all_time: 0,
        minimum_points_threshold,
        reserve_pool_amount: 0,
        tokens_per_period,
        bump: context.contribution_tracker_bump,
    };
    Ok((tracker, initial_period))
}

} // verus!
