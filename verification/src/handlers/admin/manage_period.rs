use vstd::prelude::*;
use crate::error::ContributionError;
use crate::state::address::Address;
use crate::state::contribution_tracker::ContributionTracker;
use crate::state::distribution_period::DistributionPeriod;

verus! {

/// The records that opening the next period works on.
#[derive(Clone, Copy, Debug, PartialEq, Eq)]
pub struct StartNewPeriodAccountConstraints {
    pub contribution_tracker: ContributionTracker,
    /// The period that is open now.
    pub current_period: DistributionPeriod,
    /// The caller.
    pub admin: Address,
    /// Bump seed under which the store keeps the next period.
    pub next_period_bump: u8,
}

/// The first check that opening the next period fails, if any. The checks,
/// in order: the caller is the administrator; the current period has ended;
/// the next index is representable; and so is the next period's end time.
pub open spec fn start_rejection(
    signer: Address,
    tracker: ContributionTracker,
    current_period: DistributionPeriod,
    current_time: i64,
) -> Option<ContributionError> {
    let end_time = current_time + tracker.period_duration;
    if tracker.admin@ != signer@ {
        Some(ContributionError::UnauthorizedAdmin)
    } else if !current_period.ended_at(current_time) {
        Some(ContributionError::PeriodNotEnded)
    } else if tracker.current_period == u64::MAX {
        Some(ContributionError::DistributionCalculationError)
    } else if !(i64::MIN <= end_time <= i64::MAX) {
        Some(ContributionError::InvalidTimestamp)
    } else {
        None
    }
}

/// Closes the current period and opens the next one at `current_time`.
/// On success the outgoing period is finalized, the tracker points at the
/// next index, and the new period is returned. A refused call changes
/// nothing.
pub fn start_new_period(context: &mut StartNewPeriodAccountConstraints, current_time: i64) -> (result:
    Result<DistributionPeriod, ContributionError>)
    ensures
        match start_rejection(
            old(context).admin,
            old(context).contribution_tracker,
            old(context).current_period,
            current_time,
        ) {
            Some(e) => result == Err::<DistributionPeriod, ContributionError>(e) && *final(context)
                == *old(context),
            None => {
                &&& result == Ok::<DistributionPeriod, ContributionError>(
                    DistributionPeriod::opened(
                        (old(context).contribution_tracker.current_period + 1) as u64,
                        current_time,
                        old(context).contribution_tracker.period_duration,
                        old(context).contribution_tracker.tokens_per_period,
                        old(context).next_period_bump,
                    ),
                )
                &&& *final(context) == (StartNewPeriodAccountConstraints {
                    contribution_tracker: ContributionTracker {
                        current_period: (old(context).contribution_tracker.current_period
                            + 1) as u64,
                        ..old(context).contribution_tracker
                    },
                    current_period: DistributionPeriod {
                        is_finalized: true,
                        ..old(context).current_period
                    },
                    ..*old(context)
                })
            },
        },
        result matches Ok(next) ==> {
            &&& next.period_number == old(context).contribution_tracker.current_period + 1
            &&& next.period_number == final(context).contribution_tracker.current_period
            &&& next.end_time == current_time + old(context).contribution_tracker.period_duration
            &&& old(context).contribution_tracker.wf() ==> next.wf()
        },
        old(context).current_period.wf() ==> final(context).current_period.wf(),
        old(context).contribution_tracker.wf() ==> final(context).contribution_tracker.wf(),
{
    if context.contribution_tracker.admin != context.admin {
        return Err(ContributionError::UnauthorizedAdmin);
    }
    if current_time < context.current_period.end_time {
        return Err(ContributionError::PeriodNotEnded);
    }
    let next_period_number = match context.contribution_tracker.current_period.checked_add(1) {
        Some(number) => number,
        None => {
            return Err(ContributionError::DistributionCalculationError);
        },
    };
    let next_period = match DistributionPeriod::starting_at(
        next_period_number,
        current_time,
        context.contribution_tracker.period_duration,
        context.contribution_tracker.tokens_per_period,
        context.next_period_bump,
    ) {
        Ok(period) => period,
        Err(e) => {
            return Err(e);
        },
    };
    context.current_period.is_finalized = true;
    context.contribution_tracker.current_period = next_period_number;
    Ok(next_period)
}

/// Opening the next period cannot be replayed: once it has gone through at
/// `current_time`, a second call before the new period's end is refused
/// because that period has not ended.
pub proof fn lemma_start_not_replayable(
    signer: Address,
    tracker: ContributionTracker,
    current_period: DistributionPeriod,
    current_time: i64,
    next_period_bump: u8,
    later: i64,
)
    requires
        start_rejection(signer, tracker, current_period, current_time) is None,
        later < current_time + tracker.period_duration,
    ensures
        start_rejection(
            signer,
            ContributionTracker { current_period: (tracker.current_period + 1) as u64, ..tracker },
            DistributionPeriod::opened(
                (tracker.current_period + 1) as u64,
                current_time,
                tracker.period_duration,
                tracker.tokens_per_period,
                next_period_bump,
            ),
            later,
        ) == Some(ContributionError::PeriodNotEnded),
{
}

} // verus!
