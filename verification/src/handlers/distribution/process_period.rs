use vstd::prelude::*;
use crate::error::ContributionError;
use crate::handlers::distribution::transfer::TransferOutcome;
use crate::state::address::Address;
use crate::state::contribution_tracker::ContributionTracker;
use crate::state::distribution_period::DistributionPeriod;

verus! {

/// The records that finalizing a period works on.
#[derive(Clone, Copy, Debug, PartialEq, Eq)]
pub struct ProcessPeriodDistributionAccountConstraints {
    /// The caller.
    pub admin: Address,
    pub contribution_tracker: ContributionTracker,
    /// The period to finalize.
    pub period_to_process: DistributionPeriod,
}

/// How a period's allocation is split at its end: all of it is distributed
/// if the period reached the threshold, else half of it, rounded down. The
/// rest goes to the reserve. The pair is (to distribute, to reserve).
pub open spec fn distribution_split(period: DistributionPeriod, threshold: u32) -> (u64, u64) {
    let distribute = if period.total_points >= threshold {
        period.tokens_allocated
    } else {
        period.tokens_allocated / 2
    };
    (distribute, (period.tokens_allocated - distribute) as u64)
}

/// The split that finalizing would make, or the first check it fails. The
/// checks, in order: the caller is the administrator; the period is not yet
/// finalized; the period has ended; and the reserve pool can take what is
/// withheld.
pub open spec fn distribution_quote(
    signer: Address,
    tracker: ContributionTracker,
    period: DistributionPeriod,
    now: i64,
) -> Result<(u64, u64), ContributionError> {
    let split = distribution_split(period, tracker.minimum_points_threshold);
    if signer@ != tracker.admin@ {
        Err(ContributionError::UnauthorizedAdmin)
    } else if period.is_finalized {
        Err(ContributionError::PeriodAlreadyFinalized)
    } else if !period.ended_at(now) {
        Err(ContributionError::PeriodNotEnded)
    } else if tracker.reserve_pool_amount + split.1 > u64::MAX {
        Err(ContributionError::DistributionCalculationError)
    } else {
        Ok(split)
    }
}

/// The result of finalizing once the ledger has answered: the quote, unless
/// tokens had to go to the reserve and the ledger did not move them.
pub open spec fn distribution_result(
    signer: Address,
    tracker: ContributionTracker,
    period: DistributionPeriod,
    now: i64,
    transfer: TransferOutcome,
) -> Result<(u64, u64), ContributionError> {
    match distribution_quote(signer, tracker, period, now) {
        Err(e) => Err(e),
        Ok(split) => if transfer.covers(split.1) {
            Ok(split)
        } else {
            Err(ContributionError::TokenTransferFailed)
        },
    }
}

/// The tracker after `reserved` tokens were added to the reserve pool.
pub open spec fn tracker_with_reserve(tracker: ContributionTracker, reserved: u64) -> ContributionTracker {
    ContributionTracker {
        reserve_pool_amount: (tracker.reserve_pool_amount + reserved) as u64,
        ..tracker
    }
}

/// The period, finalized with `distribute` tokens left to pay out.
pub open spec fn finalized_period(period: DistributionPeriod, distribute: u64) -> DistributionPeriod {
    DistributionPeriod { tokens_allocated: distribute, is_finalized: true, ..period }
}

/// Says how finalizing would split the period's allocation, without
/// changing anything. A result of `Ok((_, reserve))` with `reserve > 0`
/// asks the caller to have the ledger move `reserve` tokens from the reward
/// vault to the reserve vault, once, and then to settle with
/// [`process_period_distribution`].
pub fn planned_distribution(context: &ProcessPeriodDistributionAccountConstraints, now: i64) -> (result:
    Result<(u64, u64), ContributionError>)
    ensures
        result == distribution_quote(
            context.admin,
            context.contribution_tracker,
            context.period_to_process,
            now,
        ),
        result matches Ok(split) ==> split.0 + split.1 == context.period_to_process.tokens_allocated,
{
    let tracker = &context.contribution_tracker;
    let period = &context.period_to_process;
    if context.admin != tracker.admin {
        return Err(ContributionError::UnauthorizedAdmin);
    }
    if period.is_finalized {
        return Err(ContributionError::PeriodAlreadyFinalized);
    }
    if now < period.end_time {
        return Err(ContributionError::PeriodNotEnded);
    }
    let tokens_to_distribute = if period.total_points >= tracker.minimum_points_threshold as u64 {
        period.tokens_allocated
    } else {
        period.tokens_allocated / 2
    };
    let reserve_amount = period.tokens_allocated - tokens_to_distribute;
    if reserve_amount > u64::MAX - tracker.reserve_pool_amount {
        return Err(ContributionError::DistributionCalculationError);
    }
    Ok((tokens_to_distribute, reserve_amount))
}

/// Finalizes a period. On success the period is locked with the
/// distributable amount as its allocation, and the reserve pool has grown
/// by what was withheld. A refused call changes nothing.
pub fn process_period_distribution(
    context: &mut ProcessPeriodDistributionAccountConstraints,
    now: i64,
    transfer: TransferOutcome,
) -> (result: Result<(u64, u64), ContributionError>)
    ensures
        result == distribution_result(
            old(context).admin,
            old(context).contribution_tracker,
            old(context).period_to_process,
            now,
            transfer,
        ),
        match result {
            Ok(split) => *final(context) == (ProcessPeriodDistributionAccountConstraints {
                contribution_tracker: tracker_with_reserve(old(context).contribution_tracker, split.1),
                period_to_process: finalized_period(old(context).period_to_process, split.0),
                ..*old(context)
            }) && split.0 + split.1 == old(context).period_to_process.tokens_allocated
                && final(context).contribution_tracker.reserve_pool_amount == old(context).contribution_tracker.reserve_pool_amount + split.1,
            Err(_) => *final(context) == *old(context),
        },
        old(context).period_to_process.wf() ==> final(context).period_to_process.wf(),
        old(context).contribution_tracker.wf() ==> final(context).contribution_tracker.wf(),
{
    let (tokens_to_distribute, reserve_amount) = match planned_distribution(context, now) {
        Ok(split) => split,
        Err(e) => {
            return Err(e);
        },
    };
    if !transfer.settles(reserve_amount) {
        return Err(ContributionError::TokenTransferFailed);
    }
    context.contribution_tracker.reserve_pool_amount = context.contribution_tracker.reserve_pool_amount
        + reserve_amount;
    context.period_to_process.tokens_allocated = tokens_to_distribute;
    context.period_to_process.is_finalized = true;
    Ok((tokens_to_distribute, reserve_amount))
}

} // verus!
