use vstd::prelude::*;
use crate::error::ContributionError;
use crate::state::address::Address;
use crate::state::contribution::Contribution;
use crate::state::contribution_tracker::ContributionTracker;
use crate::state::contributor::{Contributor, ContributorView};
use crate::state::distribution_period::DistributionPeriod;
use crate::state::enums::ContributionStatus;

verus! {

/// The records that a review works on.
#[derive(Clone, Debug, PartialEq, Eq)]
pub struct ReviewContributionAccountConstraints {
    /// The caller.
    pub admin: Address,
    pub contribution_tracker: ContributionTracker,
    /// The period the contribution was submitted in.
    pub current_period: DistributionPeriod,
    /// The record of the contributor who submitted it.
    pub contributor_account: Contributor,
    /// The contribution under review.
    pub contribution: Contribution,
}

/// The first check that a review fails, if any. The checks, in order: the
/// caller is the administrator; the period is not finalized; the
/// contribution is still pending; and, for an approval, none of the four
/// totals that take the points would overflow.
pub open spec fn review_rejection(
    signer: Address,
    tracker: ContributionTracker,
    period: DistributionPeriod,
    contributor: ContributorView,
    contribution: Contribution,
    approve: bool,
) -> Option<ContributionError> {
    let points = contribution.points;
    if signer@ != tracker.admin@ {
        Some(ContributionError::UnauthorizedAdmin)
    } else if period.is_finalized {
        Some(ContributionError::PeriodAlreadyFinalized)
    } else if contribution.status != ContributionStatus::Pending {
        Some(ContributionError::ContributionAlreadyProcessed)
    } else if approve && (period.total_points + points > u64::MAX
        || contributor.total_points_all_time + points > u64::MAX
        || contributor.current_period_points + points > u64::MAX
        || tracker.total_points_all_time + points > u64::MAX) {
        Some(ContributionError::DistributionCalculationError)
    } else {
        None
    }
}

/// The points that a review adds to each total: those of the contribution
/// for an approval, none for a rejection.
pub open spec fn awarded_points(contribution: Contribution, approve: bool) -> u64 {
    if approve {
        contribution.points as u64
    } else {
        0
    }
}

/// The contribution after the review.
pub open spec fn reviewed_contribution(contribution: Contribution, approve: bool) -> Contribution {
    Contribution {
        status: if approve {
            ContributionStatus::Approved
        } else {
            ContributionStatus::Rejected
        },
        ..contribution
    }
}

/// The period after `points` were approved in it.
pub open spec fn period_with_points(period: DistributionPeriod, points: u64) -> DistributionPeriod {
    DistributionPeriod { total_points: (period.total_points + points) as u64, ..period }
}

/// The contributor record after `points` were approved for it.
pub open spec fn contributor_with_points(contributor: ContributorView, points: u64) -> ContributorView {
    ContributorView {
        total_points_all_time: (contributor.total_points_all_time + points) as u64,
        current_period_points: (contributor.current_period_points + points) as u64,
        ..contributor
    }
}

/// The tracker after `points` were approved.
pub open spec fn tracker_with_points(tracker: ContributionTracker, points: u64) -> ContributionTracker {
    ContributionTracker {
        total_points_all_time: (tracker.total_points_all_time + points) as u64,
        ..tracker
    }
}

/// Reviews a pending contribution, once and for all. An approval adds the
/// contribution's points to the period, to both totals of the contributor
/// and to the tracker, all four or none. A rejection only marks the
/// contribution. A refused review changes nothing.
pub fn review_contribution(context: &mut ReviewContributionAccountConstraints, approve: bool) -> (result:
    Result<(), ContributionError>)
    ensures
        match review_rejection(
            old(context).admin,
            old(context).contribution_tracker,
            old(context).current_period,
            old(context).contributor_account@,
            old(context).contribution,
            approve,
        ) {
            Some(e) => result == Err::<(), ContributionError>(e) && *final(context) == *old(context),
            None => {
                let points = awarded_points(old(context).contribution, approve);
                &&& result == Ok::<(), ContributionError>(())
                &&& final(context).admin == old(context).admin
                &&& final(context).contribution == reviewed_contribution(
                    old(context).contribution,
                    approve,
                )
                &&& final(context).current_period == period_with_points(
                    old(context).current_period,
                    points,
                )
                &&& final(context).contributor_account@ == contributor_with_points(
                    old(context).contributor_account@,
                    points,
                )
                &&& final(context).contribution_tracker == tracker_with_points(
                    old(context).contribution_tracker,
                    points,
                )
            },
        },
        final(context).current_period.total_points >= old(context).current_period.total_points,
        old(context).current_period.wf() ==> final(context).current_period.wf(),
        old(context).contributor_account.wf() ==> final(context).contributor_account.wf(),
        old(context).contribution.wf() ==> final(context).contribution.wf(),
        old(context).contribution_tracker.wf() ==> final(context).contribution_tracker.wf(),
{
    if context.admin != context.contribution_tracker.admin {
        return Err(ContributionError::UnauthorizedAdmin);
    }
    if context.current_period.is_finalized {
        return Err(ContributionError::PeriodAlreadyFinalized);
    }
    match context.contribution.status {
        ContributionStatus::Pending => {},
        _ => {
            return Err(ContributionError::ContributionAlreadyProcessed);
        },
    }
    if approve {
        let points = context.contribution.points as u64;
        let period_total = context.current_period.total_points.checked_add(points);
        let all_time = context.contributor_account.total_points_all_time.checked_add(points);
        let current = context.contributor_account.current_period_points.checked_add(points);
        let global = context.contribution_tracker.total_points_all_time.checked_add(points);
        match (period_total, all_time, current, global) {
            (Some(period_total), Some(all_time), Some(current), Some(global)) => {
                context.contribution.status = ContributionStatus::Approved;
                context.current_period.total_points = period_total;
                context.contributor_account.total_points_all_time = all_time;
                context.contributor_account.current_period_points = current;
                context.contribution_tracker.total_points_all_time = global;
            },
            _ => {
                return Err(ContributionError::DistributionCalculationError);
            },
        }
    } else {
        context.contribution.status = ContributionStatus::Rejected;
    }
    Ok(())
}

} // verus!
