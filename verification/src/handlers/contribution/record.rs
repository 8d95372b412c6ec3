use vstd::prelude::*;
use crate::constants::{MAX_CONTRIBUTIONS, MAX_DESCRIPTION_LENGTH};
use crate::error::ContributionError;
use crate::state::address::Address;
use crate::state::contribution::Contribution;
use crate::state::contribution_tracker::ContributionTracker;
use crate::state::contributor::{Contributor, ContributorView};
use crate::state::distribution_period::DistributionPeriod;
use crate::state::enums::{ContributionStatus, ContributionType, Severity};
use crate::utils::{byte_length, score, ContributionValidator, PointCalculator, ValidationUtils};

verus! {

/// The records that a submission works on.
#[derive(Clone, Debug, PartialEq, Eq)]
pub struct RecordContributionAccountConstraints {
    /// The caller, who submits for themselves.
    pub contributor: Address,
    pub contribution_tracker: ContributionTracker,
    /// The period that is open now.
    pub current_period: DistributionPeriod,
    /// The caller's contributor record; blank on the first submission.
    pub contributor_account: Contributor,
    /// Identifier under which the store keeps the new contribution.
    pub contribution_key: Address,
    /// Bump seed under which the store keeps the contributor record.
    pub contributor_account_bump: u8,
    /// Bump seed under which the store keeps the new contribution.
    pub contribution_bump: u8,
}

/// The first check that a submission fails, if any. The checks, in order:
/// the current period is not finalized; the description is within its
/// bound; and the contributor's list has room.
pub open spec fn record_rejection(
    current_period: DistributionPeriod,
    contributor: ContributorView,
    description: Seq<char>,
) -> Option<ContributionError> {
    if current_period.is_finalized {
        Some(ContributionError::PeriodAlreadyFinalized)
    } else if byte_length(description) > MAX_DESCRIPTION_LENGTH {
        Some(ContributionError::DescriptionTooLong)
    } else if contributor.contributions.len() >= MAX_CONTRIBUTIONS {
        Some(ContributionError::MaxContributionsReached)
    } else {
        None
    }
}

/// The contributor record after `signer` submitted the contribution stored
/// under `key`: the contribution is listed last, the record belongs to the
/// signer, and it keeps the bump seed it had unless it had none.
pub open spec fn contributor_after_record(
    contributor: ContributorView,
    signer: Address,
    key: Address,
    bump: u8,
) -> ContributorView {
    ContributorView {
        authority: signer,
        contributions: contributor.contributions.push(key),
        bump: if contributor.bump == 0 {
            bump
        } else {
            contributor.bump
        },
        ..contributor
    }
}

/// Submits a contribution to the current period. On success the new
/// contribution is returned, pending review and scored by the score table,
/// and it is listed in the contributor's record. A refused submission
/// changes nothing.
pub fn record_contribution(
    context: &mut RecordContributionAccountConstraints,
    contribution_type: ContributionType,
    severity: Severity,
    description: String,
    current_time: i64,
) -> (result: Result<Contribution, ContributionError>)
    ensures
        match record_rejection(
            old(context).current_period,
            old(context).contributor_account@,
            description@,
        ) {
            Some(e) => result == Err::<Contribution, ContributionError>(e) && *final(context)
                == *old(context),
            None => {
                &&& result == Ok::<Contribution, ContributionError>(
                    Contribution {
                        contributor: old(context).contributor,
                        distribution_period: old(context).contribution_tracker.current_period,
                        contribution_type,
                        severity,
                        points: score(contribution_type, severity),
                        timestamp: current_time,
                        description,
                        status: ContributionStatus::Pending,
                        bump: old(context).contribution_bump,
                    },
                )
                &&& final(context).contributor_account@ == contributor_after_record(
                    old(context).contributor_account@,
                    old(context).contributor,
                    old(context).contribution_key,
                    old(context).contributor_account_bump,
                )
                &&& final(context).contributor == old(context).contributor
                &&& final(context).contribution_tracker == old(context).contribution_tracker
                &&& final(context).current_period == old(context).current_period
                &&& final(context).contribution_key == old(context).contribution_key
                &&& final(context).contributor_account_bump == old(context).contributor_account_bump
                &&& final(context).contribution_bump == old(context).contribution_bump
            },
        },
        result matches Ok(contribution) ==> contribution.wf(),
        old(context).contributor_account.wf() ==> final(context).contributor_account.wf(),
{
    match ValidationUtils::validate_period_state(&context.current_period) {
        Ok(()) => {},
        Err(e) => {
            return Err(e);
        },
    }
    match ValidationUtils::validate_description(description.as_str()) {
        Ok(()) => {},
        Err(e) => {
            return Err(e);
        },
    }
    match ContributionValidator::validate_contributor_capacity(&context.contributor_account) {
        Ok(()) => {},
        Err(e) => {
            return Err(e);
        },
    }
    let points = match PointCalculator::calculate_points(contribution_type, severity) {
        Ok(points) => points,
        Err(e) => {
            return Err(e);
        },
    };
    let contribution = Contribution {
        contributor: context.contributor,
        distribution_period: context.contribution_tracker.current_period,
        contribution_type,
        severity,
        points,
        timestamp: current_time,
        description,
        status: ContributionStatus::Pending,
        bump: context.contribution_bump,
    };
    context.contributor_account.authority = context.contributor;
    context.contributor_account.contributions.push(context.contribution_key);
    if context.contributor_account.bump == 0 {
        context.contributor_account.bump = context.contributor_account_bump;
    }
    Ok(contribution)
}

} // verus!
