use vstd::prelude::*;
use crate::error::ContributionError;
use crate::handlers::distribution::transfer::TransferOutcome;
use crate::state::address::Address;
use crate::state::contribution_tracker::ContributionTracker;
use crate::state::contributor::{Contributor, ContributorView};
use crate::state::distribution_period::DistributionPeriod;
use crate::utils::{reward_share, PointCalculator};

verus! {

/// The records a claim works on.
#[derive(Clone, Debug, PartialEq, Eq)]
pub struct ClaimRewardsAccountConstraints {
    /// The caller, who claims for themselves.
    pub contributor: Address,
    pub contribution_tracker: ContributionTracker,
    /// The period whose tokens are claimed.
    pub period_to_claim: DistributionPeriod,
    /// The caller's contributor record.
    pub contributor_account: Contributor,
}

/// What a claim pays, or the first check it fails. The checks, in order:
/// the period is finalized; the record is the caller's own; the contributor
/// has not yet claimed this period or a later one; the period has points;
/// and a payout, if any, stays within what the period has left.
pub open spec fn claim_quote(
    signer: Address,
    period: DistributionPeriod,
    contributor: ContributorView,
) -> Result<u64, ContributionError> {
    let reward = reward_share(
        contributor.current_period_points,
        period.total_points,
        period.tokens_allocated,
    );
    if !period.is_finalized {
        Err(ContributionError::PeriodNotEnded)
    } else if contributor.authority@ != signer@ {
        Err(ContributionError::InvalidAuthority)
    } else if contributor.last_claimed_period >= period.period_number {
        Err(ContributionError::AlreadyClaimed)
    } else if period.total_points == 0 {
        Err(ContributionError::InsufficientPoints)
    } else if reward > 0 && period.tokens_distributed + reward > period.tokens_allocated {
        Err(ContributionError::DistributionCalculationError)
    } else {
        Ok(reward as u64)
    }
}

/// The result of a claim once the ledger has answered: the quote, unless a
/// payout was due and the ledger did not make it.
pub open spec fn claim_result(
    signer: Address,
    period: DistributionPeriod,
    contributor: ContributorView,
    transfer: TransferOutcome,
) -> Result<u64, ContributionError> {
    match claim_quote(signer, period, contributor) {
        Err(e) => Err(e),
        Ok(reward) => if transfer.covers(reward) {
            Ok(reward)
        } else {
            Err(ContributionError::TokenTransferFailed)
        },
    }
}

/// The contributor record after a claim of `reward` on period
/// `period_number`: the period is marked as claimed, and the points are
/// spent if anything was paid for them.
pub open spec fn claimed_contributor(
    contributor: ContributorView,
    period_number: u64,
    reward: u64,
) -> ContributorView {
    ContributorView {
        last_claimed_period: period_number,
        current_period_points: if reward > 0 {
            0
        } else {
            contributor.current_period_points
        },
        ..contributor
    }
}

/// The period after `reward` tokens were paid out of it.
pub open spec fn claimed_period(period: DistributionPeriod, reward: u64) -> DistributionPeriod {
    DistributionPeriod { tokens_distributed: (period.tokens_distributed + reward) as u64, ..period }
}

/// Says what a claim would pay, without changing anything. A result of
/// `Ok(reward)` with `reward > 0` asks the caller to have the ledger move
/// `reward` tokens from the reward vault to the contributor, once, and then
/// to settle with [`claim_rewards`].
pub fn claimable_reward(context: &ClaimRewardsAccountConstraints) -> (result: Result<
    u64,
    ContributionError,
>)
    ensures
        result == claim_quote(
            context.contributor,
            context.period_to_claim,
            context.contributor_account@,
        ),
{
    let period = &context.period_to_claim;
    let account = &context.contributor_account;
    if !period.is_finalized {
        return Err(ContributionError::PeriodNotEnded);
    }
    if account.authority != context.contributor {
        return Err(ContributionError::InvalidAuthority);
    }
    if account.last_claimed_period >= period.period_number {
        return Err(ContributionError::AlreadyClaimed);
    }
    let reward = match PointCalculator::calculate_token_distribution(
        account.current_period_points,
        period.total_points,
        period.tokens_allocated,
    ) {
        Ok(reward) => reward,
        Err(ContributionError::InsufficientPoints) => {
            return Err(ContributionError::InsufficientPoints);
        },
        Err(_) => {
            return Err(ContributionError::DistributionCalculationError);
        },
    };
    if reward > 0 && (period.tokens_distributed > period.tokens_allocated || reward
        > period.tokens_allocated - period.tokens_distributed) {
        return Err(ContributionError::DistributionCalculationError);
    }
    Ok(reward)
}

/// Settles a claim. On success the period counts as claimed by the
/// contributor; if a reward was paid, the contributor's points are spent
/// and the period's paid-out total grows by the reward. A refused claim
/// changes nothing.
pub fn claim_rewards(context: &mut ClaimRewardsAccountConstraints, transfer: TransferOutcome) -> (result:
    Result<u64, ContributionError>)
    ensures
        result == claim_result(
            old(context).contributor,
            old(context).period_to_claim,
            old(context).contributor_account@,
            transfer,
        ),
        match result {
            Ok(reward) => {
                &&& final(context).contributor_account@ == claimed_contributor(
                    old(context).contributor_account@,
                    old(context).period_to_claim.period_number,
                    reward,
                )
                &&& final(context).period_to_claim == claimed_period(
                    old(context).period_to_claim,
                    reward,
                )
                &&& final(context).contributor == old(context).contributor
                &&& final(context).contribution_tracker == old(context).contribution_tracker
                &&& final(context).contributor_account.last_claimed_period > old(context).contributor_account.last_claimed_period
                &&& final(context).period_to_claim.tokens_distributed == old(context).period_to_claim.tokens_distributed + reward
                &&& reward > 0 ==> final(context).period_to_claim.tokens_distributed <= final(context).period_to_claim.tokens_allocated
            },
            Err(_) => *final(context) == *old(context),
        },
        old(context).period_to_claim.wf() ==> final(context).period_to_claim.wf(),
        old(context).contributor_account.wf() ==> final(context).contributor_account.wf(),
{
    let reward = match claimable_reward(context) {
        Ok(reward) => reward,
        Err(e) => {
            return Err(e);
        },
    };
    if !transfer.settles(reward) {
        return Err(ContributionError::TokenTransferFailed);
    }
    context.contributor_account.last_claimed_period = context.period_to_claim.period_number;
    if reward > 0 {
        context.contributor_account.current_period_points = 0;
        context.period_to_claim.tokens_distributed = context.period_to_claim.tokens_distributed
            + reward;
    }
    Ok(reward)
}

/// No period is claimed twice: once a claim has gone through, a second claim
/// by the same contributor on the same period is refused as already
/// claimed, whatever the ledger says, so it never asks for a transfer.
pub proof fn lemma_claim_not_repeatable(
    signer: Address,
    period: DistributionPeriod,
    contributor: ContributorView,
    transfer: TransferOutcome,
    again: TransferOutcome,
)
    requires
        claim_result(signer, period, contributor, transfer) is Ok,
    ensures
        claim_result(signer, period, contributor, transfer) matches Ok(reward) && {
            let period_after = claimed_period(period, reward);
            let contributor_after = claimed_contributor(contributor, period.period_number, reward);
            &&& claim_quote(signer, period_after, contributor_after) == Err::<
                u64,
                ContributionError,
            >(ContributionError::AlreadyClaimed)
            &&& claim_result(signer, period_after, contributor_after, again) == Err::<
                u64,
                ContributionError,
            >(ContributionError::AlreadyClaimed)
        },
{
}

} // verus!
