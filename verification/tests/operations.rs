//! Each operation on its own: every refusal, the order of the checks, and
//! that a refused call leaves the records as they were.

use contribution_tracker::error::ContributionError;
use contribution_tracker::handlers::admin::{
    initialize_tracker, start_new_period, InitializeTrackerAccountConstraints,
    StartNewPeriodAccountConstraints,
};
use contribution_tracker::handlers::contribution::{
    record_contribution, review_contribution, RecordContributionAccountConstraints,
    ReviewContributionAccountConstraints,
};
use contribution_tracker::handlers::distribution::{
    claim_rewards, claimable_reward, planned_distribution, process_period_distribution,
    ClaimRewardsAccountConstraints, ProcessPeriodDistributionAccountConstraints, TransferOutcome,
};
use contribution_tracker::state::{
    Address, Contribution, ContributionStatus, ContributionTracker, ContributionType, Contributor,
    DistributionPeriod, Severity,
};

fn addr(n: u8) -> Address {
    Address::new_from_array([n; 32])
}

fn the_admin() -> Address {
    addr(7)
}

fn the_tracker() -> ContributionTracker {
    ContributionTracker {
        admin: the_admin(),
        current_period: 1,
        period_duration: 86400,
        total_points_all_time: 50,
        minimum_points_threshold: 100,
        reserve_pool_amount: 20,
        tokens_per_period: 1000,
        bump: 255,
    }
}

fn open_period() -> DistributionPeriod {
    DistributionPeriod {
        period_number: 1,
        start_time: 1000,
        end_time: 87400,
        total_points: 40,
        tokens_allocated: 1000,
        tokens_distributed: 0,
        is_finalized: false,
        bump: 254,
    }
}

fn the_contributor() -> Contributor {
    Contributor {
        authority: addr(1),
        total_points_all_time: 30,
        current_period_points: 20,
        last_claimed_period: 0,
        contributions: vec![addr(60), addr(61)],
        bump: 253,
    }
}

fn pending() -> Contribution {
    Contribution {
        contributor: addr(1),
        distribution_period: 1,
        contribution_type: ContributionType::FeatureDevelopment,
        severity: Severity::Major,
        points: 8,
        timestamp: 2000,
        description: String::from("adds batching"),
        status: ContributionStatus::Pending,
        bump: 252,
    }
}

fn init_context() -> InitializeTrackerAccountConstraints {
    InitializeTrackerAccountConstraints {
        admin: the_admin(),
        contribution_tracker_bump: 255,
        initial_period_bump: 254,
    }
}

#[test]
fn initialize_refuses_bad_configuration() {
    let context = init_context();
    assert_eq!(
        initialize_tracker(&context, 86399, 100, 1000, 0),
        Err(ContributionError::InvalidPeriodDuration)
    );
    assert_eq!(
        initialize_tracker(&context, 2592001, 100, 1000, 0),
        Err(ContributionError::InvalidPeriodDuration)
    );
    assert_eq!(
        initialize_tracker(&context, 86400, 99, 1000, 0),
        Err(ContributionError::InvalidPointsThreshold)
    );
    assert_eq!(
        initialize_tracker(&context, 86400, 100, 0, 0),
        Err(ContributionError::InvalidTokenAllocation)
    );
    assert_eq!(
        initialize_tracker(&context, 86400, 100, 1000, i64::MAX - 86399),
        Err(ContributionError::InvalidTimestamp)
    );
    // The checks come in this order.
    assert_eq!(
        initialize_tracker(&context, 1, 0, 0, i64::MAX),
        Err(ContributionError::InvalidPeriodDuration)
    );
    assert_eq!(
        initialize_tracker(&context, 86400, 0, 0, i64::MAX),
        Err(ContributionError::InvalidPointsThreshold)
    );
    assert_eq!(
        initialize_tracker(&context, 86400, 100, 0, i64::MAX),
        Err(ContributionError::InvalidTokenAllocation)
    );
}

#[test]
fn initialize_accepts_the_bounds() {
    let context = init_context();
    let (tracker, period) = initialize_tracker(&context, 2592000, 100, 1, -5).unwrap();
    assert_eq!(tracker.period_duration, 2592000);
    assert_eq!(tracker.minimum_points_threshold, 100);
    assert_eq!(tracker.tokens_per_period, 1);
    assert_eq!(tracker.admin, the_admin());
    assert_eq!(period.start_time, -5);
    assert_eq!(period.end_time, 2591995);
    assert_eq!(period.tokens_allocated, 1);
    let (_, period) =
        initialize_tracker(&context, 86400, u32::MAX, u64::MAX, i64::MAX - 86400).unwrap();
    assert_eq!(period.end_time, i64::MAX);
    assert_eq!(period.tokens_allocated, u64::MAX);
}

fn rollover_context() -> StartNewPeriodAccountConstraints {
    StartNewPeriodAccountConstraints {
        contribution_tracker: the_tracker(),
        current_period: open_period(),
        admin: the_admin(),
        next_period_bump: 100,
    }
}

#[test]
fn start_new_period_refusals_change_nothing() {
    let mut context = rollover_context();
    context.admin = addr(8);
    let before = context;
    assert_eq!(start_new_period(&mut context, 87400), Err(ContributionError::UnauthorizedAdmin));
    assert_eq!(context, before);

    let mut context = rollover_context();
    let before = context;
    assert_eq!(start_new_period(&mut context, 87399), Err(ContributionError::PeriodNotEnded));
    assert_eq!(context, before);

    let mut context = rollover_context();
    context.contribution_tracker.current_period = u64::MAX;
    let before = context;
    assert_eq!(
        start_new_period(&mut context, 87400),
        Err(ContributionError::DistributionCalculationError)
    );
    assert_eq!(context, before);

    let mut context = rollover_context();
    let before = context;
    assert_eq!(
        start_new_period(&mut context, i64::MAX),
        Err(ContributionError::InvalidTimestamp)
    );
    assert_eq!(context, before);
}

#[test]
fn start_new_period_cannot_be_replayed() {
    let mut context = rollover_context();
    let next = start_new_period(&mut context, 87400).unwrap();
    assert_eq!(next, DistributionPeriod::starting_at(2, 87400, 86400, 1000, 100).unwrap());
    assert_eq!(context.contribution_tracker.current_period, 2);
    assert!(context.current_period.is_finalized);
    assert_eq!(context.current_period.total_points, 40);
    assert_eq!(context.current_period.tokens_allocated, 1000);

    let mut replay = StartNewPeriodAccountConstraints {
        contribution_tracker: context.contribution_tracker,
        current_period: next,
        admin: the_admin(),
        next_period_bump: 99,
    };
    let before = replay;
    assert_eq!(start_new_period(&mut replay, 87400), Err(ContributionError::PeriodNotEnded));
    assert_eq!(start_new_period(&mut replay, 87400 + 86399), Err(ContributionError::PeriodNotEnded));
    assert_eq!(replay, before);
    assert!(start_new_period(&mut replay, 87400 + 86400).is_ok());
}

#[test]
fn start_new_period_keeps_a_finalized_period_as_it_is() {
    let mut context = rollover_context();
    context.current_period.is_finalized = true;
    context.current_period.tokens_allocated = 500;
    context.current_period.tokens_distributed = 125;
    let expected = context.current_period;
    assert!(start_new_period(&mut context, 90000).is_ok());
    assert_eq!(context.current_period, expected);
}

fn record_context() -> RecordContributionAccountConstraints {
    RecordContributionAccountConstraints {
        contributor: addr(1),
        contribution_tracker: the_tracker(),
        current_period: open_period(),
        contributor_account: the_contributor(),
        contribution_key: addr(62),
        contributor_account_bump: 11,
        contribution_bump: 12,
    }
}

#[test]
fn record_refusals_change_nothing() {
    let mut context = record_context();
    context.current_period.is_finalized = true;
    let before = context.clone();
    assert_eq!(
        record_contribution(
            &mut context,
            ContributionType::BugFix,
            Severity::Minor,
            "x".repeat(200),
            5
        ),
        Err(ContributionError::PeriodAlreadyFinalized)
    );
    assert_eq!(context, before);

    let mut context = record_context();
    context.contributor_account.contributions = vec![addr(3); 100];
    let before = context.clone();
    assert_eq!(
        record_contribution(
            &mut context,
            ContributionType::BugFix,
            Severity::Minor,
            "x".repeat(101),
            5
        ),
        Err(ContributionError::DescriptionTooLong)
    );
    assert_eq!(
        record_contribution(
            &mut context,
            ContributionType::BugFix,
            Severity::Minor,
            "x".repeat(100),
            5
        ),
        Err(ContributionError::MaxContributionsReached)
    );
    assert_eq!(context, before);
}

#[test]
fn record_fills_the_last_place() {
    let mut context = record_context();
    context.contributor_account.contributions = vec![addr(3); 99];
    let contribution = record_contribution(
        &mut context,
        ContributionType::TestContribution,
        Severity::Major,
        "x".repeat(100),
        -7,
    )
    .unwrap();
    assert_eq!(
        contribution,
        Contribution {
            contributor: addr(1),
            distribution_period: 1,
            contribution_type: ContributionType::TestContribution,
            severity: Severity::Major,
            points: 6,
            timestamp: -7,
            description: "x".repeat(100),
            status: ContributionStatus::Pending,
            bump: 12,
        }
    );
    assert_eq!(context.contributor_account.contributions.len(), 100);
    assert_eq!(context.contributor_account.contributions[99], addr(62));
    assert_eq!(context.contributor_account.bump, 253);
    assert_eq!(context.contributor_account.current_period_points, 20);
    assert_eq!(context.current_period, open_period());
    assert_eq!(context.contribution_tracker, the_tracker());
}

fn review_context() -> ReviewContributionAccountConstraints {
    ReviewContributionAccountConstraints {
        admin: the_admin(),
        contribution_tracker: the_tracker(),
        current_period: open_period(),
        contributor_account: the_contributor(),
        contribution: pending(),
    }
}

#[test]
fn review_approval_adds_the_points_four_times() {
    let mut context = review_context();
    assert_eq!(review_contribution(&mut context, true), Ok(()));
    assert_eq!(context.contribution.status, ContributionStatus::Approved);
    assert_eq!(context.current_period.total_points, 48);
    assert_eq!(context.contributor_account.total_points_all_time, 38);
    assert_eq!(context.contributor_account.current_period_points, 28);
    assert_eq!(context.contribution_tracker.total_points_all_time, 58);
    let mut expected = review_context();
    expected.contribution.status = ContributionStatus::Approved;
    expected.current_period.total_points = 48;
    expected.contributor_account.total_points_all_time = 38;
    expected.contributor_account.current_period_points = 28;
    expected.contribution_tracker.total_points_all_time = 58;
    assert_eq!(context, expected);
}

#[test]
fn review_rejection_only_marks_the_contribution() {
    let mut context = review_context();
    assert_eq!(review_contribution(&mut context, false), Ok(()));
    let mut expected = review_context();
    expected.contribution.status = ContributionStatus::Rejected;
    assert_eq!(context, expected);
}

#[test]
fn review_is_final() {
    for first in [true, false] {
        let mut context = review_context();
        assert_eq!(review_contribution(&mut context, first), Ok(()));
        let before = context.clone();
        for second in [true, false] {
            assert_eq!(
                review_contribution(&mut context, second),
                Err(ContributionError::ContributionAlreadyProcessed)
            );
            assert_eq!(context, before);
        }
    }
}

#[test]
fn review_refusals_change_nothing() {
    let mut context = review_context();
    context.admin = addr(1);
    context.current_period.is_finalized = true;
    context.contribution.status = ContributionStatus::Approved;
    let before = context.clone();
    assert_eq!(review_contribution(&mut context, true), Err(ContributionError::UnauthorizedAdmin));
    assert_eq!(context, before);

    let mut context = review_context();
    context.current_period.is_finalized = true;
    context.contribution.status = ContributionStatus::Rejected;
    let before = context.clone();
    assert_eq!(
        review_contribution(&mut context, false),
        Err(ContributionError::PeriodAlreadyFinalized)
    );
    assert_eq!(context, before);
}

#[test]
fn review_adds_all_four_totals_or_none() {
    let overflowing: [fn(&mut ReviewContributionAccountConstraints); 4] = [
        |c| c.current_period.total_points = u64::MAX - 7,
        |c| c.contributor_account.total_points_all_time = u64::MAX - 7,
        |c| c.contributor_account.current_period_points = u64::MAX - 7,
        |c| c.contribution_tracker.total_points_all_time = u64::MAX - 7,
    ];
    for set in overflowing {
        let mut context = review_context();
        set(&mut context);
        let before = context.clone();
        assert_eq!(
            review_contribution(&mut context, true),
            Err(ContributionError::DistributionCalculationError)
        );
        assert_eq!(context, before);
        // A rejection adds nothing, so it goes through.
        assert_eq!(review_contribution(&mut context, false), Ok(()));
    }
    let mut context = review_context();
    context.current_period.total_points = u64::MAX - 8;
    assert_eq!(review_contribution(&mut context, true), Ok(()));
    assert_eq!(context.current_period.total_points, u64::MAX);
}

fn finalize_context() -> ProcessPeriodDistributionAccountConstraints {
    ProcessPeriodDistributionAccountConstraints {
        admin: the_admin(),
        contribution_tracker: the_tracker(),
        period_to_process: open_period(),
    }
}

#[test]
fn finalize_at_threshold_distributes_everything() {
    let mut context = finalize_context();
    context.period_to_process.total_points = 100;
    assert_eq!(planned_distribution(&context, 87400), Ok((1000, 0)));
    // Nothing goes to the reserve, so no transfer is needed.
    assert_eq!(
        process_period_distribution(&mut context, 87400, TransferOutcome::NotRequested),
        Ok((1000, 0))
    );
    assert_eq!(context.contribution_tracker.reserve_pool_amount, 20);
    assert_eq!(context.period_to_process.tokens_allocated, 1000);
    assert!(context.period_to_process.is_finalized);
}

#[test]
fn finalize_under_threshold_rounds_in_favour_of_the_reserve() {
    let mut context = finalize_context();
    context.period_to_process.total_points = 99;
    context.period_to_process.tokens_allocated = 1001;
    assert_eq!(
        process_period_distribution(&mut context, 90000, TransferOutcome::Completed),
        Ok((500, 501))
    );
    assert_eq!(context.contribution_tracker.reserve_pool_amount, 521);
    assert_eq!(context.period_to_process.tokens_allocated, 500);

    let mut context = finalize_context();
    context.period_to_process.tokens_allocated = 1;
    assert_eq!(
        process_period_distribution(&mut context, 90000, TransferOutcome::Completed),
        Ok((0, 1))
    );
    assert_eq!(context.contribution_tracker.reserve_pool_amount, 21);
    assert_eq!(context.period_to_process.tokens_allocated, 0);
}

#[test]
fn finalize_refusals_change_nothing() {
    let cases: [(fn(&mut ProcessPeriodDistributionAccountConstraints), i64, TransferOutcome, ContributionError); 6] = [
        (|c| c.admin = Address::new_from_array([8u8; 32]), 87400, TransferOutcome::Completed, ContributionError::UnauthorizedAdmin),
        (|c| c.period_to_process.is_finalized = true, 0, TransferOutcome::Completed, ContributionError::PeriodAlreadyFinalized),
        (|_| (), 87399, TransferOutcome::Completed, ContributionError::PeriodNotEnded),
        (|c| c.contribution_tracker.reserve_pool_amount = u64::MAX - 499, 87400, TransferOutcome::Completed, ContributionError::DistributionCalculationError),
        (|_| (), 87400, TransferOutcome::Failed, ContributionError::TokenTransferFailed),
        (|_| (), 87400, TransferOutcome::NotRequested, ContributionError::TokenTransferFailed),
    ];
    for (set, now, transfer, error) in cases {
        let mut context = finalize_context();
        set(&mut context);
        let before = context;
        assert_eq!(process_period_distribution(&mut context, now, transfer), Err(error));
        assert_eq!(context, before);
    }
    let mut context = finalize_context();
    context.contribution_tracker.reserve_pool_amount = u64::MAX - 500;
    assert_eq!(
        process_period_distribution(&mut context, 87400, TransferOutcome::Completed),
        Ok((500, 500))
    );
    assert_eq!(context.contribution_tracker.reserve_pool_amount, u64::MAX);
}

#[test]
fn finalize_runs_once() {
    let mut context = finalize_context();
    assert!(process_period_distribution(&mut context, 87400, TransferOutcome::Completed).is_ok());
    let before = context;
    assert_eq!(
        planned_distribution(&context, 87400),
        Err(ContributionError::PeriodAlreadyFinalized)
    );
    assert_eq!(
        process_period_distribution(&mut context, 87400, TransferOutcome::Completed),
        Err(ContributionError::PeriodAlreadyFinalized)
    );
    assert_eq!(context, before);
}

fn claiming() -> ClaimRewardsAccountConstraints {
    let mut period = open_period();
    period.is_finalized = true;
    ClaimRewardsAccountConstraints {
        contributor: addr(1),
        contribution_tracker: the_tracker(),
        period_to_claim: period,
        contributor_account: the_contributor(),
    }
}

#[test]
fn claim_pays_the_share_and_spends_the_points() {
    let mut context = claiming();
    assert_eq!(claimable_reward(&context), Ok(500));
    assert_eq!(claim_rewards(&mut context, TransferOutcome::Completed), Ok(500));
    let mut expected = claiming();
    expected.contributor_account.current_period_points = 0;
    expected.contributor_account.last_claimed_period = 1;
    expected.period_to_claim.tokens_distributed = 500;
    assert_eq!(context, expected);
}

#[test]
fn claim_without_points_in_period_is_refused() {
    let mut context = claiming();
    context.period_to_claim.total_points = 0;
    let before = context.clone();
    assert_eq!(claimable_reward(&context), Err(ContributionError::InsufficientPoints));
    assert_eq!(
        claim_rewards(&mut context, TransferOutcome::Completed),
        Err(ContributionError::InsufficientPoints)
    );
    assert_eq!(context, before);
    context.contributor_account.current_period_points = 0;
    assert_eq!(
        claim_rewards(&mut context, TransferOutcome::NotRequested),
        Err(ContributionError::InsufficientPoints)
    );
}

#[test]
fn claim_of_nothing_marks_the_period_and_keeps_the_points() {
    let mut context = claiming();
    context.contributor_account.current_period_points = 1;
    context.period_to_claim.total_points = 1000;
    context.period_to_claim.tokens_allocated = 999;
    assert_eq!(claimable_reward(&context), Ok(0));
    assert_eq!(claim_rewards(&mut context, TransferOutcome::NotRequested), Ok(0));
    assert_eq!(context.contributor_account.current_period_points, 1);
    assert_eq!(context.contributor_account.last_claimed_period, 1);
    assert_eq!(context.contributor_account.total_points_all_time, 30);
    assert_eq!(context.period_to_claim.tokens_distributed, 0);
    assert_eq!(
        claim_rewards(&mut context, TransferOutcome::NotRequested),
        Err(ContributionError::AlreadyClaimed)
    );
}

#[test]
fn claim_refusals_change_nothing() {
    let cases: [(fn(&mut ClaimRewardsAccountConstraints), TransferOutcome, ContributionError); 8] = [
        (|c| c.period_to_claim.is_finalized = false, TransferOutcome::Completed, ContributionError::PeriodNotEnded),
        (|c| c.contributor = Address::new_from_array([2u8; 32]), TransferOutcome::Completed, ContributionError::InvalidAuthority),
        (|c| c.contributor_account.last_claimed_period = 1, TransferOutcome::Completed, ContributionError::AlreadyClaimed),
        (|c| c.contributor_account.last_claimed_period = 5, TransferOutcome::Completed, ContributionError::AlreadyClaimed),
        (|c| c.period_to_claim.tokens_distributed = 501, TransferOutcome::Completed, ContributionError::DistributionCalculationError),
        (|c| c.contributor_account.current_period_points = 41, TransferOutcome::Completed, ContributionError::DistributionCalculationError),
        (|_| (), TransferOutcome::Failed, ContributionError::TokenTransferFailed),
        (|_| (), TransferOutcome::NotRequested, ContributionError::TokenTransferFailed),
    ];
    for (set, transfer, error) in cases {
        let mut context = claiming();
        set(&mut context);
        let before = context.clone();
        assert_eq!(claim_rewards(&mut context, transfer), Err(error));
        assert_eq!(context, before);
    }
}

#[test]
fn claim_checks_come_in_order() {
    let mut context = claiming();
    context.period_to_claim.is_finalized = false;
    context.contributor = addr(2);
    context.contributor_account.last_claimed_period = 9;
    context.period_to_claim.total_points = 0;
    assert_eq!(claimable_reward(&context), Err(ContributionError::PeriodNotEnded));
    context.period_to_claim.is_finalized = true;
    assert_eq!(claimable_reward(&context), Err(ContributionError::InvalidAuthority));
    context.contributor = addr(1);
    assert_eq!(claimable_reward(&context), Err(ContributionError::AlreadyClaimed));
    context.contributor_account.last_claimed_period = 0;
    assert_eq!(claimable_reward(&context), Err(ContributionError::InsufficientPoints));
}

#[test]
fn claims_of_two_contributors_stay_within_the_allocation() {
    let mut period = open_period();
    period.is_finalized = true;
    period.total_points = 3;
    period.tokens_allocated = 1000;
    let mut paid = 0;
    for (who, points) in [(addr(1), 1u64), (addr(2), 2u64)] {
        let mut context = ClaimRewardsAccountConstraints {
            contributor: who,
            contribution_tracker: the_tracker(),
            period_to_claim: period,
            contributor_account: Contributor {
                authority: who,
                total_points_all_time: points,
                current_period_points: points,
                last_claimed_period: 0,
                contributions: vec![],
                bump: 1,
            },
        };
        paid += claim_rewards(&mut context, TransferOutcome::Completed).unwrap();
        period = context.period_to_claim;
    }
    assert_eq!(paid, 333 + 666);
    assert_eq!(period.tokens_distributed, 999);
    assert!(period.tokens_distributed <= period.tokens_allocated);
    assert!(period.tokens_allocated - period.tokens_distributed <= period.total_points - 1);
}

#[test]
fn outcome_settles_what_is_due() {
    assert!(TransferOutcome::NotRequested.settles(0));
    assert!(TransferOutcome::Failed.settles(0));
    assert!(TransferOutcome::Completed.settles(0));
    assert!(TransferOutcome::Completed.settles(1));
    assert!(!TransferOutcome::NotRequested.settles(1));
    assert!(!TransferOutcome::Failed.settles(u64::MAX));
}

#[test]
fn period_total_is_the_sum_of_approved_points() {
    let submissions = [
        (ContributionType::BugFix, Severity::Critical, Some(true)),
        (ContributionType::BugReport, Severity::Minor, Some(false)),
        (ContributionType::FeatureDevelopment, Severity::Medium, Some(true)),
        (ContributionType::TestContribution, Severity::Major, None),
        (ContributionType::CodeOptimization, Severity::Critical, Some(true)),
    ];
    let mut tracker = the_tracker();
    tracker.total_points_all_time = 0;
    let mut period = open_period();
    period.total_points = 0;
    let mut account = Contributor::default();
    let mut contributions: Vec<Contribution> = Vec::new();

    for (place, (contribution_type, severity, verdict)) in submissions.into_iter().enumerate() {
        let mut record = RecordContributionAccountConstraints {
            contributor: addr(1),
            contribution_tracker: tracker,
            current_period: period,
            contributor_account: account,
            contribution_key: addr(100 + place as u8),
            contributor_account_bump: 5,
            contribution_bump: 6,
        };
        let contribution = record_contribution(
            &mut record,
            contribution_type,
            severity,
            format!("contribution {}", place),
            2000 + place as i64,
        )
        .unwrap();
        account = record.contributor_account;
        let reviewed = match verdict {
            None => contribution,
            Some(approve) => {
                let mut review = ReviewContributionAccountConstraints {
                    admin: the_admin(),
                    contribution_tracker: tracker,
                    current_period: period,
                    contributor_account: account,
                    contribution,
                };
                assert_eq!(review_contribution(&mut review, approve), Ok(()));
                tracker = review.contribution_tracker;
                period = review.current_period;
                account = review.contributor_account;
                review.contribution
            }
        };
        contributions.push(reviewed);
        let approved: u64 = contributions
            .iter()
            .filter(|c| c.status == ContributionStatus::Approved && c.distribution_period == 1)
            .map(|c| c.points as u64)
            .sum();
        assert_eq!(period.total_points, approved);
    }
    assert_eq!(period.total_points, 10 + 5 + 8);
    assert_eq!(tracker.total_points_all_time, 23);
    assert_eq!(account.current_period_points, 23);
    assert_eq!(account.total_points_all_time, 23);
    assert_eq!(account.contributions.len(), 5);
    assert_eq!(contributions[1].status, ContributionStatus::Rejected);
    assert_eq!(contributions[3].status, ContributionStatus::Pending);
}
