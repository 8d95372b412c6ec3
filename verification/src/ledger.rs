//! The tracker's records taken together, as a mathematical value, and the
//! operations as steps on that value. The steps are put together from the
//! same functions that the contracts of the operations are stated with, so
//! what is proved of the steps is proved of the operations, as long as each
//! operation is handed the records that belong together: the current
//! period, the period a contribution was submitted in, the record of the
//! contributor it came from.

use vstd::prelude::*;
use crate::handlers::admin::initialize::{
    initial_tracker, initialize_rejection, InitializeTrackerAccountConstraints,
};
use crate::handlers::admin::manage_period::start_rejection;
use crate::handlers::contribution::record::{contributor_after_record, record_rejection};
use crate::handlers::contribution::review::{
    awarded_points, contributor_with_points, period_with_points, review_rejection,
    reviewed_contribution, tracker_with_points,
};
use crate::handlers::distribution::claim::{claim_result, claimed_contributor, claimed_period};
use crate::handlers::distribution::process_period::{
    distribution_result, finalized_period, tracker_with_reserve,
};
use crate::handlers::distribution::transfer::TransferOutcome;
use crate::state::address::Address;
use crate::state::contribution::Contribution;
use crate::state::contribution_tracker::ContributionTracker;
use crate::state::contributor::ContributorView;
use crate::state::distribution_period::DistributionPeriod;
use crate::state::enums::{ContributionStatus, ContributionType, Severity};
use crate::utils::score;

verus! {

/// All the records of one tracker: the tracker itself, its periods by
/// index, its contributors by address, and the contributions in the order
/// in which they were submitted.
pub struct Ledger {
    pub tracker: ContributionTracker,
    pub periods: Seq<DistributionPeriod>,
    pub contributors: Map<Address, ContributorView>,
    pub contributions: Seq<Contribution>,
}

/// One call of an operation, with everything the caller supplies.
pub enum Operation {
    Record {
        signer: Address,
        contribution_type: ContributionType,
        severity: Severity,
        description: String,
        current_time: i64,
        contribution_key: Address,
        contributor_account_bump: u8,
        contribution_bump: u8,
    },
    Review { signer: Address, contribution: nat, approve: bool },
    StartNewPeriod { signer: Address, current_time: i64, next_period_bump: u8 },
    ProcessPeriod { signer: Address, period: nat, current_time: i64, transfer: TransferOutcome },
    Claim { signer: Address, period: nat, transfer: TransferOutcome },
}

/// What a contribution counts towards the period with the given index: its
/// points if it was approved in that period, else nothing.
pub open spec fn counted_points(contribution: Contribution, period_number: u64) -> int {
    if contribution.status == ContributionStatus::Approved && contribution.distribution_period
        == period_number {
        contribution.points as int
    } else {
        0
    }
}

/// The sum of the points of the approved contributions of a period.
pub open spec fn approved_points(contributions: Seq<Contribution>, period_number: u64) -> int
    decreases contributions.len(),
{
    if contributions.len() == 0 {
        0
    } else {
        approved_points(contributions.drop_last(), period_number) + counted_points(
            contributions.last(),
            period_number,
        )
    }
}

/// The record that stands for a contributor of whom the store has none yet.
/// A submission does not read the address in the blank record and writes
/// the signer's there, so it is the signer's from the start here.
pub open spec fn first_record(signer: Address) -> ContributorView {
    ContributorView {
        authority: signer,
        total_points_all_time: 0,
        current_period_points: 0,
        last_claimed_period: 0,
        contributions: Seq::empty(),
        bump: 0,
    }
}

impl Ledger {
    /// The records right after the tracker was set up.
    pub open spec fn initial(tracker: ContributionTracker, period: DistributionPeriod) -> Ledger {
        Ledger {
            tracker,
            periods: seq![period],
            contributors: Map::empty(),
            contributions: Seq::empty(),
        }
    }

    /// The periods are numbered by their place, the last one is the
    /// tracker's current period, and every contribution was submitted in
    /// one of them.
    pub open spec fn wf(self) -> bool {
        &&& self.periods.len() == self.tracker.current_period + 1
        &&& forall|i: int|
            0 <= i < self.periods.len() ==> (#[trigger] self.periods[i]).period_number == i
        &&& forall|i: int|
            0 <= i < self.contributions.len() ==> (
            #[trigger] self.contributions[i]).distribution_period <= self.tracker.current_period
    }

    /// Each period's total is the sum of the points of the contributions
    /// approved in it.
    pub open spec fn totals_agree(self) -> bool {
        forall|i: int|
            0 <= i < self.periods.len() ==> (#[trigger] self.periods[i]).total_points
                == approved_points(self.contributions, i as u64)
    }

    /// The tracker's configuration is valid, and no period has paid out
    /// more than its allocation, or anything at all before it was finalized.
    pub open spec fn payouts_covered(self) -> bool {
        &&& self.tracker.wf()
        &&& forall|i: int| 0 <= i < self.periods.len() ==> (#[trigger] self.periods[i]).wf()
    }

    /// The period that is open.
    pub open spec fn current_period(self) -> DistributionPeriod {
        self.periods[self.tracker.current_period as int]
    }

    /// The signer's contributor record, or the one that stands for it.
    pub open spec fn contributor_of(self, signer: Address) -> ContributorView {
        if self.contributors.dom().contains(signer) {
            self.contributors[signer]
        } else {
            first_record(signer)
        }
    }

    /// A submission by `signer`.
    pub open spec fn record(
        self,
        signer: Address,
        contribution_type: ContributionType,
        severity: Severity,
        description: String,
        current_time: i64,
        contribution_key: Address,
        contributor_account_bump: u8,
        contribution_bump: u8,
    ) -> Ledger {
        let contributor = self.contributor_of(signer);
        if record_rejection(self.current_period(), contributor, description@) is Some {
            self
        } else {
            Ledger {
                contributors: self.contributors.insert(
                    signer,
                    contributor_after_record(
                        contributor,
                        signer,
                        contribution_key,
                        contributor_account_bump,
                    ),
                ),
                contributions: self.contributions.push(
                    Contribution {
                        contributor: signer,
                        distribution_period: self.tracker.current_period,
                        contribution_type,
                        severity,
                        points: score(contribution_type, severity),
                        timestamp: current_time,
                        description,
                        status: ContributionStatus::Pending,
                        bump: contribution_bump,
                    },
                ),
                ..self
            }
        }
    }

    /// A review by `signer` of the contribution at place `index`.
    pub open spec fn review(self, signer: Address, index: nat, approve: bool) -> Ledger {
        if index >= self.contributions.len() {
            self
        } else {
            let contribution = self.contributions[index as int];
            let period = self.periods[contribution.distribution_period as int];
            let contributor = self.contributors[contribution.contributor];
            if !self.contributors.dom().contains(contribution.contributor) || review_rejection(
                signer,
                self.tracker,
                period,
                contributor,
                contribution,
                approve,
            ) is Some {
                self
            } else {
                let points = awarded_points(contribution, approve);
                Ledger {
                    tracker: tracker_with_points(self.tracker, points),
                    periods: self.periods.update(
                        contribution.distribution_period as int,
                        period_with_points(period, points),
                    ),
                    contributors: self.contributors.insert(
                        contribution.contributor,
                        contributor_with_points(contributor, points),
                    ),
                    contributions: self.contributions.update(
                        index as int,
                        reviewed_contribution(contribution, approve),
                    ),
                }
            }
        }
    }

    /// The opening of the next period by `signer`.
    pub open spec fn start_new_period(self, signer: Address, current_time: i64, next_period_bump: u8) -> Ledger {
        if start_rejection(signer, self.tracker, self.current_period(), current_time) is Some {
            self
        } else {
            let next = (self.tracker.current_period + 1) as u64;
            Ledger {
                tracker: ContributionTracker { current_period: next, ..self.tracker },
                periods: self.periods.update(
                    self.tracker.current_period as int,
                    DistributionPeriod { is_finalized: true, ..self.current_period() },
                ).push(
                    DistributionPeriod::opened(
                        next,
                        current_time,
                        self.tracker.period_duration,
                        self.tracker.tokens_per_period,
                        next_period_bump,
                    ),
                ),
                ..self
            }
        }
    }

    /// The finalizing of the period with index `index` by `signer`.
    pub open spec fn process_period(
        self,
        signer: Address,
        index: nat,
        current_time: i64,
        transfer: TransferOutcome,
    ) -> Ledger {
        if index >= self.periods.len() {
            self
        } else {
            match distribution_result(
                signer,
                self.tracker,
                self.periods[index as int],
                current_time,
                transfer,
            ) {
                Err(_) => self,
                Ok(split) => Ledger {
                    tracker: tracker_with_reserve(self.tracker, split.1),
                    periods: self.periods.update(
                        index as int,
                        finalized_period(self.periods[index as int], split.0),
                    ),
                    ..self
                },
            }
        }
    }

    /// A claim by `signer` on the period with index `index`.
    pub open spec fn claim(self, signer: Address, index: nat, transfer: TransferOutcome) -> Ledger {
        if index >= self.periods.len() || !self.contributors.dom().contains(signer) {
            self
        } else {
            match claim_result(
                signer,
                self.periods[index as int],
                self.contributors[signer],
                transfer,
            ) {
                Err(_) => self,
                Ok(reward) => Ledger {
                    periods: self.periods.update(
                        index as int,
                        claimed_period(self.periods[index as int], reward),
                    ),
                    contributors: self.contributors.insert(
                        signer,
                        claimed_contributor(
                            self.contributors[signer],
                            self.periods[index as int].period_number,
                            reward,
                        ),
                    ),
                    ..self
                },
            }
        }
    }

    /// The records after one call.
    pub open spec fn apply(self, operation: Operation) -> Ledger {
        match operation {
            Operation::Record {
                signer,
                contribution_type,
                severity,
                description,
                current_time,
                contribution_key,
                contributor_account_bump,
                contribution_bump,
            } => self.record(
                signer,
                contribution_type,
                severity,
                description,
                current_time,
                contribution_key,
                contributor_account_bump,
                contribution_bump,
            ),
            Operation::Review { signer, contribution, approve } => self.review(
                signer,
                contribution,
                approve,
            ),
            Operation::StartNewPeriod { signer, current_time, next_period_bump } => self.start_new_period(
                signer,
                current_time,
                next_period_bump,
            ),
            Operation::ProcessPeriod { signer, period, current_time, transfer } => self.process_period(
                signer,
                period,
                current_time,
                transfer,
            ),
            Operation::Claim { signer, period, transfer } => self.claim(signer, period, transfer),
        }
    }

    /// The records after a sequence of calls, first to last.
    pub open spec fn run(self, operations: Seq<Operation>) -> Ledger
        decreases operations.len(),
    {
        if operations.len() == 0 {
            self
        } else {
            self.run(operations.drop_last()).apply(operations.last())
        }
    }
}

/// Listing one more contribution adds what it counts.
proof fn lemma_approved_points_push(
    contributions: Seq<Contribution>,
    contribution: Contribution,
    period_number: u64,
)
    ensures
        approved_points(contributions.push(contribution), period_number) == approved_points(
            contributions,
            period_number,
        ) + counted_points(contribution, period_number),
{
    assert(contributions.push(contribution).drop_last() =~= contributions);
}

/// Replacing a contribution replaces what it counts.
proof fn lemma_approved_points_update(
    contributions: Seq<Contribution>,
    index: int,
    contribution: Contribution,
    period_number: u64,
)
    requires
        0 <= index < contributions.len(),
    ensures
        approved_points(contributions.update(index, contribution), period_number)
            == approved_points(contributions, period_number) - counted_points(
            contributions[index],
            period_number,
        ) + counted_points(contribution, period_number),
    decreases contributions.len(),
{
    let updated = contributions.update(index, contribution);
    if index == contributions.len() - 1 {
        assert(updated.drop_last() =~= contributions.drop_last());
    } else {
        lemma_approved_points_update(contributions.drop_last(), index, contribution, period_number);
        assert(updated.drop_last() =~= contributions.drop_last().update(index, contribution));
    }
}

/// A period in which nothing was submitted has no approved points.
proof fn lemma_approved_points_none(contributions: Seq<Contribution>, period_number: u64)
    requires
        forall|i: int|
            0 <= i < contributions.len() ==> (#[trigger] contributions[i]).distribution_period
                != period_number,
    ensures
        approved_points(contributions, period_number) == 0,
    decreases contributions.len(),
{
    if contributions.len() > 0 {
        lemma_approved_points_none(contributions.drop_last(), period_number);
    }
}

/// Right after the tracker was set up, the one period's total agrees with
/// the contributions, of which there are none.
pub proof fn lemma_initial_totals_agree(
    context: InitializeTrackerAccountConstraints,
    period_duration: i64,
    minimum_points_threshold: u32,
    tokens_per_period: u64,
    current_time: i64,
)
    requires
        initialize_rejection(
            period_duration,
            minimum_points_threshold,
            tokens_per_period,
            current_time,
        ) is None,
    ensures
        ({
            let ledger = Ledger::initial(
                initial_tracker(
                    context,
                    period_duration,
                    minimum_points_threshold,
                    tokens_per_period,
                ),
                DistributionPeriod::opened(
                    0,
                    current_time,
                    period_duration,
                    tokens_per_period,
                    context.initial_period_bump,
                ),
            );
            ledger.wf() && ledger.totals_agree() && ledger.payouts_covered()
        }),
{
}

/// No call breaks the agreement: if each period's total is the sum of the
/// points approved in it before a call, it is so after the call, whether
/// the call went through or was refused.
pub proof fn lemma_apply_keeps_totals(ledger: Ledger, operation: Operation)
    requires
        ledger.wf(),
        ledger.totals_agree(),
    ensures
        ledger.apply(operation).wf(),
        ledger.apply(operation).totals_agree(),
{
    let after = ledger.apply(operation);
    match operation {
        Operation::Record {
            signer,
            contribution_type,
            severity,
            description,
            current_time,
            contribution_key,
            contributor_account_bump,
            contribution_bump,
        } => {
            if after != ledger {
                let added = after.contributions.last();
                assert(after.contributions == ledger.contributions.push(added));
                assert forall|i: int| 0 <= i < after.periods.len() implies (
                #[trigger] after.periods[i]).total_points == approved_points(
                    after.contributions,
                    i as u64,
                ) by {
                    lemma_approved_points_push(ledger.contributions, added, i as u64);
                    assert(ledger.periods[i].total_points == approved_points(
                        ledger.contributions,
                        i as u64,
                    ));
                }
            }
        },
        Operation::Review { signer, contribution, approve } => {
            if after != ledger {
                let index = contribution as int;
                let before = ledger.contributions[index];
                let reviewed = reviewed_contribution(before, approve);
                let number = before.distribution_period;
                assert(ledger.contributions[index].distribution_period
                    <= ledger.tracker.current_period);
                assert forall|i: int| 0 <= i < after.periods.len() implies (
                #[trigger] after.periods[i]).total_points == approved_points(
                    after.contributions,
                    i as u64,
                ) by {
                    lemma_approved_points_update(ledger.contributions, index, reviewed, i as u64);
                    assert(ledger.periods[i].total_points == approved_points(
                        ledger.contributions,
                        i as u64,
                    ));
                }
                assert forall|i: int| 0 <= i < after.contributions.len() implies (
                #[trigger] after.contributions[i]).distribution_period
                    <= after.tracker.current_period by {
                    assert(ledger.contributions[i].distribution_period
                        <= ledger.tracker.current_period);
                }
                assert forall|i: int| 0 <= i < after.periods.len() implies (
                #[trigger] after.periods[i]).period_number == i by {
                    assert(ledger.periods[i].period_number == i);
                }
            }
        },
        Operation::StartNewPeriod { signer, current_time, next_period_bump } => {
            if after != ledger {
                let next = (ledger.tracker.current_period + 1) as u64;
                assert forall|i: int| 0 <= i < after.periods.len() implies (
                #[trigger] after.periods[i]).period_number == i by {
                    if i < ledger.periods.len() {
                        assert(ledger.periods[i].period_number == i);
                    }
                }
                assert forall|i: int| 0 <= i < after.contributions.len() implies (
                #[trigger] after.contributions[i]).distribution_period
                    <= after.tracker.current_period by {
                    assert(ledger.contributions[i].distribution_period
                        <= ledger.tracker.current_period);
                }
                assert forall|i: int| 0 <= i < after.periods.len() implies (
                #[trigger] after.periods[i]).total_points == approved_points(
                    after.contributions,
                    i as u64,
                ) by {
                    if i < ledger.periods.len() {
                        assert(ledger.periods[i].total_points == approved_points(
                            ledger.contributions,
                            i as u64,
                        ));
                    } else {
                        assert forall|j: int| 0 <= j < ledger.contributions.len() implies (
                        #[trigger] ledger.contributions[j]).distribution_period != next by {
                            assert(ledger.contributions[j].distribution_period
                                <= ledger.tracker.current_period);
                        }
                        lemma_approved_points_none(ledger.contributions, next);
                    }
                }
            }
        },
        Operation::ProcessPeriod { signer, period, current_time, transfer } => {
            if after != ledger {
                assert forall|i: int| 0 <= i < after.periods.len() implies (
                #[trigger] after.periods[i]).period_number == i && after.periods[i].total_points
                    == approved_points(after.contributions, i as u64) by {
                    assert(ledger.periods[i].period_number == i);
                    assert(ledger.periods[i].total_points == approved_points(
                        ledger.contributions,
                        i as u64,
                    ));
                }
            }
        },
        Operation::Claim { signer, period, transfer } => {
            if after != ledger {
                assert forall|i: int| 0 <= i < after.periods.len() implies (
                #[trigger] after.periods[i]).period_number == i && after.periods[i].total_points
                    == approved_points(after.contributions, i as u64) by {
                    assert(ledger.periods[i].period_number == i);
                    assert(ledger.periods[i].total_points == approved_points(
                        ledger.contributions,
                        i as u64,
                    ));
                }
            }
        },
    }
}

/// After any sequence of submissions, reviews, period changes and claims,
/// each period's total is the sum of the points of the contributions
/// approved in it.
pub proof fn lemma_totals_always_agree(ledger: Ledger, operations: Seq<Operation>)
    requires
        ledger.wf(),
        ledger.totals_agree(),
    ensures
        ledger.run(operations).wf(),
        ledger.run(operations).totals_agree(),
    decreases operations.len(),
{
    if operations.len() > 0 {
        lemma_totals_always_agree(ledger, operations.drop_last());
        lemma_apply_keeps_totals(ledger.run(operations.drop_last()), operations.last());
    }
}

/// No call lets a period pay out more than its allocation: if every period
/// has paid out within its allocation before a call, and nothing before it
/// was finalized, it is so after the call.
pub proof fn lemma_apply_keeps_payouts_covered(ledger: Ledger, operation: Operation)
    requires
        ledger.wf(),
        ledger.payouts_covered(),
    ensures
        ledger.apply(operation).payouts_covered(),
{
    let after = ledger.apply(operation);
    if after != ledger {
        assert forall|i: int| 0 <= i < after.periods.len() implies (
        #[trigger] after.periods[i]).wf() by {
            if i < ledger.periods.len() {
                assert(ledger.periods[i].wf());
            }
        }
    }
}

/// After any sequence of calls, no period has paid out more than its
/// allocation.
pub proof fn lemma_payouts_always_covered(ledger: Ledger, operations: Seq<Operation>)
    requires
        ledger.wf(),
        ledger.totals_agree(),
        ledger.payouts_covered(),
    ensures
        ledger.run(operations).payouts_covered(),
        forall|i: int|
            0 <= i < ledger.run(operations).periods.len() ==> (#[trigger] ledger.run(
                operations,
            ).periods[i]).tokens_distributed <= ledger.run(operations).periods[i].tokens_allocated,
    decreases operations.len(),
{
    if operations.len() > 0 {
        lemma_payouts_always_covered(ledger, operations.drop_last());
        lemma_totals_always_agree(ledger, operations.drop_last());
        lemma_apply_keeps_payouts_covered(ledger.run(operations.drop_last()), operations.last());
    }
    let after = ledger.run(operations);
    assert forall|i: int| 0 <= i < after.periods.len() implies (
    #[trigger] after.periods[i]).tokens_distributed <= after.periods[i].tokens_allocated by {
        assert(after.periods[i].wf());
    }
}

} // verus!
