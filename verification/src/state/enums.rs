use vstd::prelude::*;

verus! {

/// What kind of work a contribution is.
#[derive(Clone, Copy, Debug, PartialEq, Eq, Structural)]
pub enum ContributionType {
    BugFix,
    FeatureDevelopment,
    CodeOptimization,
    BugReport,
    TestContribution,
}

/// How much a contribution matters.
#[derive(Clone, Copy, Debug, PartialEq, Eq, Structural)]
pub enum Severity {
    Minor,
    Medium,
    Major,
    Critical,
}

/// Where a contribution stands in review. `Pending` is the only state a
/// contribution can leave.
#[derive(Clone, Copy, Debug, PartialEq, Eq, Structural)]
pub enum ContributionStatus {
    Pending,
    Approved,
    Rejected,
}

} // verus!
