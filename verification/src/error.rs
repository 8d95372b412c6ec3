use vstd::prelude::*;

verus! {

/// Every way an operation of the tracker can be refused.
#[derive(Clone, Copy, Debug, PartialEq, Eq, Structural)]
pub enum ContributionError {
    /// The provided contribution type is invalid.
    InvalidContributionType,
    /// The provided severity level is invalid.
    InvalidSeverityLevel,
    /// Points must be between 1 and 10.
    InvalidPointsRange,
    /// Description length exceeds maximum allowed.
    DescriptionTooLong,
    /// The distribution period has not ended yet.
    PeriodNotEnded,
    /// The distribution period has already ended.
    PeriodAlreadyEnded,
    /// The distribution period has already been finalized.
    PeriodAlreadyFinalized,
    /// Cannot claim rewards for future periods.
    FuturePeriodClaim,
    /// Rewards for this period have already been claimed.
    AlreadyClaimed,
    /// Invalid period duration provided.
    InvalidPeriodDuration,
    /// Contribution has already been processed.
    ContributionAlreadyProcessed,
    /// Invalid authority provided.
    InvalidAuthority,
    /// Insufficient points for distribution.
    InsufficientPoints,
    /// Maximum contributions reached for this period.
    MaxContributionsReached,
    /// Contribution not found.
    ContributionNotFound,
    /// Invalid token allocation.
    InvalidTokenAllocation,
    /// Contributor account not initialized.
    ContributorNotInitialized,
    /// Only admin can perform this action.
    UnauthorizedAdmin,
    /// Period transition in progress.
    PeriodTransitionInProgress,
    /// Invalid timestamp provided.
    InvalidTimestamp,
    /// Contribution requires review.
    ContributionRequiresReview,
    /// Invalid contribution status transition.
    InvalidStatusTransition,
    /// Reserve pool calculation error.
    ReservePoolError,
    /// Distribution calculation error.
    DistributionCalculationError,
    /// Period does not exist.
    PeriodDoesNotExist,
    /// Contribution must be approved before points are awarded.
    UnapprovedContribution,
    /// Cannot modify finalized contribution.
    CannotModifyFinalized,
    /// Invalid points threshold.
    InvalidPointsThreshold,
    /// Token transfer failed.
    TokenTransferFailed,
}

} // verus!
