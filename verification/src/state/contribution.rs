use vstd::prelude::*;
use crate::constants::MAX_DESCRIPTION_LENGTH;
use crate::state::address::Address;
use crate::state::enums::{ContributionStatus, ContributionType, Severity};
use crate::utils::{byte_length, score};

verus! {

/// One submitted contribution and the state of its review.
#[derive(Clone, Debug, PartialEq, Eq)]
pub struct Contribution {
    /// Address of the contributor who submitted it.
    pub contributor: Address,
    /// Index of the period it was submitted in.
    pub distribution_period: u64,
    pub contribution_type: ContributionType,
    pub severity: Severity,
    /// Points fixed at submission, never recomputed.
    pub points: u8,
    /// When it was submitted, in seconds.
    pub timestamp: i64,
    pub description: String,
    pub status: ContributionStatus,
    /// Bump seed of the record's identifier.
    pub bump: u8,
}

impl Contribution {
    /// The points are those of the score table and the description is
    /// within its bound.
    pub open spec fn wf(&self) -> bool {
        &&& self.points == score(self.contribution_type, self.severity)
        &&& byte_length(self.description@) <= MAX_DESCRIPTION_LENGTH
    }
}

} // verus!
