use vstd::prelude::*;
use crate::constants::MAX_CONTRIBUTIONS;
use crate::state::address::Address;

verus! {

/// What the tracker knows of one contributor.
#[derive(Clone, Debug, PartialEq, Eq)]
pub struct Contributor {
    /// The contributor's own address.
    pub authority: Address,
    /// Points approved for the contributor since the first contribution.
    pub total_points_all_time: u64,
    /// Points approved since the contributor's last paid claim.
    pub current_period_points: u64,
    /// Index of the last period the contributor has claimed.
    pub last_claimed_period: u64,
    /// Identifiers of the contributor's contributions, oldest first.
    pub contributions: Vec<Address>,
    /// Bump seed of the record's identifier.
    pub bump: u8,
}

/// A contributor record as a mathematical value.
pub struct ContributorView {
    pub authority: Address,
    pub total_points_all_time: u64,
    pub current_period_points: u64,
    pub last_claimed_period: u64,
    pub contributions: Seq<Address>,
    pub bump: u8,
}

impl View for Contributor {
    type V = ContributorView;

    open spec fn view(&self) -> ContributorView {
        ContributorView {
            authority: self.authority,
            total_points_all_time: self.total_points_all_time,
            current_period_points: self.current_period_points,
            last_claimed_period: self.last_claimed_period,
            contributions: self.contributions@,
            bump: self.bump,
        }
    }
}

impl ContributorView {
    /// The list of contributions is within capacity, and the points not yet
    /// claimed are part of the all-time points.
    pub open spec fn wf(&self) -> bool {
        &&& self.contributions.len() <= MAX_CONTRIBUTIONS
        &&& self.current_period_points <= self.total_points_all_time
    }

    /// The record of a contributor of whom nothing is known yet: every
    /// field is zero and the list is empty.
    pub open spec fn is_blank(&self) -> bool {
        &&& forall|i: int| 0 <= i < 32 ==> self.authority@[i] == 0
        &&& self.total_points_all_time == 0
        &&& self.current_period_points == 0
        &&& self.last_claimed_period == 0
        &&& self.contributions.len() == 0
        &&& self.bump == 0
    }
}

impl Contributor {
    /// See [`ContributorView::wf`].
    pub open spec fn wf(&self) -> bool {
        self@.wf()
    }
}

impl Default for Contributor {
    /// The record as the store creates it on a contributor's first
    /// submission: all zero, with no contributions.
    fn default() -> (contributor: Contributor)
        ensures
            contributor@.is_blank(),
            contributor.wf(),
    {
        Contributor {
            authority: Address {
                bytes: [
                    0, 0, 0, 0, 0, 0, 0, 0, 0, 0, 0, 0, 0, 0, 0, 0,
                    0, 0, 0, 0, 0, 0, 0, 0, 0, 0, 0, 0, 0, 0, 0, 0,
                ],
            },
            total_points_all_time: 0,
            current_period_points: 0,
            last_claimed_period: 0,
            contributions: Vec::new(),
            bump: 0,
        }
    }
}

} // verus!
