use vstd::prelude::*;

verus! {

/// Longest description a contribution may carry, in bytes.
pub const MAX_DESCRIPTION_LENGTH: usize = 100;

/// Smallest score a single contribution can earn.
pub const MIN_POINTS: u8 = 1;

/// Largest score a single contribution can earn.
pub const MAX_POINTS: u8 = 10;

/// Shortest distribution period: one day, in seconds.
pub const MIN_PERIOD_DURATION: i64 = 86400;

/// Longest distribution period: thirty days, in seconds.
pub const MAX_PERIOD_DURATION: i64 = 2592000;

/// Smallest activity threshold a tracker may be set up with.
pub const MIN_POINTS_THRESHOLD: u32 = 100;

/// Number of contributions one contributor record can list.
pub const MAX_CONTRIBUTIONS: usize = 100;

/// Seed of the tracker's record identifier: the ASCII bytes of `contribution_tracker`.
pub const CONTRIBUTION_TRACKER_SEED: [u8; 20] = [
    99, 111, 110, 116, 114, 105, 98, 117, 116, 105, 111, 110, 95, 116, 114, 97, 99, 107, 101, 114,
];

/// Seed of a period's record identifier: the ASCII bytes of `distribution_period`.
pub const DISTRIBUTION_PERIOD_SEED: [u8; 19] = [
    100, 105, 115, 116, 114, 105, 98, 117, 116, 105, 111, 110, 95, 112, 101, 114, 105, 111, 100,
];

/// Seed of a contributor's record identifier: the ASCII bytes of `contributor`.
pub const CONTRIBUTOR_SEED: [u8; 11] = [99, 111, 110, 116, 114, 105, 98, 117, 116, 111, 114];

/// Seed of a contribution's record identifier: the ASCII bytes of `contribution`.
pub const CONTRIBUTION_SEED: [u8; 12] = [99, 111, 110, 116, 114, 105, 98, 117, 116, 105, 111, 110];

} // verus!
