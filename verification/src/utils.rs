//! The stateless rules: input validation, the score table, the reward
//! formula, and the identifiers under which records are stored.

use vstd::prelude::*;
use vstd::bytes::{spec_u64_to_le_bytes, u64_to_le_bytes};
use vstd::slice::slice_to_vec;
use vstd::utf8::encode_utf8;
use crate::constants::{
    CONTRIBUTION_SEED, CONTRIBUTION_TRACKER_SEED, CONTRIBUTOR_SEED, DISTRIBUTION_PERIOD_SEED,
    MAX_CONTRIBUTIONS, MAX_DESCRIPTION_LENGTH, MAX_PERIOD_DURATION, MAX_POINTS, MIN_PERIOD_DURATION,
    MIN_POINTS,
};
use crate::error::ContributionError;
use crate::state::address::Address;
use crate::state::contributor::Contributor;
use crate::state::distribution_period::DistributionPeriod;
use crate::state::enums::{ContributionStatus, ContributionType, Severity};

verus! {

/// Number of bytes a text takes in UTF-8.
pub open spec fn byte_length(text: Seq<char>) -> nat {
    encode_utf8(text).len()
}

/// The score table: points earned by a contribution of the given type and
/// severity.
pub open spec fn score(contribution_type: ContributionType, severity: Severity) -> u8 {
    match (contribution_type, severity) {
        (ContributionType::BugFix, Severity::Minor) => 2,
        (ContributionType::BugFix, Severity::Medium) => 4,
        (ContributionType::BugFix, Severity::Major) => 7,
        (ContributionType::BugFix, Severity::Critical) => 10,
        (ContributionType::FeatureDevelopment, Severity::Minor) => 3,
        (ContributionType::FeatureDevelopment, Severity::Medium) => 5,
        (ContributionType::FeatureDevelopment, Severity::Major) => 8,
        (ContributionType::FeatureDevelopment, Severity::Critical) => 10,
        (ContributionType::CodeOptimization, Severity::Minor) => 2,
        (ContributionType::CodeOptimization, Severity::Medium) => 4,
        (ContributionType::CodeOptimization, Severity::Major) => 7,
        (ContributionType::CodeOptimization, Severity::Critical) => 8,
        (ContributionType::BugReport, Severity::Minor) => 1,
        (ContributionType::BugReport, Severity::Medium) => 3,
        (ContributionType::BugReport, Severity::Major) => 6,
        (ContributionType::BugReport, Severity::Critical) => 9,
        (ContributionType::TestContribution, Severity::Minor) => 2,
        (ContributionType::TestContribution, Severity::Medium) => 4,
        (ContributionType::TestContribution, Severity::Major) => 6,
        (ContributionType::TestContribution, Severity::Critical) => 7,
    }
}

/// A contributor's share of a period's tokens: the pool times the
/// contributor's points over the period's points, rounded down.
pub open spec fn reward_share(user_points: u64, total_points: u64, token_pool: u64) -> int
    recommends
        total_points > 0,
{
    (user_points as int * token_pool as int) / (total_points as int)
}

pub struct ValidationUtils;

impl ValidationUtils {
    /// Accepts point values from 1 to 10.
    pub fn validate_points(points: u8) -> (result: Result<(), ContributionError>)
        ensures
            result == if MIN_POINTS <= points <= MAX_POINTS {
                Ok::<(), ContributionError>(())
            } else {
                Err(ContributionError::InvalidPointsRange)
            },
    {
        if points >= MIN_POINTS && points <= MAX_POINTS {
            Ok(())
        } else {
            Err(ContributionError::InvalidPointsRange)
        }
    }

    /// Accepts descriptions of at most 100 bytes.
    pub fn validate_description(description: &str) -> (result: Result<(), ContributionError>)
        ensures
            result == if byte_length(description@) <= MAX_DESCRIPTION_LENGTH {
                Ok::<(), ContributionError>(())
            } else {
                Err(ContributionError::DescriptionTooLong)
            },
    {
        if description.as_bytes().len() <= MAX_DESCRIPTION_LENGTH {
            Ok(())
        } else {
            Err(ContributionError::DescriptionTooLong)
        }
    }

    /// Accepts the signer that is the administrator.
    pub fn validate_admin(admin: &Address, signer: &Address) -> (result: Result<
        (),
        ContributionError,
    >)
        ensures
            result == if admin@ == signer@ {
                Ok::<(), ContributionError>(())
            } else {
                Err(ContributionError::UnauthorizedAdmin)
            },
    {
        if admin == signer {
            Ok(())
        } else {
            Err(ContributionError::UnauthorizedAdmin)
        }
    }

    /// Accepts a period that is not finalized.
    pub fn validate_period_state(period: &DistributionPeriod) -> (result: Result<
        (),
        ContributionError,
    >)
        ensures
            result == if !period.is_finalized {
                Ok::<(), ContributionError>(())
            } else {
                Err(ContributionError::PeriodAlreadyFinalized)
            },
    {
        if !period.is_finalized {
            Ok(())
        } else {
            Err(ContributionError::PeriodAlreadyFinalized)
        }
    }
}

pub struct TimeUtils;

impl TimeUtils {
    /// Accepts durations from one day to thirty days, in seconds.
    pub fn validate_period_duration(duration: i64) -> (result: Result<(), ContributionError>)
        ensures
            result == if MIN_PERIOD_DURATION <= duration <= MAX_PERIOD_DURATION {
                Ok::<(), ContributionError>(())
            } else {
                Err(ContributionError::InvalidPeriodDuration)
            },
    {
        if duration >= MIN_PERIOD_DURATION && duration <= MAX_PERIOD_DURATION {
            Ok(())
        } else {
            Err(ContributionError::InvalidPeriodDuration)
        }
    }

    /// Whether the period's end time has been reached at `current_time`.
    pub fn is_period_ended(period: &DistributionPeriod, current_time: i64) -> (ended: bool)
        ensures
            ended == period.ended_at(current_time),
    {
        current_time >= period.end_time
    }
}

pub struct PointCalculator;

impl PointCalculator {
    /// Looks the pair up in the score table. The table is total and every
    /// entry is in range, so the lookup never fails.
    pub fn calculate_points(contribution_type: ContributionType, severity: Severity) -> (result:
        Result<u8, ContributionError>)
        ensures
            result == Ok::<u8, ContributionError>(score(contribution_type, severity)),
            MIN_POINTS <= score(contribution_type, severity) <= MAX_POINTS,
    {
        let points: u8 = match (contribution_type, severity) {
            (ContributionType::BugFix, Severity::Minor) => 2,
            (ContributionType::BugFix, Severity::Medium) => 4,
            (ContributionType::BugFix, Severity::Major) => 7,
            (ContributionType::BugFix, Severity::Critical) => 10,
            (ContributionType::FeatureDevelopment, Severity::Minor) => 3,
            (ContributionType::FeatureDevelopment, Severity::Medium) => 5,
            (ContributionType::FeatureDevelopment, Severity::Major) => 8,
            (ContributionType::FeatureDevelopment, Severity::Critical) => 10,
            (ContributionType::CodeOptimization, Severity::Minor) => 2,
            (ContributionType::CodeOptimization, Severity::Medium) => 4,
            (ContributionType::CodeOptimization, Severity::Major) => 7,
            (ContributionType::CodeOptimization, Severity::Critical) => 8,
            (ContributionType::BugReport, Severity::Minor) => 1,
            (ContributionType::BugReport, Severity::Medium) => 3,
            (ContributionType::BugReport, Severity::Major) => 6,
            (ContributionType::BugReport, Severity::Critical) => 9,
            (ContributionType::TestContribution, Severity::Minor) => 2,
            (ContributionType::TestContribution, Severity::Medium) => 4,
            (ContributionType::TestContribution, Severity::Major) => 6,
            (ContributionType::TestContribution, Severity::Critical) => 7,
        };
        match ValidationUtils::validate_points(points) {
            Ok(()) => Ok(points),
            Err(e) => Err(e),
        }
    }

    /// The share of `token_pool` owed for `user_points` out of
    /// `total_points`, computed in 128 bits. Refused with
    /// `InsufficientPoints` when the period has no points, and with
    /// `DistributionCalculationError` when the share does not fit in 64 bits.
    pub fn calculate_token_distribution(user_points: u64, total_points: u64, token_pool: u64) -> (result:
        Result<u64, ContributionError>)
        ensures
            result == if total_points == 0 {
                Err::<u64, ContributionError>(ContributionError::InsufficientPoints)
            } else if reward_share(user_points, total_points, token_pool) > u64::MAX {
                Err(ContributionError::DistributionCalculationError)
            } else {
                Ok(reward_share(user_points, total_points, token_pool) as u64)
            },
    {
        if total_points == 0 {
            return Err(ContributionError::InsufficientPoints);
        }
        assert(user_points as int * token_pool as int <= u128::MAX) by (nonlinear_arith)
            requires
                user_points <= u64::MAX,
                token_pool <= u64::MAX,
        ;
        assert(0 <= user_points as int * token_pool as int) by (nonlinear_arith);
        let product: u128 = (user_points as u128) * (token_pool as u128);
        let share: u128 = product / (total_points as u128);
        if share > u64::MAX as u128 {
            Err(ContributionError::DistributionCalculationError)
        } else {
            Ok(share as u64)
        }
    }
}

/// The program-derived address for `seeds` under the program `program_id`,
/// with the bump seed that yields it; `None` when the seeds admit none.
pub uninterp spec fn program_address(seeds: Seq<Seq<u8>>, program_id: Seq<u8>) -> Option<
    (Seq<u8>, u8),
>;

/// The seeds held by a list of byte vectors.
pub open spec fn seed_views(seeds: Seq<Vec<u8>>) -> Seq<Seq<u8>> {
    Seq::new(seeds.len(), |i: int| seeds[i]@)
}

/// `found` is the program-derived address for `seeds` under `program_id`.
pub open spec fn is_program_address(
    found: Option<(Address, u8)>,
    seeds: Seq<Seq<u8>>,
    program_id: Address,
) -> bool {
    match found {
        Some((address, bump)) => program_address(seeds, program_id@) == Some((address@, bump)),
        None => program_address(seeds, program_id@) is None,
    }
}

/// Seeds of the tracker's identifier.
pub open spec fn tracker_seeds() -> Seq<Seq<u8>> {
    seq![CONTRIBUTION_TRACKER_SEED@]
}

/// Seeds of the identifier of the period with the given index.
pub open spec fn period_seeds(period_number: u64) -> Seq<Seq<u8>> {
    seq![DISTRIBUTION_PERIOD_SEED@, spec_u64_to_le_bytes(period_number)]
}

/// Seeds of the identifier of the record of the given contributor.
pub open spec fn contributor_seeds(authority: Address) -> Seq<Seq<u8>> {
    seq![CONTRIBUTOR_SEED@, authority@]
}

/// Seeds of the identifier of a contribution: its contributor, its period,
/// and its place in the contributor's list.
pub open spec fn contribution_seeds(contributor: Address, period_number: u64, sequence: u64) -> Seq<
    Seq<u8>,
> {
    seq![
        CONTRIBUTION_SEED@,
        contributor@,
        spec_u64_to_le_bytes(period_number),
        spec_u64_to_le_bytes(sequence),
    ]
}

/// Calls `Pubkey::try_find_program_address` of `anchor_lang`. Trusted: the
/// result is the program-derived address that the seeds determine under the
/// program, with its bump seed, and `None` where the search finds none. The
/// search depends on nothing but the seeds and the program's address.
#[verifier::external_body]
fn find_address(seeds: &Vec<Vec<u8>>, program_id: &Address) -> (found: Option<(Address, u8)>)
    ensures
        match found {
            Some((address, bump)) => program_address(seed_views(seeds@), program_id@) == Some(
                (address@, bump),
            ),
            None => program_address(seed_views(seeds@), program_id@) is None,
        },
{
    let mut slices: Vec<&[u8]> = Vec::new();
    for seed in seeds.iter() {
        slices.push(seed.as_slice());
    }
    let program = anchor_lang::prelude::Pubkey::new_from_array(program_id.bytes);
    match anchor_lang::prelude::Pubkey::try_find_program_address(&slices, &program) {
        Some((key, bump)) => Some((Address { bytes: key.to_bytes() }, bump)),
        None => None,
    }
}

pub struct PdaUtils;

impl PdaUtils {
    /// The identifier under which the store keeps the tracker.
    pub fn get_contribution_tracker_address(program_id: &Address) -> (found: Option<(Address, u8)>)
        ensures
            is_program_address(found, tracker_seeds(), *program_id),
    {
        let mut seeds: Vec<Vec<u8>> = Vec::new();
        seeds.push(slice_to_vec(CONTRIBUTION_TRACKER_SEED.as_slice()));
        assert(seed_views(seeds@) =~= tracker_seeds());
        find_address(&seeds, program_id)
    }

    /// The identifier under which the store keeps the period with the
    /// given index.
    pub fn get_distribution_period_address(period_number: u64, program_id: &Address) -> (found:
        Option<(Address, u8)>)
        ensures
            is_program_address(found, period_seeds(period_number), *program_id),
    {
        let mut seeds: Vec<Vec<u8>> = Vec::new();
        seeds.push(slice_to_vec(DISTRIBUTION_PERIOD_SEED.as_slice()));
        seeds.push(u64_to_le_bytes(period_number));
        assert(seed_views(seeds@) =~= period_seeds(period_number));
        find_address(&seeds, program_id)
    }

    /// The identifier under which the store keeps the record of the
    /// contributor with the given address.
    pub fn get_contributor_address(authority: &Address, program_id: &Address) -> (found: Option<
        (Address, u8),
    >)
        ensures
            is_program_address(found, contributor_seeds(*authority), *program_id),
    {
        let mut seeds: Vec<Vec<u8>> = Vec::new();
        seeds.push(slice_to_vec(CONTRIBUTOR_SEED.as_slice()));
        seeds.push(slice_to_vec(authority.bytes.as_slice()));
        assert(seed_views(seeds@) =~= contributor_seeds(*authority));
        find_address(&seeds, program_id)
    }

    /// The identifier under which the store keeps the contribution that is
    /// number `sequence` in the list of `contributor` and was submitted in
    /// the period with the given index.
    pub fn get_contribution_address(
        contributor: &Address,
        period_number: u64,
        sequence: u64,
        program_id: &Address,
    ) -> (found: Option<(Address, u8)>)
        ensures
            is_program_address(
                found,
                contribution_seeds(*contributor, period_number, sequence),
                *program_id,
            ),
    {
        let mut seeds: Vec<Vec<u8>> = Vec::new();
        seeds.push(slice_to_vec(CONTRIBUTION_SEED.as_slice()));
        seeds.push(slice_to_vec(contributor.bytes.as_slice()));
        seeds.push(u64_to_le_bytes(period_number));
        seeds.push(u64_to_le_bytes(sequence));
        assert(seed_views(seeds@) =~= contribution_seeds(*contributor, period_number, sequence));
        find_address(&seeds, program_id)
    }
}

pub struct ContributionValidator;

impl ContributionValidator {
    /// A contribution leaves `Pending` for `Approved` or `Rejected`, and
    /// makes no other move.
    pub fn validate_contribution_status_transition(
        current_status: ContributionStatus,
        new_status: ContributionStatus,
    ) -> (result: Result<(), ContributionError>)
        ensures
            result == if current_status == ContributionStatus::Pending && new_status
                != ContributionStatus::Pending {
                Ok::<(), ContributionError>(())
            } else {
                Err(ContributionError::InvalidStatusTransition)
            },
    {
        match (current_status, new_status) {
            (ContributionStatus::Pending, ContributionStatus::Approved) => Ok(()),
            (ContributionStatus::Pending, ContributionStatus::Rejected) => Ok(()),
            _ => Err(ContributionError::InvalidStatusTransition),
        }
    }

    /// Accepts a contributor whose list still has room.
    pub fn validate_contributor_capacity(contributor: &Contributor) -> (result: Result<
        (),
        ContributionError,
    >)
        ensures
            result == if contributor@.contributions.len() < MAX_CONTRIBUTIONS {
                Ok::<(), ContributionError>(())
            } else {
                Err(ContributionError::MaxContributionsReached)
            },
    {
        if contributor.contributions.len() < MAX_CONTRIBUTIONS {
            Ok(())
        } else {
            Err(ContributionError::MaxContributionsReached)
        }
    }
}

} // verus!
