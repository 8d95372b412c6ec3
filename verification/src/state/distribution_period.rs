use vstd::prelude::*;
use crate::error::ContributionError;

verus! {

/// One time-boxed window over which points accumulate and whose token budget
/// is then split among the contributors.
#[derive(Clone, Copy, Debug, PartialEq, Eq)]
pub struct DistributionPeriod {
    /// Index of the period, counted from zero.
    pub period_number: u64,
    /// When the period opened, in seconds.
    pub start_time: i64,
    /// When the period ends, in seconds.
    pub end_time: i64,
    /// Points approved in this period.
    pub total_points: u64,
    /// Tokens that can be paid out for this period.
    pub tokens_allocated: u64,
    /// Tokens paid out for this period so far.
    pub tokens_distributed: u64,
    /// Whether the period's totals are locked.
    pub is_finalized: bool,
    /// Bump seed of the record's identifier.
    pub bump: u8,
}

impl DistributionPeriod {
    /// Never more is paid out than was allocated, and nothing is paid out
    /// before the period is finalized.
    pub open spec fn wf(&self) -> bool {
        &&& self.tokens_distributed <= self.tokens_allocated
        &&& !self.is_finalized ==> self.tokens_distributed == 0
        &&& self.start_time <= self.end_time
    }

    /// The period with index `period_number` as it is when it opens at
    /// `start_time`: it lasts `duration` seconds, has `tokens` allocated,
    /// and nothing has happened in it yet.
    pub open spec fn opened(
        period_number: u64,
        start_time: i64,
        duration: i64,
        tokens: u64,
        bump: u8,
    ) -> DistributionPeriod {
        DistributionPeriod {
            period_number,
            start_time,
            end_time: (start_time + duration) as i64,
            total_points: 0,
            tokens_allocated: tokens,
            tokens_distributed: 0,
            is_finalized: false,
            bump,
        }
    }

    /// Opens a period. Refused with `InvalidTimestamp` when the end time is
    /// not a representable time.
    pub fn starting_at(
        period_number: u64,
        start_time: i64,
        duration: i64,
        tokens: u64,
        bump: u8,
    ) -> (result: Result<DistributionPeriod, ContributionError>)
        ensures
            result == if i64::MIN <= start_time + duration <= i64::MAX {
                Ok::<DistributionPeriod, ContributionError>(
                    DistributionPeriod::opened(period_number, start_time, duration, tokens, bump),
                )
            } else {
                Err(ContributionError::InvalidTimestamp)
            },
            result matches Ok(period) ==> (duration >= 0 ==> period.wf()) && period.end_time
                == start_time + duration,
    {
        match start_time.checked_add(duration) {
            Some(end_time) => Ok(
                DistributionPeriod {
                    period_number,
                    start_time,
                    end_time,
                    total_points: 0,
                    tokens_allocated: tokens,
                    tokens_distributed: 0,
                    is_finalized: false,
                    bump,
                },
            ),
            None => Err(ContributionError::InvalidTimestamp),
        }
    }

    /// The period's end time has passed at `now`.
    pub open spec fn ended_at(&self, now: i64) -> bool {
        now >= self.end_time
    }
}

} // verus!
