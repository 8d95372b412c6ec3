//! Conservation of a period's tokens: whatever the contributors' shares,
//! together they never exceed the period's allocation, and rounding down
//! withholds less than one token per point.

use vstd::prelude::*;
use crate::state::contributor::ContributorView;
use crate::state::distribution_period::DistributionPeriod;
use crate::utils::reward_share;

verus! {

/// The points that the contributors hold together.
pub open spec fn points_held(contributors: Seq<ContributorView>) -> int
    decreases contributors.len(),
{
    if contributors.len() == 0 {
        0
    } else {
        points_held(contributors.drop_last()) + contributors.last().current_period_points
    }
}

/// The rewards that the period owes the contributors together: the sum of
/// their shares of its allocation.
pub open spec fn rewards_owed(contributors: Seq<ContributorView>, period: DistributionPeriod) -> int
    decreases contributors.len(),
{
    if contributors.len() == 0 {
        0
    } else {
        rewards_owed(contributors.drop_last(), period) + reward_share(
            contributors.last().current_period_points,
            period.total_points,
            period.tokens_allocated,
        )
    }
}

/// Rounding two quotients down loses less than one unit against rounding
/// their sum down, and never gains.
proof fn lemma_floor_of_sum(a: int, b: int, d: int)
    requires
        a >= 0,
        b >= 0,
        d > 0,
    ensures
        a / d + b / d <= (a + b) / d <= a / d + b / d + 1,
        a / d >= 0,
{
    vstd::arithmetic::div_mod::lemma_fundamental_div_mod(a, d);
    vstd::arithmetic::div_mod::lemma_fundamental_div_mod(b, d);
    vstd::arithmetic::div_mod::lemma_fundamental_div_mod(a + b, d);
    vstd::arithmetic::div_mod::lemma_mod_bound(a, d);
    vstd::arithmetic::div_mod::lemma_mod_bound(b, d);
    vstd::arithmetic::div_mod::lemma_mod_bound(a + b, d);
    let qa = a / d;
    let qb = b / d;
    let qs = (a + b) / d;
    assert(d * qs - d * qa - d * qb == d * (qs - qa - qb)) by (nonlinear_arith);
    let k = qs - qa - qb;
    assert(d * k == a % d + b % d - (a + b) % d);
    assert(-d < d * k < 2 * d);
    assert(0 <= k <= 1) by (nonlinear_arith)
        requires
            d > 0,
            -d < d * k < 2 * d,
    ;
    assert(qa >= 0) by (nonlinear_arith)
        requires
            d > 0,
            a >= 0,
            a == d * qa + a % d,
            0 <= a % d < d,
    ;
}

/// The rewards owed lie between the share of all points held, rounded
/// down, and that share less one token for each point held beyond the
/// first.
proof fn lemma_rewards_bracket(contributors: Seq<ContributorView>, period: DistributionPeriod)
    requires
        period.total_points > 0,
    ensures
        0 <= points_held(contributors),
        0 <= rewards_owed(contributors, period),
        rewards_owed(contributors, period) <= (points_held(contributors)
            * period.tokens_allocated) / (period.total_points as int),
        points_held(contributors) == 0 ==> rewards_owed(contributors, period) == 0,
        points_held(contributors) > 0 ==> rewards_owed(contributors, period) >= (points_held(
            contributors,
        ) * period.tokens_allocated) / (period.total_points as int) - (points_held(contributors)
            - 1),
    decreases contributors.len(),
{
    let d = period.total_points as int;
    let pool = period.tokens_allocated as int;
    if contributors.len() == 0 {
        assert(0int * pool == 0) by (nonlinear_arith);
        assert(0int / d == 0) by (nonlinear_arith)
            requires
                d > 0,
        ;
    } else {
        let rest = contributors.drop_last();
        let u = contributors.last().current_period_points as int;
        lemma_rewards_bracket(rest, period);
        let held = points_held(rest);
        let a = held * pool;
        let b = u * pool;
        assert(a >= 0) by (nonlinear_arith)
            requires
                a == held * pool,
                held >= 0,
                pool >= 0,
        ;
        assert(b >= 0) by (nonlinear_arith)
            requires
                b == u * pool,
                u >= 0,
                pool >= 0,
        ;
        assert((held + u) * pool == a + b) by (nonlinear_arith)
            requires
                a == held * pool,
                b == u * pool,
        ;
        lemma_floor_of_sum(a, b, d);
        assert(reward_share(
            contributors.last().current_period_points,
            period.total_points,
            period.tokens_allocated,
        ) == b / d);
        if u == 0 {
            assert(b == 0) by (nonlinear_arith)
                requires
                    b == u * pool,
                    u == 0,
            ;
            assert(0int / d == 0) by (nonlinear_arith)
                requires
                    d > 0,
            ;
        } else if held == 0 {
            assert(a == 0) by (nonlinear_arith)
                requires
                    a == held * pool,
                    held == 0,
            ;
        }
    }
}

/// The contributors' rewards never exceed the period's allocation, as long
/// as the contributors hold no more points than the period counted.
pub proof fn lemma_rewards_within_allocation(
    contributors: Seq<ContributorView>,
    period: DistributionPeriod,
)
    requires
        period.total_points > 0,
        points_held(contributors) <= period.total_points,
    ensures
        0 <= rewards_owed(contributors, period) <= period.tokens_allocated,
{
    let d = period.total_points as int;
    let pool = period.tokens_allocated as int;
    let held = points_held(contributors);
    lemma_rewards_bracket(contributors, period);
    assert(held * pool <= d * pool) by (nonlinear_arith)
        requires
            held <= d,
            pool >= 0,
    ;
    vstd::arithmetic::div_mod::lemma_div_is_ordered(held * pool, d * pool, d);
    vstd::arithmetic::div_mod::lemma_div_multiples_vanish(pool, d);
    assert(d * pool == pool * d) by (nonlinear_arith);
}

/// When the contributors hold exactly the points that the period counted,
/// rounding withholds at most one token less than there are points.
pub proof fn lemma_rounding_shortfall(contributors: Seq<ContributorView>, period: DistributionPeriod)
    requires
        period.total_points > 0,
        points_held(contributors) == period.total_points,
    ensures
        0 <= period.tokens_allocated - rewards_owed(contributors, period) <= period.total_points
            - 1,
{
    let d = period.total_points as int;
    let pool = period.tokens_allocated as int;
    lemma_rewards_bracket(contributors, period);
    vstd::arithmetic::div_mod::lemma_div_multiples_vanish(pool, d);
    assert(d * pool == pool * d) by (nonlinear_arith);
}

} // verus!
