use vstd::prelude::*;

use crate::error::StatsError;

verus! {

/// Where a percentile query falls, once its rank `(p / 100) * (n - 1)` is
/// known.
#[derive(Debug, Clone, Copy, PartialEq, Eq, Structural)]
pub enum PercentileRank {
    /// The percentile lies outside the closed range `[0, 100]`.
    Outside,
    /// The percentile lies in `[0, 100)`; the field is the integer part of
    /// its rank.
    Within(usize),
    /// The percentile is exactly 100: the largest value.
    Last,
}

/// The two order statistics that a percentile interpolates between, by
/// index into the sorted sample. The percentile is
/// `lower + (upper - lower) * fraction`, or the value at `lower` itself
/// when the two indices coincide.
#[derive(Debug, Clone, Copy, PartialEq, Eq, Structural)]
pub struct Bracket {
    pub lower: usize,
    pub upper: usize,
}

pub open spec fn min_nat(a: nat, b: nat) -> nat {
    if a <= b {
        a
    } else {
        b
    }
}

/// The lower index selected for a rank within a sample of `n >= 1` values.
pub open spec fn lower_index(n: nat, rank: PercentileRank) -> nat {
    match rank {
        PercentileRank::Within(k) => min_nat(k as nat, (n - 1) as nat),
        _ => (n - 1) as nat,
    }
}

/// The upper index selected for a rank within a sample of `n >= 1` values.
pub open spec fn upper_index(n: nat, rank: PercentileRank) -> nat {
    match rank {
        PercentileRank::Within(k) => min_nat(k as nat + 1, (n - 1) as nat),
        _ => (n - 1) as nat,
    }
}

/// The answer owed to a percentile query over a sorted sample of `n` values.
pub open spec fn bracket_spec(n: nat, rank: PercentileRank) -> Result<Bracket, StatsError> {
    if rank is Outside {
        Err(StatsError::InvalidRange)
    } else if n == 0 {
        Err(StatsError::EmptyInput)
    } else {
        Ok(
            Bracket {
                lower: lower_index(n, rank) as usize,
                upper: upper_index(n, rank) as usize,
            },
        )
    }
}

/// Picks the order statistics that a percentile query over a sorted sample
/// of `n` values interpolates between.
///
/// A percentile outside `[0, 100]` is `InvalidRange`; otherwise an empty
/// sample is `EmptyInput`. Both indices are valid for the sample, the upper
/// one at most one past the lower one; the 100th percentile and a rank that
/// reaches the end select the last value alone.
pub fn percentile_bracket(n: usize, rank: PercentileRank) -> (r: Result<Bracket, StatsError>)
    ensures
        r == bracket_spec(n as nat, rank),
        r matches Ok(b) ==> b.lower <= b.upper && b.upper < n && b.upper <= b.lower + 1,
{
    match rank {
        PercentileRank::Outside => Err(StatsError::InvalidRange),
        _ => {
            if n == 0 {
                Err(StatsError::EmptyInput)
            } else {
                let last: usize = n - 1;
                match rank {
                    PercentileRank::Within(k) => {
                        let lower: usize = if k <= last {
                            k
                        } else {
                            last
                        };
                        let upper: usize = if lower < last {
                            lower + 1
                        } else {
                            last
                        };
                        Ok(Bracket { lower, upper })
                    },
                    _ => Ok(Bracket { lower: last, upper: last }),
                }
            }
        },
    }
}

/// Whether `a` is a rank no greater than `b`.
pub open spec fn rank_le(a: PercentileRank, b: PercentileRank) -> bool {
    match (a, b) {
        (PercentileRank::Within(i), PercentileRank::Within(j)) => i <= j,
        (PercentileRank::Within(_), PercentileRank::Last) => true,
        (PercentileRank::Last, PercentileRank::Last) => true,
        _ => false,
    }
}

/// A larger rank never selects an earlier order statistic: both indices of
/// the bracket are monotone in the rank.
pub proof fn bracket_monotone(n: nat, a: PercentileRank, b: PercentileRank)
    requires
        n >= 1,
        rank_le(a, b),
    ensures
        lower_index(n, a) <= lower_index(n, b),
        upper_index(n, a) <= upper_index(n, b),
{
}

/// The 0th percentile starts at the smallest value and the 100th is the
/// largest value alone.
pub proof fn bracket_ends(n: nat)
    requires
        n >= 1,
    ensures
        lower_index(n, PercentileRank::Within(0)) == 0,
        lower_index(n, PercentileRank::Last) == n - 1,
        upper_index(n, PercentileRank::Last) == n - 1,
{
}

} // verus!
