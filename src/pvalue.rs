use vstd::prelude::*;

use crate::tails::Tails;

verus! {

/// The smaller of the two tail counts: replicates strictly below the
/// threshold, or the rest.
pub open spec fn tail_mass(hits: nat, n: nat) -> nat
    recommends
        hits <= n,
{
    if hits <= n - hits {
        hits
    } else {
        (n - hits) as nat
    }
}

/// Numerator of the empirical p-value over `n` replicates of which `hits`
/// lie strictly below the threshold.
pub open spec fn p_value_numerator(hits: nat, n: nat, tails: Tails) -> nat
    recommends
        hits <= n,
{
    tails.factor_spec() * tail_mass(hits, n)
}

/// An empirical p-value as an exact ratio `numerator / denominator`.
///
/// The denominator is the number of replicates; with no replicates both
/// parts are zero and the ratio is undefined.
#[derive(Debug, Clone, Copy, PartialEq, Eq, Structural)]
pub struct PValue {
    pub numerator: usize,
    pub denominator: usize,
}

/// The p-value of a threshold that `hits` of `n` replicates lie strictly
/// below: `min(hits, n - hits) / n`, doubled for a two tailed test.
///
/// The result never exceeds one: the smaller tail holds at most half of the
/// replicates.
pub fn p_value_ratio(hits: usize, n: usize, tails: &Tails) -> (r: PValue)
    requires
        hits <= n,
    ensures
        r.numerator == p_value_numerator(hits as nat, n as nat, *tails),
        r.denominator == n,
        r.numerator <= r.denominator,
{
    let rest: usize = n - hits;
    let mass: usize = if hits <= rest {
        hits
    } else {
        rest
    };
    let numerator: usize = match tails {
        Tails::One => mass,
        Tails::Two => 2 * mass,
    };
    PValue { numerator, denominator: n }
}

/// For the same threshold and replicates, the two tailed p-value is twice
/// the one tailed one.
pub proof fn two_tailed_doubles_one_tailed(hits: nat, n: nat)
    requires
        hits <= n,
    ensures
        p_value_numerator(hits, n, Tails::Two) == 2 * p_value_numerator(hits, n, Tails::One),
{
}

/// The p-value is a probability: its numerator never exceeds the number of
/// replicates, whichever test is chosen.
pub proof fn p_value_at_most_one(hits: nat, n: nat, tails: Tails)
    requires
        hits <= n,
    ensures
        p_value_numerator(hits, n, tails) <= n,
{
}

} // verus!
