use vstd::prelude::*;

verus! {

/// Number of tails for significance testing.
#[derive(Debug, Clone, Copy, PartialEq, Eq, Structural)]
pub enum Tails {
    /// One tailed test
    One,
    /// Two tailed test
    Two,
}

impl Tails {
    /// How many times the one-sided tail mass counts toward the p-value.
    pub open spec fn factor_spec(self) -> nat {
        match self {
            Tails::One => 1,
            Tails::Two => 2,
        }
    }

    /// The multiplier of the one-sided tail mass: 1 for a one tailed test,
    /// 2 for a two tailed test.
    pub fn factor(&self) -> (r: usize)
        ensures
            r == self.factor_spec(),
    {
        match self {
            Tails::One => 1,
            Tails::Two => 2,
        }
    }
}

} // verus!
