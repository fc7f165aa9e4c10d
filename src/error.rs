use vstd::prelude::*;

verus! {

/// Why a statistical query could not be answered.
#[derive(Debug, Clone, Copy, PartialEq, Eq, Structural)]
pub enum StatsError {
    /// A percentile or a confidence level lies outside its domain.
    InvalidRange,
    /// The query needs at least one value and the sample has none.
    EmptyInput,
}

} // verus!
