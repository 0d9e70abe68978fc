use vstd::prelude::*;

verus! {

/// Why a simulation cannot be set up.
#[derive(Clone, Copy, Debug, PartialEq, Eq, Structural)]
pub enum SimError {
    /// The hits do not cover the extra-base hits, or the at-bats do not cover
    /// the hits and strikeouts.
    InvalidStatistics,
    /// The outcome weights are all zero.
    InvalidWeights,
    /// No trial was asked for.
    InvalidTrialCount,
}

} // verus!
