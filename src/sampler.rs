use vstd::prelude::*;
use rand::distributions::{Distribution, WeightedError, WeightedIndex};
use rand::rngs::StdRng;

verus! {

#[verifier::external_type_specification]
#[verifier::external_body]
pub struct ExWeightedError(WeightedError);

#[verifier::external_type_specification]
#[verifier::external_body]
pub struct ExStdRng(StdRng);

/// A categorical distribution over outcome indices, drawn in proportion to
/// their weights. It holds rand's `WeightedIndex`, which Verus cannot declare
/// (its type parameter is bound by a trait of rand).
#[verifier::external_body]
pub struct OutcomeDistribution {
    index: WeightedIndex<u64>,
}

/// The weights that a distribution was built from.
pub uninterp spec fn index_weights(d: OutcomeDistribution) -> Seq<u64>;

/// Sum of the weights.
pub open spec fn total_weight(w: Seq<u64>) -> int
    decreases w.len(),
{
    if w.len() == 0 {
        0
    } else {
        total_weight(w.drop_last()) + w.last()
    }
}

pub proof fn lemma_total_weight_bounded(w: Seq<u64>, bound: int)
    requires
        forall|k: int| 0 <= k < w.len() ==> #[trigger] w[k] <= bound,
    ensures
        0 <= total_weight(w) <= w.len() * bound,
    decreases w.len(),
{
    if w.len() > 0 {
        let u = w.drop_last();
        assert forall|k: int| 0 <= k < u.len() implies #[trigger] u[k] <= bound by {
            assert(u[k] == w[k]);
        }
        lemma_total_weight_bounded(u, bound);
        assert(w.last() == w[w.len() - 1]);
        assert(w.len() * bound == u.len() * bound + bound) by (nonlinear_arith)
            requires w.len() == u.len() + 1;
    }
}

/// Relies on rand's `WeightedIndex::new`: it fails only on no weights, a
/// negative weight (impossible for `u64`) or a zero total, and keeps the
/// weights it was given. The running total is summed in `u64`, so it must fit.
#[verifier::external_body]
pub(crate) fn new_weighted_index(weights: &[u64; 9]) -> (r: Result<OutcomeDistribution, WeightedError>)
    requires
        total_weight(weights@) <= u64::MAX,
    ensures
        r is Ok <==> total_weight(weights@) > 0,
        r matches Ok(d) ==> index_weights(d) == weights@,
{
    WeightedIndex::new(weights).map(|index| OutcomeDistribution { index })
}

/// Relies on rand's `Distribution::sample` for `WeightedIndex`: it draws a
/// value below the total weight and returns the index whose cumulative range
/// holds it, so an index of a positive weight.
#[verifier::external_body]
pub(crate) fn sample_index(d: &OutcomeDistribution, rng: &mut StdRng) -> (r: usize)
    ensures
        r < index_weights(*d).len(),
        index_weights(*d)[r as int] > 0,
{
    d.index.sample(rng)
}

} // verus!
