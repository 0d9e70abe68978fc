use vstd::prelude::*;
use rand::rngs::StdRng;
use crate::aggregate::{Aggregate, VALUE_BOUND};
use crate::error::SimError;
use crate::player::Player;
use crate::sampler::{
    index_weights, lemma_total_weight_bounded, new_weighted_index, sample_index, total_weight,
    OutcomeDistribution,
};
use crate::situation::{inning_ends, run_value, BaseSituation, HitResult};

verus! {

/// The outcome at position `k` of the weights: air out, ground out,
/// strikeout, walk, intentional walk, single, double, triple, home run.
pub open spec fn outcome_at(k: int) -> HitResult {
    if k == 0 {
        HitResult::AO
    } else if k == 1 {
        HitResult::GO
    } else if k == 2 {
        HitResult::SO
    } else if k == 3 {
        HitResult::BB
    } else if k == 4 {
        HitResult::IBB
    } else if k == 5 {
        HitResult::OneBase
    } else if k == 6 {
        HitResult::TwoBase
    } else if k == 7 {
        HitResult::ThreeBase
    } else {
        HitResult::HR
    }
}

/// The state with occupancy code `code` (first = 1, second = 2, third = 4)
/// and `out` outs.
pub open spec fn situation_at(code: int, out: int) -> BaseSituation {
    BaseSituation {
        one_base: code % 2 == 1,
        two_base: (code / 2) % 2 == 1,
        three_base: code / 4 == 1,
        out: out as i32,
    }
}

/// `v` is the run value from `s` of an outcome that has positive weight in `w`.
pub open spec fn possible_value(w: Seq<u64>, s: BaseSituation, v: int) -> bool {
    exists|k: int| 0 <= k < 9 && #[trigger] w[k] > 0 && v == run_value(s, outcome_at(k))
}

/// `a` holds `n` trials from `s`, each the run value of an outcome that has
/// positive weight in `w`.
pub open spec fn is_estimate(w: Seq<u64>, s: BaseSituation, n: int, a: Aggregate) -> bool {
    &&& a.wf()
    &&& a.trials == n
    &&& forall|i: int| 0 <= i < n ==> possible_value(w, s, #[trigger] a.values@[i])
}

/// The outcome at position `k` of the weights.
pub fn hit_of_index(k: usize) -> (r: HitResult)
    requires
        k < 9,
    ensures
        r == outcome_at(k as int),
{
    match k {
        0 => HitResult::AO,
        1 => HitResult::GO,
        2 => HitResult::SO,
        3 => HitResult::BB,
        4 => HitResult::IBB,
        5 => HitResult::OneBase,
        6 => HitResult::TwoBase,
        7 => HitResult::ThreeBase,
        _ => HitResult::HR,
    }
}

/// The distribution that draws each outcome in proportion to its weight;
/// all-zero weights are refused.
pub fn build_distribution(weights: &[u64; 9]) -> (r: Result<OutcomeDistribution, SimError>)
    requires
        total_weight(weights@) <= u64::MAX,
    ensures
        r is Ok <==> total_weight(weights@) > 0,
        r is Err ==> r == Err::<OutcomeDistribution, SimError>(SimError::InvalidWeights),
        r matches Ok(d) ==> index_weights(d) == weights@,
{
    match new_weighted_index(weights) {
        Ok(d) => Ok(d),
        Err(_) => Err(SimError::InvalidWeights),
    }
}

/// One plate appearance from the given bases and outs: draws an outcome and
/// plays it. Returns its run value and whether it ended the half-inning.
pub fn one_batting(
    dist: &OutcomeDistribution,
    rng: &mut StdRng,
    one_base: bool,
    two_base: bool,
    three_base: bool,
    out: i32,
) -> (r: (i64, bool))
    requires
        index_weights(*dist).len() == 9,
        0 <= out < 3,
    ensures
        ({
            let s = BaseSituation { one_base, two_base, three_base, out };
            exists|k: int|
                0 <= k < 9 && #[trigger] index_weights(*dist)[k] > 0 && r.0 == run_value(
                    s,
                    outcome_at(k),
                ) && r.1 == inning_ends(s, outcome_at(k))
        }),
        -VALUE_BOUND <= r.0 <= VALUE_BOUND,
{
    let mut situation = BaseSituation::new();
    situation.one_base = one_base;
    situation.two_base = two_base;
    situation.three_base = three_base;
    situation.out = out;
    let k = sample_index(dist, rng);
    let onep = hit_of_index(k);
    situation.update(&onep)
}

/// Runs `n_trials` independent plate appearances from `start` and totals
/// their run values. Zero trials are refused.
pub fn estimate(
    dist: &OutcomeDistribution,
    start: &BaseSituation,
    n_trials: u64,
    rng: &mut StdRng,
) -> (r: Result<Aggregate, SimError>)
    requires
        index_weights(*dist).len() == 9,
        start.wf(),
    ensures
        r is Err <==> n_trials == 0,
        r is Err ==> r == Err::<Aggregate, SimError>(SimError::InvalidTrialCount),
        r matches Ok(a) ==> is_estimate(index_weights(*dist), *start, n_trials as int, a),
{
    if n_trials == 0 {
        return Err(SimError::InvalidTrialCount);
    }
    let mut acc = Aggregate::new();
    let mut i: u64 = 0;
    while i < n_trials
        invariant
            index_weights(*dist).len() == 9,
            start.wf(),
            i <= n_trials,
            is_estimate(index_weights(*dist), *start, i as int, acc),
        decreases n_trials - i,
    {
        let (value, _) = one_batting(
            dist,
            rng,
            start.one_base,
            start.two_base,
            start.three_base,
            start.out,
        );
        let ghost before = acc.values@;
        acc.record(value);
        proof {
            assert forall|j: int| 0 <= j < i + 1 implies possible_value(
                index_weights(*dist),
                *start,
                #[trigger] acc.values@[j],
            ) by {
                if j < i {
                    assert(acc.values@[j] == before[j]);
                }
            }
        }
        i = i + 1;
    }
    Ok(acc)
}

/// Estimates every base-out state for `player`: for each occupancy code
/// (first = 1, second = 2, third = 4) and each number of outs, `n_trials`
/// plate appearances. The totals for code `c` and `o` outs are at `3 * c + o`.
pub fn run_all(player: &Player, n_trials: u64, rng: &mut StdRng) -> (r: Result<
    Vec<Aggregate>,
    SimError,
>)
    ensures
        r is Ok <==> total_weight(player@) > 0 && n_trials > 0,
        r == Err::<Vec<Aggregate>, SimError>(SimError::InvalidWeights) <==> total_weight(player@)
            == 0,
        r == Err::<Vec<Aggregate>, SimError>(SimError::InvalidTrialCount) <==> (total_weight(
            player@,
        ) > 0 && n_trials == 0),
        r matches Ok(t) ==> t.len() == 24 && forall|c: int, o: int|
            0 <= c < 8 && 0 <= o < 3 ==> is_estimate(
                player@,
                situation_at(c, o),
                n_trials as int,
                #[trigger] t[3 * c + o],
            ),
{
    let weights = player.stat();
    proof {
        lemma_total_weight_bounded(weights@, u32::MAX as int);
    }
    let dist = build_distribution(&weights)?;
    if n_trials == 0 {
        return Err(SimError::InvalidTrialCount);
    }
    let mut table: Vec<Aggregate> = Vec::new();
    let mut code: usize = 0;
    while code < 8
        invariant
            index_weights(dist) == player@,
            player@.len() == 9,
            total_weight(player@) > 0,
            n_trials > 0,
            code <= 8,
            table.len() == 3 * code,
            forall|c: int, o: int|
                0 <= c < code && 0 <= o < 3 ==> is_estimate(
                    player@,
                    situation_at(c, o),
                    n_trials as int,
                    #[trigger] table[3 * c + o],
                ),
        decreases 8 - code,
    {
        let mut out: usize = 0;
        while out < 3
            invariant
                index_weights(dist) == player@,
                player@.len() == 9,
                total_weight(player@) > 0,
                n_trials > 0,
                code < 8,
                out <= 3,
                table.len() == 3 * code + out,
                forall|c: int, o: int|
                    0 <= c < code && 0 <= o < 3 ==> is_estimate(
                        player@,
                        situation_at(c, o),
                        n_trials as int,
                        #[trigger] table[3 * c + o],
                    ),
                forall|o: int|
                    0 <= o < out ==> is_estimate(
                        player@,
                        situation_at(code as int, o),
                        n_trials as int,
                        #[trigger] table[3 * code + o],
                    ),
            decreases 3 - out,
        {
            let start = BaseSituation {
                one_base: code % 2 == 1,
                two_base: (code / 2) % 2 == 1,
                three_base: code / 4 == 1,
                out: out as i32,
            };
            assert(start == situation_at(code as int, out as int));
            let agg = estimate(&dist, &start, n_trials, rng)?;
            let ghost old_table = table@;
            table.push(agg);
            proof {
                assert forall|c: int, o: int|
                    0 <= c < code && 0 <= o < 3 implies is_estimate(
                    player@,
                    situation_at(c, o),
                    n_trials as int,
                    #[trigger] table[3 * c + o],
                ) by {
                    assert(table[3 * c + o] == old_table[3 * c + o]);
                }
                assert forall|o: int| 0 <= o < out + 1 implies is_estimate(
                    player@,
                    situation_at(code as int, o),
                    n_trials as int,
                    #[trigger] table[3 * code + o],
                ) by {
                    if o < out {
                        assert(table[3 * code + o] == old_table[3 * code + o]);
                    }
                }
            }
            out = out + 1;
        }
        code = code + 1;
    }
    Ok(table)
}

/// Cell by cell, the totals of `a` followed by those of `b`: two tables of
/// trials from the same states make one table of all of them.
pub fn merge_tables(a: &Vec<Aggregate>, b: &Vec<Aggregate>) -> (r: Vec<Aggregate>)
    requires
        a.len() == b.len(),
        forall|i: int|
            0 <= i < a.len() ==> (#[trigger] a[i]).wf() && b[i].wf() && a[i].trials + b[i].trials
                <= u64::MAX,
    ensures
        r.len() == a.len(),
        forall|i: int|
            0 <= i < r.len() ==> (#[trigger] r[i]).wf() && r[i].trials == a[i].trials
                + b[i].trials && r[i].values@ == a[i].values@ + b[i].values@,
{
    let mut r: Vec<Aggregate> = Vec::new();
    let mut i: usize = 0;
    while i < a.len()
        invariant
            a.len() == b.len(),
            forall|j: int|
                0 <= j < a.len() ==> (#[trigger] a[j]).wf() && b[j].wf() && a[j].trials
                    + b[j].trials <= u64::MAX,
            i <= a.len(),
            r.len() == i,
            forall|j: int|
                0 <= j < i ==> (#[trigger] r[j]).wf() && r[j].trials == a[j].trials + b[j].trials
                    && r[j].values@ == a[j].values@ + b[j].values@,
        decreases a.len() - i,
    {
        let m = a[i].merge(&b[i]);
        r.push(m);
        i = i + 1;
    }
    r
}

} // verus!
