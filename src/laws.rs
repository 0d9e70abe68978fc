use vstd::prelude::*;
use crate::aggregate::{seq_sum, seq_sum_sq, Aggregate};
use crate::expectancy::{er_value, RUN};
use crate::player::{ground_outs, stat_weights, valid_stats};
use crate::simulation::{is_estimate, outcome_at, possible_value};
use crate::situation::{
    empty_situation, inning_ends, next_situation, occupied, outs_made, run_value, runs_scored,
    BaseSituation, HitResult,
};

verus! {

/// For consistent counts every outcome weight is non-negative, and the nine
/// weights add up to the plate appearances: at-bats plus walks plus
/// intentional walks, each hit counted once.
pub proof fn lemma_weights_are_plate_appearances(
    ab: u32,
    h: u32,
    two_b: u32,
    three_b: u32,
    hr: u32,
    bb: u32,
    ibb: u32,
    goao_milli: u32,
    so: u32,
)
    requires
        valid_stats(ab as int, h as int, two_b as int, three_b as int, hr as int, so as int),
    ensures
        ({
            let w = stat_weights(
                ab as int,
                h as int,
                two_b as int,
                three_b as int,
                hr as int,
                bb as int,
                ibb as int,
                goao_milli as int,
                so as int,
            );
            &&& w.len() == 9
            &&& forall|k: int| 0 <= k < 9 ==> #[trigger] w[k] >= 0
            &&& seq_sum(w) == ab + bb + ibb
        }),
{
    let bip = ab - h - so;
    let m = goao_milli as int;
    let x = 2 * bip * m + 1000 + m;
    let d = 2 * (1000 + m);
    assert(0 <= x) by (nonlinear_arith)
        requires bip >= 0, m >= 0, x == 2 * bip * m + 1000 + m;
    assert(x < (bip + 1) * d) by (nonlinear_arith)
        requires bip >= 0, m >= 0, x == 2 * bip * m + 1000 + m, d == 2 * (1000 + m);
    assert(0 <= x / d <= bip) by (nonlinear_arith)
        requires x >= 0, d > 0, x < (bip + 1) * d;
    assert(ground_outs(bip, m) == x / d);
    let w = stat_weights(
        ab as int,
        h as int,
        two_b as int,
        three_b as int,
        hr as int,
        bb as int,
        ibb as int,
        goao_milli as int,
        so as int,
    );
    reveal_with_fuel(seq_sum, 10);
    assert(w.drop_last().drop_last().drop_last().drop_last().drop_last().drop_last().drop_last().drop_last().drop_last() =~= Seq::<int>::empty());
}

/// A ground out or a strikeout before the second out moves no runner and
/// scores nobody: it only adds an out.
pub proof fn lemma_ground_out_keeps_bases(s: BaseSituation, h: HitResult)
    requires
        s.wf(),
        s.out < 2,
        h == HitResult::GO || h == HitResult::SO,
    ensures
        next_situation(s, h) == (BaseSituation { out: (s.out + 1) as i32, ..s }),
        runs_scored(s, h) == 0,
{
}

/// Any out made with two outs ends the half-inning and clears the state back
/// to empty bases and no out.
pub proof fn lemma_third_out_ends_inning(s: BaseSituation, h: HitResult)
    requires
        s.wf(),
        s.out == 2,
        outs_made(h) == 1,
    ensures
        inning_ends(s, h),
        next_situation(s, h) == empty_situation(),
        runs_scored(s, h) == 0,
{
}

proof fn lemma_constant_sums(v: Seq<int>, c: int)
    requires
        forall|i: int| 0 <= i < v.len() ==> #[trigger] v[i] == c,
    ensures
        seq_sum(v) == v.len() * c,
        seq_sum_sq(v) == v.len() * (c * c),
    decreases v.len(),
{
    if v.len() > 0 {
        let u = v.drop_last();
        assert forall|i: int| 0 <= i < u.len() implies #[trigger] u[i] == c by {
            assert(u[i] == v[i]);
        }
        lemma_constant_sums(u, c);
        assert(v.last() == v[v.len() - 1]);
        assert(v.len() * c == u.len() * c + c) by (nonlinear_arith)
            requires v.len() == u.len() + 1;
        assert(v.len() * (c * c) == u.len() * (c * c) + c * c) by (nonlinear_arith)
            requires v.len() == u.len() + 1;
    }
}

/// With all weight on the home run, every trial from `s` has the same run
/// value: every runner and the batter score and the bases empty with the outs
/// unchanged, so the value is the runs plus the expected runs of empty bases at
/// those outs minus the expected runs of `s`. The totals are then `n` times
/// that value and `n` times its square.
pub proof fn lemma_home_runs_only(w: Seq<u64>, s: BaseSituation, n: int, a: Aggregate)
    requires
        w.len() == 9,
        forall|k: int| 0 <= k < 8 ==> #[trigger] w[k] == 0,
        w[8] > 0,
        s.wf(),
        is_estimate(w, s, n, a),
    ensures
        ({
            let v = run_value(s, HitResult::HR);
            &&& v == (occupied(s.one_base) + occupied(s.two_base) + occupied(s.three_base) + 1)
                * RUN + er_value(0, s.out as int) - s.er()
            &&& forall|i: int| 0 <= i < n ==> #[trigger] a.values@[i] == v
            &&& a.sum == n * v
            &&& a.sum_sq == n * (v * v)
        }),
{
    let v = run_value(s, HitResult::HR);
    assert forall|i: int| 0 <= i < n implies #[trigger] a.values@[i] == v by {
        assert(possible_value(w, s, a.values@[i]));
        let k = choose|k: int|
            0 <= k < 9 && #[trigger] w[k] > 0 && a.values@[i] == run_value(s, outcome_at(k));
        assert(k == 8);
    }
    lemma_constant_sums(a.values@, v);
}

/// With all weight on the strikeout and two outs, every trial from `s` ends
/// the half-inning with no run: its value is minus the expected runs of `s`.
/// The totals are then `n` times that value and `n` times its square.
pub proof fn lemma_strikeouts_only(w: Seq<u64>, s: BaseSituation, n: int, a: Aggregate)
    requires
        w.len() == 9,
        forall|k: int| 0 <= k < 9 && k != 2 ==> #[trigger] w[k] == 0,
        w[2] > 0,
        s.wf(),
        s.out == 2,
        is_estimate(w, s, n, a),
    ensures
        forall|i: int| 0 <= i < n ==> #[trigger] a.values@[i] == -s.er(),
        a.sum == n * -s.er(),
        a.sum_sq == n * (s.er() * s.er()),
{
    let v = run_value(s, HitResult::SO);
    assert(v == -s.er());
    assert forall|i: int| 0 <= i < n implies #[trigger] a.values@[i] == v by {
        assert(possible_value(w, s, a.values@[i]));
        let k = choose|k: int|
            0 <= k < 9 && #[trigger] w[k] > 0 && a.values@[i] == run_value(s, outcome_at(k));
        assert(k == 2);
    }
    lemma_constant_sums(a.values@, v);
    assert(v * v == s.er() * s.er()) by (nonlinear_arith)
        requires v == -s.er();
}

} // verus!
