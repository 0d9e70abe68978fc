use vstd::prelude::*;
use crate::error::SimError;

verus! {

/// Ground outs among `balls_in_play`, for a ground-out to air-out ratio given
/// in thousandths: `balls_in_play * ratio / (1 + ratio)`, rounded half up.
pub open spec fn ground_outs(balls_in_play: int, ratio_milli: int) -> int {
    (2 * balls_in_play * ratio_milli + 1000 + ratio_milli) / (2 * (1000 + ratio_milli))
}

/// Whether the counts are consistent: the hits cover the extra-base hits and
/// the at-bats cover the hits and strikeouts.
pub open spec fn valid_stats(ab: int, h: int, two_b: int, three_b: int, hr: int, so: int) -> bool {
    h >= two_b + three_b + hr && ab >= h + so
}

/// The outcome weights, in the order air out, ground out, strikeout, walk,
/// intentional walk, single, double, triple, home run.
pub open spec fn stat_weights(
    ab: int,
    h: int,
    two_b: int,
    three_b: int,
    hr: int,
    bb: int,
    ibb: int,
    goao_milli: int,
    so: int,
) -> Seq<int> {
    let bip = ab - h - so;
    let go = ground_outs(bip, goao_milli);
    seq![bip - go, go, so, bb, ibb, h - two_b - three_b - hr, two_b, three_b, hr]
}

/// A batter's season counts, kept as the weights of the nine outcomes.
#[derive(Clone, Copy, Debug)]
pub struct Player {
    stat: [u64; 9],
}

impl Player {
    /// Every weight fits in the `u32` counts it came from.
    #[verifier::type_invariant]
    spec fn inv(&self) -> bool {
        forall|k: int| 0 <= k < 9 ==> #[trigger] self.stat@[k] <= u32::MAX
    }
}

impl View for Player {
    type V = Seq<u64>;

    closed spec fn view(&self) -> Seq<u64> {
        self.stat@
    }
}

proof fn lemma_ground_outs_bounded(bip: int, m: int)
    requires
        bip >= 0,
        m >= 0,
    ensures
        0 <= ground_outs(bip, m) <= bip,
{
    let x = 2 * bip * m + 1000 + m;
    let d = 2 * (1000 + m);
    assert(x >= 0) by (nonlinear_arith)
        requires bip >= 0, m >= 0, x == 2 * bip * m + 1000 + m;
    assert(x < (bip + 1) * d) by (nonlinear_arith)
        requires bip >= 0, m >= 0, x == 2 * bip * m + 1000 + m, d == 2 * (1000 + m);
    assert(x / d < bip + 1) by (nonlinear_arith)
        requires x >= 0, d > 0, x < (bip + 1) * d;
    assert(x / d >= 0) by (nonlinear_arith)
        requires x >= 0, d > 0;
}

impl Player {
    /// Builds the outcome weights from a batter's counts: at-bats, hits,
    /// doubles, triples, home runs, walks, intentional walks, the ground-out to
    /// air-out ratio in thousandths, and strikeouts. Inconsistent counts are
    /// rejected.
    pub fn new(
        ab: u32,
        h: u32,
        two_b: u32,
        three_b: u32,
        hr: u32,
        bb: u32,
        ibb: u32,
        goao_milli: u32,
        so: u32,
    ) -> (r: Result<Self, SimError>)
        ensures
            r is Ok <==> valid_stats(ab as int, h as int, two_b as int, three_b as int, hr as int, so as int),
            r is Err ==> r == Err::<Self, SimError>(SimError::InvalidStatistics),
            r matches Ok(p) ==> p@.len() == 9 && forall|k: int|
                0 <= k < 9 ==> #[trigger] p@[k] as int == stat_weights(
                    ab as int,
                    h as int,
                    two_b as int,
                    three_b as int,
                    hr as int,
                    bb as int,
                    ibb as int,
                    goao_milli as int,
                    so as int,
                )[k],
    {
        if (h as u64) < two_b as u64 + three_b as u64 + hr as u64 || (ab as u64) < h as u64
            + so as u64 {
            return Err(SimError::InvalidStatistics);
        }
        let bip: u64 = ab as u64 - h as u64 - so as u64;
        let m: u128 = goao_milli as u128;
        proof {
            lemma_ground_outs_bounded(bip as int, m as int);
            assert(bip * m <= 0xffff_ffffu128 * 0xffff_ffffu128) by (nonlinear_arith)
                requires bip <= 0xffff_ffff, m <= 0xffff_ffff;
        }
        let x: u128 = 2 * (bip as u128 * m) + 1000 + m;
        let d: u128 = 2 * (1000 + m);
        assert(x as int == 2 * (bip as int) * (m as int) + 1000 + m) by (nonlinear_arith)
            requires x == 2 * (bip * m) + 1000 + m;
        assert(x / d == ground_outs(bip as int, m as int));
        let go: u64 = (x / d) as u64;
        let ao: u64 = bip - go;
        let one_b: u64 = h as u64 - two_b as u64 - three_b as u64 - hr as u64;
        let stat: [u64; 9] = [
            ao,
            go,
            so as u64,
            bb as u64,
            ibb as u64,
            one_b,
            two_b as u64,
            three_b as u64,
            hr as u64,
        ];
        Ok(Player { stat })
    }

    /// The nine outcome weights.
    pub fn stat(&self) -> (r: [u64; 9])
        ensures
            r@ == self@,
            forall|k: int| 0 <= k < 9 ==> #[trigger] r@[k] <= u32::MAX,
    {
        proof {
            use_type_invariant(self);
        }
        self.stat
    }
}

} // verus!
