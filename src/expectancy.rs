use vstd::prelude::*;

verus! {

/// One run, in the ten-thousandths of a run that all run values are counted in.
pub const RUN: i64 = 10000;

/// Expected runs for the rest of the half-inning, in ten-thousandths of a run,
/// from the occupancy code `code` (first = 1, second = 2, third = 4) and `outs`.
pub open spec fn er_value(code: int, outs: int) -> int
    recommends
        0 <= code < 8,
        0 <= outs < 3,
{
    let row: Seq<int> = seq![
        4886, 2630, 1008,
        8577, 5115, 2213,
        10732, 6551, 3187,
        14423, 9036, 4392,
        13081, 8977, 3634,
        16772, 11462, 4839,
        18927, 12898, 5813,
        22618, 15383, 7018,
    ];
    row[code * 3 + outs]
}

/// Looks up the run expectancy table.
pub fn expected_runs(code: usize, outs: usize) -> (r: i64)
    requires
        code < 8,
        outs < 3,
    ensures
        r as int == er_value(code as int, outs as int),
        0 < r <= 22618,
{
    let r: i64 = match (code, outs) {
        (0, 0) => 4886,
        (0, 1) => 2630,
        (0, _) => 1008,
        (1, 0) => 8577,
        (1, 1) => 5115,
        (1, _) => 2213,
        (2, 0) => 10732,
        (2, 1) => 6551,
        (2, _) => 3187,
        (3, 0) => 14423,
        (3, 1) => 9036,
        (3, _) => 4392,
        (4, 0) => 13081,
        (4, 1) => 8977,
        (4, _) => 3634,
        (5, 0) => 16772,
        (5, 1) => 11462,
        (5, _) => 4839,
        (6, 0) => 18927,
        (6, 1) => 12898,
        (6, _) => 5813,
        (_, 0) => 22618,
        (_, 1) => 15383,
        (_, _) => 7018,
    };
    r
}

} // verus!
