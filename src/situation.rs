use vstd::prelude::*;
use crate::expectancy::{expected_runs, er_value, RUN};

verus! {

/// The result of one plate appearance.
#[derive(Clone, Copy, Debug, PartialEq, Eq, Structural)]
pub enum HitResult {
    /// Fly out (air out).
    AO,
    /// Ground out.
    GO,
    /// Strikeout.
    SO,
    /// Walk.
    BB,
    /// Intentional walk.
    IBB,
    /// Single.
    OneBase,
    /// Double.
    TwoBase,
    /// Triple.
    ThreeBase,
    /// Home run.
    HR,
}

/// Which bases are occupied and how many outs have been made.
#[derive(Clone, Copy, Debug, PartialEq, Eq, Structural)]
pub struct BaseSituation {
    pub one_base: bool,
    pub two_base: bool,
    pub three_base: bool,
    pub out: i32,
}

pub open spec fn occupied(b: bool) -> int {
    if b { 1 } else { 0 }
}

/// The empty bases with no out: the state a half-inning starts from.
pub open spec fn empty_situation() -> BaseSituation {
    BaseSituation { one_base: false, two_base: false, three_base: false, out: 0 }
}

/// Outs that the result adds.
pub open spec fn outs_made(h: HitResult) -> int {
    match h {
        HitResult::AO | HitResult::GO | HitResult::SO => 1,
        _ => 0,
    }
}

/// Whether the result ends the half-inning from `s`.
pub open spec fn inning_ends(s: BaseSituation, h: HitResult) -> bool {
    s.out + outs_made(h) >= 3
}

/// Runs that score on the play.
pub open spec fn runs_scored(s: BaseSituation, h: HitResult) -> int {
    match h {
        HitResult::AO => if inning_ends(s, h) { 0 } else { occupied(s.three_base) },
        HitResult::GO | HitResult::SO => 0,
        HitResult::BB | HitResult::IBB =>
            if s.one_base && s.two_base && s.three_base { 1 } else { 0 },
        HitResult::OneBase => occupied(s.three_base),
        HitResult::TwoBase => occupied(s.three_base) + occupied(s.two_base),
        HitResult::ThreeBase =>
            occupied(s.three_base) + occupied(s.two_base) + occupied(s.one_base),
        HitResult::HR =>
            occupied(s.three_base) + occupied(s.two_base) + occupied(s.one_base) + 1,
    }
}

/// The bases and outs right after the play, before a third out clears them.
pub open spec fn after_play(s: BaseSituation, h: HitResult) -> BaseSituation {
    match h {
        HitResult::AO => if inning_ends(s, h) {
            BaseSituation { out: (s.out + 1) as i32, ..s }
        } else {
            BaseSituation {
                one_base: false,
                two_base: s.one_base,
                three_base: s.two_base,
                out: (s.out + 1) as i32,
            }
        },
        HitResult::GO | HitResult::SO => BaseSituation { out: (s.out + 1) as i32, ..s },
        HitResult::BB | HitResult::IBB => BaseSituation {
            one_base: true,
            two_base: s.two_base || s.one_base,
            three_base: s.three_base || (s.one_base && s.two_base),
            out: s.out,
        },
        HitResult::OneBase => BaseSituation {
            one_base: true,
            two_base: s.one_base,
            three_base: s.two_base,
            out: s.out,
        },
        HitResult::TwoBase => BaseSituation {
            one_base: false,
            two_base: true,
            three_base: s.one_base,
            out: s.out,
        },
        HitResult::ThreeBase => BaseSituation {
            one_base: false,
            two_base: false,
            three_base: true,
            out: s.out,
        },
        HitResult::HR => BaseSituation {
            one_base: false,
            two_base: false,
            three_base: false,
            out: s.out,
        },
    }
}

/// The state after the play: a third out starts from empty bases again.
pub open spec fn next_situation(s: BaseSituation, h: HitResult) -> BaseSituation {
    if inning_ends(s, h) { empty_situation() } else { after_play(s, h) }
}

/// Runs scored plus the change in expected runs, in ten-thousandths of a run;
/// a finished half-inning expects no more runs.
pub open spec fn run_value(s: BaseSituation, h: HitResult) -> int {
    let after = if inning_ends(s, h) { 0 } else { next_situation(s, h).er() };
    runs_scored(s, h) * RUN + after - s.er()
}

impl BaseSituation {
    pub open spec fn wf(self) -> bool {
        0 <= self.out < 3
    }

    /// Occupancy code: first = 1, second = 2, third = 4.
    pub open spec fn code(self) -> int {
        occupied(self.one_base) + 2 * occupied(self.two_base) + 4 * occupied(self.three_base)
    }

    /// Expected runs from this state, in ten-thousandths of a run.
    pub open spec fn er(self) -> int {
        er_value(self.code(), self.out as int)
    }

    /// Empty bases, no out.
    pub fn new() -> (r: Self)
        ensures
            r == empty_situation(),
    {
        BaseSituation { one_base: false, two_base: false, three_base: false, out: 0 }
    }

    /// Row (occupancy code) and column (outs) of this state in the run
    /// expectancy table.
    pub fn calc_row_column(&self) -> (r: (usize, usize))
        requires
            self.wf(),
        ensures
            r.0 as int == self.code(),
            r.1 as int == self.out,
            r.0 < 8,
            r.1 < 3,
    {
        let mut r: usize = 0;
        if self.one_base {
            r = r + 1;
        }
        if self.two_base {
            r = r + 2;
        }
        if self.three_base {
            r = r + 4;
        }
        (r, self.out as usize)
    }

    /// Plays `one_possible` from this state. Returns the run value of the play,
    /// in ten-thousandths of a run, and whether it ended the half-inning.
    pub fn update(&mut self, one_possible: &HitResult) -> (r: (i64, bool))
        requires
            old(self).wf(),
        ensures
            *final(self) == next_situation(*old(self), *one_possible),
            r.0 as int == run_value(*old(self), *one_possible),
            r.1 == inning_ends(*old(self), *one_possible),
            final(self).wf(),
    {
        let (row, col) = self.calc_row_column();
        let init_er = expected_runs(row, col);
        let run = match one_possible {
            HitResult::AO => ao_update(self),
            HitResult::GO | HitResult::SO => go_so_update(self),
            HitResult::BB | HitResult::IBB => bb_ibb_update(self),
            HitResult::OneBase => one_b_update(self),
            HitResult::TwoBase => two_b_update(self),
            HitResult::ThreeBase => three_b_update(self),
            HitResult::HR => hr_update(self),
        };
        let (after_er, inning_finished) = if self.out >= 3 {
            *self = BaseSituation::new();
            (0i64, true)
        } else {
            let (row, col) = self.calc_row_column();
            (expected_runs(row, col), false)
        };
        (run * RUN + (after_er - init_er), inning_finished)
    }
}

/// Air out: with fewer than three outs every runner moves up one base and the
/// runner from third scores.
fn ao_update(situation: &mut BaseSituation) -> (run: i64)
    requires
        old(situation).wf(),
    ensures
        *final(situation) == after_play(*old(situation), HitResult::AO),
        run as int == runs_scored(*old(situation), HitResult::AO),
{
    let mut run: i64 = 0;
    situation.out = situation.out + 1;
    if situation.out >= 3 {
        return 0;
    }
    if situation.three_base {
        situation.three_base = false;
        run = run + 1;
    }
    if situation.two_base {
        situation.two_base = false;
        situation.three_base = true;
    }
    if situation.one_base {
        situation.one_base = false;
        situation.two_base = true;
    }
    run
}

/// Ground out or strikeout: one more out, nobody moves.
fn go_so_update(situation: &mut BaseSituation) -> (run: i64)
    requires
        old(situation).wf(),
    ensures
        *final(situation) == after_play(*old(situation), HitResult::GO),
        run == 0,
{
    situation.out = situation.out + 1;
    0
}

/// Walk: the batter takes first and only forced runners move up.
fn bb_ibb_update(situation: &mut BaseSituation) -> (run: i64)
    ensures
        *final(situation) == after_play(*old(situation), HitResult::BB),
        run as int == runs_scored(*old(situation), HitResult::BB),
{
    let mut run: i64 = 0;
    if !situation.one_base {
        situation.one_base = true;
    } else if !situation.two_base {
        situation.two_base = true;
    } else if !situation.three_base {
        situation.three_base = true;
    } else {
        run = run + 1;
    }
    run
}

/// Single: runners move up one base, the runner from third scores, the batter
/// takes first.
fn one_b_update(situation: &mut BaseSituation) -> (run: i64)
    ensures
        *final(situation) == after_play(*old(situation), HitResult::OneBase),
        run as int == runs_scored(*old(situation), HitResult::OneBase),
{
    let mut run: i64 = 0;
    if situation.three_base {
        situation.three_base = false;
        run = run + 1;
    }
    if situation.two_base {
        situation.two_base = false;
        situation.three_base = true;
    }
    if situation.one_base {
        situation.one_base = false;
        situation.two_base = true;
    }
    situation.one_base = true;
    run
}

/// Double: runners from second and third score, the runner from first goes to
/// third, the batter takes second.
fn two_b_update(situation: &mut BaseSituation) -> (run: i64)
    ensures
        *final(situation) == after_play(*old(situation), HitResult::TwoBase),
        run as int == runs_scored(*old(situation), HitResult::TwoBase),
{
    let mut run: i64 = 0;
    if situation.three_base {
        situation.three_base = false;
        run = run + 1;
    }
    if situation.two_base {
        situation.two_base = false;
        run = run + 1;
    }
    if situation.one_base {
        situation.one_base = false;
        situation.three_base = true;
    }
    situation.two_base = true;
    run
}

/// Triple: every runner scores, the batter takes third.
fn three_b_update(situation: &mut BaseSituation) -> (run: i64)
    ensures
        *final(situation) == after_play(*old(situation), HitResult::ThreeBase),
        run as int == runs_scored(*old(situation), HitResult::ThreeBase),
{
    let mut run: i64 = 0;
    if situation.three_base {
        situation.three_base = false;
        run = run + 1;
    }
    if situation.two_base {
        situation.two_base = false;
        run = run + 1;
    }
    if situation.one_base {
        situation.one_base = false;
        run = run + 1;
    }
    situation.three_base = true;
    run
}

/// Home run: every runner and the batter score.
fn hr_update(situation: &mut BaseSituation) -> (run: i64)
    ensures
        *final(situation) == after_play(*old(situation), HitResult::HR),
        run as int == runs_scored(*old(situation), HitResult::HR),
{
    let mut run: i64 = 0;
    if situation.three_base {
        situation.three_base = false;
        run = run + 1;
    }
    if situation.two_base {
        situation.two_base = false;
        run = run + 1;
    }
    if situation.one_base {
        situation.one_base = false;
        run = run + 1;
    }
    run = run + 1;
    run
}

} // verus!
