use vstd::prelude::*;

verus! {

/// No run value of a single play is larger than this in magnitude:
/// four runs plus the largest expected runs, in ten-thousandths of a run.
pub const VALUE_BOUND: i64 = 62618;

pub open spec fn seq_sum(v: Seq<int>) -> int
    decreases v.len(),
{
    if v.len() == 0 {
        0
    } else {
        seq_sum(v.drop_last()) + v.last()
    }
}

pub open spec fn seq_sum_sq(v: Seq<int>) -> int
    decreases v.len(),
{
    if v.len() == 0 {
        0
    } else {
        seq_sum_sq(v.drop_last()) + v.last() * v.last()
    }
}

/// Running totals of the run values of a number of trials: the count, the sum
/// and the sum of squares, from which the mean and variance follow.
pub struct Aggregate {
    pub trials: u64,
    pub sum: i128,
    pub sum_sq: i128,
    /// The values recorded, in order.
    pub values: Ghost<Seq<int>>,
}

proof fn lemma_sums_bounded(v: Seq<int>)
    requires
        forall|i: int| 0 <= i < v.len() ==> -VALUE_BOUND <= #[trigger] v[i] <= VALUE_BOUND,
    ensures
        -(VALUE_BOUND * v.len()) <= seq_sum(v) <= VALUE_BOUND * v.len(),
        0 <= seq_sum_sq(v) <= VALUE_BOUND * VALUE_BOUND * v.len(),
    decreases v.len(),
{
    if v.len() > 0 {
        let u = v.drop_last();
        assert forall|i: int| 0 <= i < u.len() implies -VALUE_BOUND <= #[trigger] u[i]
            <= VALUE_BOUND by {
            assert(u[i] == v[i]);
        }
        lemma_sums_bounded(u);
        let x = v.last();
        assert(-VALUE_BOUND <= x <= VALUE_BOUND) by {
            assert(x == v[v.len() - 1]);
        }
        assert(0 <= x * x <= VALUE_BOUND * VALUE_BOUND) by (nonlinear_arith)
            requires -VALUE_BOUND <= x <= VALUE_BOUND;
        assert(VALUE_BOUND * VALUE_BOUND * v.len() == VALUE_BOUND * VALUE_BOUND * u.len()
            + VALUE_BOUND * VALUE_BOUND) by (nonlinear_arith)
            requires v.len() == u.len() + 1;
    }
}

proof fn lemma_sums_concat(a: Seq<int>, b: Seq<int>)
    ensures
        seq_sum(a + b) == seq_sum(a) + seq_sum(b),
        seq_sum_sq(a + b) == seq_sum_sq(a) + seq_sum_sq(b),
    decreases b.len(),
{
    if b.len() > 0 {
        lemma_sums_concat(a, b.drop_last());
        assert((a + b).drop_last() =~= a + b.drop_last());
        assert((a + b).last() == b.last());
    } else {
        assert(a + b =~= a);
    }
}

impl Aggregate {
    pub open spec fn wf(&self) -> bool {
        &&& self.trials == self.values@.len()
        &&& self.sum == seq_sum(self.values@)
        &&& self.sum_sq == seq_sum_sq(self.values@)
        &&& forall|i: int|
            0 <= i < self.values@.len() ==> -VALUE_BOUND <= #[trigger] self.values@[i]
                <= VALUE_BOUND
    }

    /// No trial yet.
    pub fn new() -> (r: Self)
        ensures
            r.wf(),
            r.values@ == Seq::<int>::empty(),
    {
        Aggregate { trials: 0, sum: 0, sum_sq: 0, values: Ghost(Seq::empty()) }
    }

    /// Records the run value of one more trial.
    pub fn record(&mut self, value: i64)
        requires
            old(self).wf(),
            old(self).trials < u64::MAX,
            -VALUE_BOUND <= value <= VALUE_BOUND,
        ensures
            final(self).wf(),
            final(self).values@ == old(self).values@.push(value as int),
    {
        let ghost before = self.values@;
        proof {
            lemma_sums_bounded(before);
            assert(VALUE_BOUND * VALUE_BOUND * before.len() <= VALUE_BOUND * VALUE_BOUND
                * 0xffff_ffff_ffff_ffff) by (nonlinear_arith)
                requires before.len() <= 0xffff_ffff_ffff_ffff;
            assert(0 <= value * value <= VALUE_BOUND * VALUE_BOUND) by (nonlinear_arith)
                requires -VALUE_BOUND <= value <= VALUE_BOUND;
            assert(VALUE_BOUND * before.len() <= VALUE_BOUND * 0xffff_ffff_ffff_ffff)
                by (nonlinear_arith)
                requires before.len() <= 0xffff_ffff_ffff_ffff;
        }
        let v: i128 = value as i128;
        self.trials = self.trials + 1;
        self.sum = self.sum + v;
        self.sum_sq = self.sum_sq + v * v;
        self.values = Ghost(before.push(value as int));
        proof {
            let after = self.values@;
            assert(after.drop_last() =~= before);
            assert forall|i: int| 0 <= i < after.len() implies -VALUE_BOUND <= #[trigger] after[i]
                <= VALUE_BOUND by {
                if i < before.len() {
                    assert(after[i] == before[i]);
                }
            }
        }
    }

    /// The totals of this set of trials followed by those of `other`.
    pub fn merge(&self, other: &Aggregate) -> (r: Aggregate)
        requires
            self.wf(),
            other.wf(),
            self.trials + other.trials <= u64::MAX,
        ensures
            r.wf(),
            r.values@ == self.values@ + other.values@,
    {
        proof {
            lemma_sums_bounded(self.values@);
            lemma_sums_bounded(other.values@);
            lemma_sums_concat(self.values@, other.values@);
            lemma_sums_bounded(self.values@ + other.values@);
            let n = self.values@.len() + other.values@.len();
            assert(VALUE_BOUND * VALUE_BOUND * n <= VALUE_BOUND * VALUE_BOUND
                * 0xffff_ffff_ffff_ffff) by (nonlinear_arith)
                requires n <= 0xffff_ffff_ffff_ffff;
            assert(VALUE_BOUND * n <= VALUE_BOUND * 0xffff_ffff_ffff_ffff) by (nonlinear_arith)
                requires n <= 0xffff_ffff_ffff_ffff;
        }
        let ghost values = self.values@ + other.values@;
        assert forall|i: int| 0 <= i < values.len() implies -VALUE_BOUND <= #[trigger] values[i]
            <= VALUE_BOUND by {
            if i < self.values@.len() {
                assert(values[i] == self.values@[i]);
            } else {
                assert(values[i] == other.values@[i - self.values@.len()]);
            }
        }
        Aggregate {
            trials: self.trials + other.trials,
            sum: self.sum + other.sum,
            sum_sq: self.sum_sq + other.sum_sq,
            values: Ghost(values),
        }
    }
}

} // verus!
