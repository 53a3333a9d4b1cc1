//! The trajectory run: its emission policy, termination rule and step cap.
//!
//! A [`Run`] owns the output of one simulation. It starts with the initial
//! sample, then the integration kernel repeatedly offers it the sample
//! produced by one more fixed-timestep step, and the run decides: a sample
//! strictly above ground is appended and the run goes on; a sample at or
//! below ground is discarded, the run is landed, and nothing more is
//! accepted. The run also stops asking once a caller-supplied step ceiling
//! is reached, and never asks while the current height is below ground.
//!
//! [`drive_model`] is the mathematical form of that policy: what a run
//! becomes when a whole sequence of samples is offered to it. The proof
//! functions below state the laws of the policy over that model.

use vstd::prelude::*;

use crate::fp::{ge_zero64, gt_zero64, is_above_zero, is_at_least_zero, F64_ZERO};

verus! {

/// One emitted sample: time and position, each field the bits of a double.
#[derive(Clone, Copy, PartialEq, Eq, Structural, Debug)]
pub struct Row {
    /// Elapsed time (s).
    pub t: u64,
    /// Horizontal position (m).
    pub x: u64,
    /// Height above ground (m).
    pub y: u64,
}

/// Whether a run with output `rows`, landing flag `landed` and step ceiling
/// `max` may take one more step: it is not landed, has taken fewer steps
/// than the ceiling, and its current height is at least zero.
pub open spec fn can_advance(rows: Seq<Row>, landed: bool, max: nat) -> bool {
    rows.len() > 0 && !landed && rows.len() - 1 < max && ge_zero64(rows.last().y)
}

/// The run that results when the samples in `offered` are presented one by
/// one to a run holding `rows` with landing flag `landed` and step ceiling
/// `max`: samples strictly above ground are appended while the run may
/// advance; the first sample at or below ground lands the run and is
/// discarded.
pub open spec fn drive_model(rows: Seq<Row>, landed: bool, max: nat, offered: Seq<Row>) -> (Seq<
    Row,
>, bool)
    decreases offered.len(),
{
    if offered.len() == 0 || !can_advance(rows, landed, max) {
        (rows, landed)
    } else if gt_zero64(offered[0].y) {
        drive_model(rows.push(offered[0]), landed, max, offered.drop_first())
    } else {
        (rows, true)
    }
}

/// One simulation run: the rows emitted so far and the state of its
/// termination policy.
#[derive(Debug)]
pub struct Run {
    /// The emitted samples, in step order; the first is the initial sample.
    pub rows: Vec<Row>,
    /// How many offered samples have been accepted.
    pub steps: u64,
    /// Whether a sample at or below ground has ended the run.
    pub landed: bool,
    /// The most samples the run will accept.
    pub max_steps: u64,
}

impl Run {
    /// Well-formedness: one row per accepted step plus the initial row, and
    /// every row beyond the first strictly above ground. [`Run::start`]
    /// establishes it and [`Run::offer`] preserves it.
    pub open spec fn wf(self) -> bool {
        &&& self.rows@.len() == self.steps + 1
        &&& forall|i: int| 1 <= i < self.rows@.len() ==> gt_zero64(#[trigger] self.rows@[i].y)
    }

    /// Whether the run wants one more integration step.
    pub open spec fn wants(self) -> bool {
        self.rows@.len() > 0 && !self.landed && self.steps < self.max_steps && ge_zero64(
            self.rows@.last().y,
        )
    }

    /// Begin a run: the initial sample (zero time, zero horizontal position,
    /// the configured initial height) is emitted unconditionally, even when
    /// that height is below ground.
    pub fn start(y0: u64, max_steps: u64) -> (r: Run)
        ensures
            r.rows@.len() == 1,
            r.rows@[0] == (Row { t: F64_ZERO, x: F64_ZERO, y: y0 }),
            r.steps == 0,
            !r.landed,
            r.max_steps == max_steps,
            r.wf(),
    {
        let mut rows: Vec<Row> = Vec::new();
        rows.push(Row { t: F64_ZERO, x: F64_ZERO, y: y0 });
        Run { rows, steps: 0, landed: false, max_steps }
    }

    /// Whether the run wants one more integration step: the kernel keeps
    /// stepping exactly while this holds.
    pub fn wants_step(&self) -> (r: bool)
        ensures
            r == self.wants(),
    {
        if self.rows.len() == 0 {
            false
        } else {
            let last: Row = self.rows[self.rows.len() - 1];
            !self.landed && self.steps < self.max_steps && is_at_least_zero(last.y)
        }
    }

    /// Offer the run the sample produced by one more integration step. A
    /// sample strictly above ground is appended; one at or below ground is
    /// discarded and lands the run. A run that wants no step ignores the
    /// offer, so the call is total.
    pub fn offer(&mut self, row: Row)
        ensures
            final(self).max_steps == old(self).max_steps,
            !old(self).wants() ==> *final(self) == *old(self),
            old(self).wants() && gt_zero64(row.y) ==> final(self).rows@ == old(self).rows@.push(
                row,
            ) && final(self).steps == old(self).steps + 1 && final(self).landed == old(
                self,
            ).landed,
            old(self).wants() && !gt_zero64(row.y) ==> final(self).rows@ == old(self).rows@
                && final(self).steps == old(self).steps && final(self).landed,
            old(self).wf() ==> final(self).wf(),
            old(self).wf() ==> (final(self).rows@, final(self).landed) == drive_model(
                old(self).rows@,
                old(self).landed,
                old(self).max_steps as nat,
                seq![row],
            ),
    {
        let go = self.wants_step();
        if go {
            if is_above_zero(row.y) {
                self.rows.push(row);
                self.steps = self.steps + 1;
            } else {
                self.landed = true;
            }
        }
        proof {
            let orows = old(self).rows@;
            let om = old(self).max_steps as nat;
            if old(self).wf() {
                if old(self).wants() && gt_zero64(row.y) {
                    assert forall|i: int| 1 <= i < self.rows@.len() implies gt_zero64(
                        #[trigger] self.rows@[i].y,
                    ) by {
                        if i < orows.len() {
                            assert(self.rows@[i] == orows[i]);
                        } else {
                            assert(self.rows@[i] == row);
                        }
                    }
                    assert(seq![row].drop_first() =~= Seq::<Row>::empty());
                    assert(drive_model(orows.push(row), old(self).landed, om, seq![
                        row,
                    ].drop_first()) == (orows.push(row), old(self).landed));
                }
                assert(old(self).wants() == can_advance(orows, old(self).landed, om));
            }
        }
    }
}

/// Law: the first emitted row is never revised. Whatever samples the kernel
/// offers, the first row of the output is the initial sample the run began
/// with.
pub proof fn lemma_first_row_fixed(rows: Seq<Row>, landed: bool, max: nat, offered: Seq<Row>)
    requires
        rows.len() > 0,
    ensures
        drive_model(rows, landed, max, offered).0.len() >= rows.len(),
        drive_model(rows, landed, max, offered).0[0] == rows[0],
    decreases offered.len(),
{
    if offered.len() > 0 && can_advance(rows, landed, max) && gt_zero64(offered[0].y) {
        let pushed = rows.push(offered[0]);
        assert(pushed[0] == rows[0]);
        lemma_first_row_fixed(pushed, landed, max, offered.drop_first());
    }
}

/// Law: every row emitted beyond the first is strictly above ground. Where
/// the rows held before already satisfy this, so do the rows held after any
/// sequence of offered samples.
pub proof fn lemma_rows_above_ground(rows: Seq<Row>, landed: bool, max: nat, offered: Seq<Row>)
    requires
        forall|i: int| 1 <= i < rows.len() ==> gt_zero64(#[trigger] rows[i].y),
    ensures
        forall|i: int| 1 <= i < drive_model(rows, landed, max, offered).0.len() ==> gt_zero64(
            #[trigger] drive_model(rows, landed, max, offered).0[i].y,
        ),
    decreases offered.len(),
{
    if offered.len() > 0 && can_advance(rows, landed, max) && gt_zero64(offered[0].y) {
        let pushed = rows.push(offered[0]);
        assert forall|i: int| 1 <= i < pushed.len() implies gt_zero64(#[trigger] pushed[i].y) by {
            if i < rows.len() {
                assert(pushed[i] == rows[i]);
            } else {
                assert(pushed[i] == offered[0]);
            }
        }
        lemma_rows_above_ground(pushed, landed, max, offered.drop_first());
        assert(drive_model(rows, landed, max, offered) == drive_model(
            pushed,
            landed,
            max,
            offered.drop_first(),
        ));
        assert forall|i: int| 1 <= i < drive_model(rows, landed, max, offered).0.len() implies
            gt_zero64(#[trigger] drive_model(rows, landed, max, offered).0[i].y) by {
            assert(gt_zero64(drive_model(pushed, landed, max, offered.drop_first()).0[i].y));
        }
    }
}

/// Law: a run lands only on a sample at or below ground, and that sample is
/// not emitted. Where a run that was not landed comes out landed, some
/// offered sample was at or below ground, every offered sample before it was
/// accepted, and the output is exactly the rows held before plus that
/// accepted prefix — the landing sample itself is dropped.
pub proof fn lemma_landing(rows: Seq<Row>, max: nat, offered: Seq<Row>)
    ensures
        drive_model(rows, false, max, offered).1 ==> exists|j: int|
            0 <= j < offered.len() && !gt_zero64(#[trigger] offered[j].y) && drive_model(
                rows,
                false,
                max,
                offered,
            ).0 == rows + offered.take(j),
    decreases offered.len(),
{
    if offered.len() == 0 || !can_advance(rows, false, max) {
        // the run stops unlanded: nothing to show
    } else if gt_zero64(offered[0].y) {
        let pushed = rows.push(offered[0]);
        let rest = offered.drop_first();
        lemma_landing(pushed, max, rest);
        if drive_model(rows, false, max, offered).1 {
            let j2 = choose|j: int|
                0 <= j < rest.len() && !gt_zero64(#[trigger] rest[j].y) && drive_model(
                    pushed,
                    false,
                    max,
                    rest,
                ).0 == pushed + rest.take(j);
            assert(rest[j2] == offered[j2 + 1]);
            assert(rows + offered.take(j2 + 1) =~= pushed + rest.take(j2));
            assert(0 <= j2 + 1 < offered.len() && !gt_zero64(offered[j2 + 1].y) && drive_model(
                rows,
                false,
                max,
                offered,
            ).0 == rows + offered.take(j2 + 1));
        }
    } else {
        assert(rows + offered.take(0) =~= rows);
        assert(0 <= 0 < offered.len() && !gt_zero64(offered[0].y) && drive_model(
            rows,
            false,
            max,
            offered,
        ).0 == rows + offered.take(0));
    }
}

/// Law: the step ceiling is honoured. A run holding no more rows than one
/// per allowed step plus the initial sample never comes to hold more,
/// however many samples are offered: the ceiling is a working safety valve
/// against trajectories that never come down.
pub proof fn lemma_step_ceiling(rows: Seq<Row>, landed: bool, max: nat, offered: Seq<Row>)
    requires
        rows.len() <= max + 1,
    ensures
        drive_model(rows, landed, max, offered).0.len() <= max + 1,
    decreases offered.len(),
{
    if offered.len() > 0 && can_advance(rows, landed, max) && gt_zero64(offered[0].y) {
        lemma_step_ceiling(rows.push(offered[0]), landed, max, offered.drop_first());
    }
}

/// Law: a run is deterministic. The output is a pure function of the rows it
/// starts with, its landing flag, its step ceiling and the samples offered:
/// identical inputs give bit-identical output.
pub proof fn lemma_run_deterministic(
    rows1: Seq<Row>,
    landed1: bool,
    max1: nat,
    offered1: Seq<Row>,
    rows2: Seq<Row>,
    landed2: bool,
    max2: nat,
    offered2: Seq<Row>,
)
    requires
        rows1 == rows2,
        landed1 == landed2,
        max1 == max2,
        offered1 == offered2,
    ensures
        drive_model(rows1, landed1, max1, offered1) == drive_model(rows2, landed2, max2, offered2),
{
}

} // verus!
