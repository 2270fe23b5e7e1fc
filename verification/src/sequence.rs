//! Action sequences: ordered, replayable lists of primitive input steps,
//! and their expansion into the flat list of low-level operations that the
//! driver performs one by one.
//!
//! Scroll sign convention: a step `ScrollBy(n)` with positive `n` means a
//! conceptual downward scroll; each of its `|n|` single units is issued with
//! the inverted low-level delta `-1` (and `+1` for negative `n`).  Every
//! unit is followed by a fixed settle delay.

use vstd::prelude::*;
use crate::config::{CLICK_DELAY_MS, POST_SCROLL_DELAY_MS, SCROLL_DELAY_MS};
use crate::types::Position;

verus! {

/// One step of an action sequence.  Execution is strictly sequential:
/// no branching, no retries.
#[derive(Clone, Copy, Debug, PartialEq, Eq, Structural)]
pub enum ActionStep {
    /// Move the cursor to a fixed position.
    MoveTo(Position),
    /// Press the primary button once at the current position.
    Click,
    /// Scroll by the given signed amount (see the sign convention above).
    ScrollBy(i32),
    /// Let the target application settle for the given time.
    WaitMs(u64),
}

/// One primitive operation handed to the input driver.
#[derive(Clone, Copy, Debug, PartialEq, Eq, Structural)]
pub enum InputOp {
    /// Move the cursor to absolute coordinates.
    MoveCursor(i32, i32),
    /// Press the primary button once.
    PressButton,
    /// Scroll by a single low-level unit (`-1` or `1`).
    ScrollUnit(i32),
    /// Sleep for the given number of milliseconds.
    Sleep(u64),
}

/// The low-level delta of each single scroll unit: inverted from the sign
/// of the step amount.
pub open spec fn scroll_unit_delta(n: i32) -> i32 {
    if n > 0 {
        -1i32
    } else {
        1i32
    }
}

/// How many single scroll units a `ScrollBy(n)` step issues.
pub open spec fn scroll_mag(n: i32) -> nat {
    if n >= 0 {
        n as nat
    } else {
        (-(n as int)) as nat
    }
}

/// The operations of a `ScrollBy(n)` step: `|n|` single units, each
/// followed by the settle delay.
pub open spec fn scroll_ops(n: i32) -> Seq<InputOp> {
    Seq::new(
        2 * scroll_mag(n),
        |i: int|
            if i % 2 == 0 {
                InputOp::ScrollUnit(scroll_unit_delta(n))
            } else {
                InputOp::Sleep(POST_SCROLL_DELAY_MS)
            },
    )
}

/// The operations of one step.
pub open spec fn step_ops(s: ActionStep) -> Seq<InputOp> {
    match s {
        ActionStep::MoveTo(p) => seq![InputOp::MoveCursor(p.x, p.y)],
        ActionStep::Click => seq![InputOp::PressButton],
        ActionStep::ScrollBy(n) => scroll_ops(n),
        ActionStep::WaitMs(d) => seq![InputOp::Sleep(d)],
    }
}

/// The operations of a whole sequence, in step order.
pub open spec fn seq_ops(steps: Seq<ActionStep>) -> Seq<InputOp>
    decreases steps.len(),
{
    if steps.len() == 0 {
        Seq::empty()
    } else {
        step_ops(steps.first()) + seq_ops(steps.drop_first())
    }
}

/// Expansion distributes over appending one step at the end.
pub proof fn lemma_seq_ops_push(steps: Seq<ActionStep>, s: ActionStep)
    ensures
        seq_ops(steps.push(s)) == seq_ops(steps) + step_ops(s),
    decreases steps.len(),
{
    if steps.len() == 0 {
        let p = steps.push(s);
        assert(p.first() == s);
        assert(p.drop_first() =~= Seq::<ActionStep>::empty());
        assert(seq_ops(Seq::<ActionStep>::empty()) == Seq::<InputOp>::empty());
        assert(seq_ops(p) == step_ops(s) + Seq::<InputOp>::empty());
        assert(seq_ops(steps.push(s)) =~= seq_ops(steps) + step_ops(s));
    } else {
        assert(steps.push(s).drop_first() =~= steps.drop_first().push(s));
        lemma_seq_ops_push(steps.drop_first(), s);
        assert(seq_ops(steps.push(s)) =~= seq_ops(steps) + step_ops(s));
    }
}

/// The steps of one settled click at a position: move, settle, press,
/// settle again.
pub open spec fn click_at_steps(p: Position) -> Seq<ActionStep> {
    seq![
        ActionStep::MoveTo(p),
        ActionStep::WaitMs(CLICK_DELAY_MS),
        ActionStep::Click,
        ActionStep::WaitMs(CLICK_DELAY_MS),
    ]
}

/// The steps of one scroll gesture at a hover position: move there,
/// settle, then scroll by the signed amount.
pub open spec fn scroll_at_steps(p: Position, n: i32) -> Seq<ActionStep> {
    seq![
        ActionStep::MoveTo(p),
        ActionStep::WaitMs(SCROLL_DELAY_MS),
        ActionStep::ScrollBy(n),
    ]
}

/// The operations of the bare move-and-press pair used by the primary
/// action (no settle delays: the tick cadence itself spaces the clicks).
pub open spec fn move_click_ops(p: Position) -> Seq<InputOp> {
    seq![InputOp::MoveCursor(p.x, p.y), InputOp::PressButton]
}

/// An ordered, replayable list of input steps representing one named macro.
pub struct ActionSequence {
    pub steps: Vec<ActionStep>,
}

impl ActionSequence {
    pub fn new() -> (s: ActionSequence)
        ensures
            s.steps@ == Seq::<ActionStep>::empty(),
    {
        ActionSequence { steps: Vec::new() }
    }

    /// Append one raw step.
    pub fn push_step(&mut self, s: ActionStep)
        ensures
            final(self).steps@ == old(self).steps@.push(s),
    {
        self.steps.push(s);
    }

    /// Append a settled click at a position.
    pub fn click_at(&mut self, p: Position)
        ensures
            final(self).steps@ == old(self).steps@ + click_at_steps(p),
    {
        self.steps.push(ActionStep::MoveTo(p));
        self.steps.push(ActionStep::WaitMs(CLICK_DELAY_MS));
        self.steps.push(ActionStep::Click);
        self.steps.push(ActionStep::WaitMs(CLICK_DELAY_MS));
        proof {
            assert(self.steps@ =~= old(self).steps@ + click_at_steps(p));
        }
    }

    /// Append a scroll gesture at a hover position.
    pub fn scroll_at(&mut self, p: Position, amount: i32)
        ensures
            final(self).steps@ == old(self).steps@ + scroll_at_steps(p, amount),
    {
        self.steps.push(ActionStep::MoveTo(p));
        self.steps.push(ActionStep::WaitMs(SCROLL_DELAY_MS));
        self.steps.push(ActionStep::ScrollBy(amount));
        proof {
            assert(self.steps@ =~= old(self).steps@ + scroll_at_steps(p, amount));
        }
    }

    /// Append a bare settle delay.
    pub fn wait_ms(&mut self, d: u64)
        ensures
            final(self).steps@ == old(self).steps@.push(ActionStep::WaitMs(d)),
    {
        self.steps.push(ActionStep::WaitMs(d));
    }

    /// Flatten the sequence into the primitive operations the driver
    /// performs, in order.
    pub fn expand(&self) -> (ops: Vec<InputOp>)
        ensures
            ops@ == seq_ops(self.steps@),
    {
        let mut ops: Vec<InputOp> = Vec::new();
        let n = self.steps.len();
        proof {
            assert(self.steps@.take(0) =~= Seq::<ActionStep>::empty());
        }
        for i in 0..n
            invariant
                n == self.steps@.len(),
                ops@ == seq_ops(self.steps@.take(i as int)),
        {
            let step = self.steps[i];
            push_step_ops(&mut ops, step);
            proof {
                assert(self.steps@.take(i + 1) =~= self.steps@.take(i as int).push(step));
                lemma_seq_ops_push(self.steps@.take(i as int), step);
            }
        }
        proof {
            assert(self.steps@.take(n as int) =~= self.steps@);
        }
        ops
    }
}

/// Append the operations of one step to an operation list.
fn push_step_ops(ops: &mut Vec<InputOp>, step: ActionStep)
    ensures
        final(ops)@ == old(ops)@ + step_ops(step),
{
    match step {
        ActionStep::MoveTo(p) => {
            ops.push(InputOp::MoveCursor(p.x, p.y));
            proof {
                assert(ops@ =~= old(ops)@ + step_ops(step));
            }
        },
        ActionStep::Click => {
            ops.push(InputOp::PressButton);
            proof {
                assert(ops@ =~= old(ops)@ + step_ops(step));
            }
        },
        ActionStep::WaitMs(d) => {
            ops.push(InputOp::Sleep(d));
            proof {
                assert(ops@ =~= old(ops)@ + step_ops(step));
            }
        },
        ActionStep::ScrollBy(n) => {
            let delta: i32 = if n > 0 {
                -1
            } else {
                1
            };
            let mag: u32 = if n >= 0 {
                n as u32
            } else {
                proof {
                    assert(-(n as int) <= u32::MAX as int);
                }
                (-(n as i64)) as u32
            };
            proof {
                assert(mag as nat == scroll_mag(n));
            }
            for j in 0..mag
                invariant
                    mag as nat == scroll_mag(n),
                    delta == scroll_unit_delta(n),
                    ops@ == old(ops)@ + scroll_ops(n).take(2 * j as int),
            {
                ops.push(InputOp::ScrollUnit(delta));
                ops.push(InputOp::Sleep(POST_SCROLL_DELAY_MS));
                proof {
                    assert(scroll_ops(n).take(2 * (j + 1) as int) =~= scroll_ops(n).take(
                        2 * j as int,
                    ).push(InputOp::ScrollUnit(scroll_unit_delta(n))).push(
                        InputOp::Sleep(POST_SCROLL_DELAY_MS),
                    ));
                    assert(ops@ =~= old(ops)@ + scroll_ops(n).take(2 * (j + 1) as int));
                }
            }
            proof {
                assert(scroll_ops(n).take(2 * mag as int) =~= scroll_ops(n));
            }
        },
    }
}

} // verus!
