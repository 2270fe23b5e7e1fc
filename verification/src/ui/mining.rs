//! The minimal miner: the bare repeated move-and-click at the mining
//! target, with no gating at all.

use vstd::prelude::*;
use crate::config::GamePositions;
use crate::sequence::{move_click_ops, InputOp};
use crate::types::Position;

verus! {

/// A bare repeated clicker at the fixed mining target.
pub struct Miner {
    pub target: Position,
}

impl Miner {
    pub fn new() -> (m: Miner)
        ensures
            m.target == GamePositions::spec_mining(),
    {
        Miner { target: GamePositions::mining() }
    }

    /// One tick: the move-and-click pair at the mining target.
    pub fn tick(&self) -> (ops: Vec<InputOp>)
        ensures
            ops@ == move_click_ops(self.target),
    {
        let mut ops: Vec<InputOp> = Vec::new();
        ops.push(InputOp::MoveCursor(self.target.x, self.target.y));
        ops.push(InputOp::PressButton);
        proof {
            assert(ops@ =~= move_click_ops(self.target));
        }
        ops
    }
}

} // verus!
