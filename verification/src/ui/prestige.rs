//! The prestige dialog: its button positions and the three-click
//! sequence, with settle delays, that performs one prestige.

use vstd::prelude::*;
use crate::config::{PRESTIGE_COMPLETE_WAIT_MS, PRESTIGE_WAIT_MS};
use crate::sequence::{click_at_steps, ActionSequence, ActionStep};
use crate::types::Position;

verus! {

/// Positions of the prestige button and its confirmation dialog.
pub struct Prestige {
    pub button: Position,
    pub claim_button: Position,
    pub confirm_button: Position,
}

impl Prestige {
    pub fn new() -> (p: Prestige)
        ensures
            p.button == (Position { x: 1200, y: 245 }),
            p.claim_button == (Position { x: 1850, y: 1115 }),
            p.confirm_button == (Position { x: 1285, y: 860 }),
    {
        Prestige {
            button: Position { x: 1200, y: 245 },
            claim_button: Position { x: 1850, y: 1115 },
            confirm_button: Position { x: 1285, y: 860 },
        }
    }

    /// Start, wait, claim, wait, confirm, then wait for the reset.
    pub open spec fn spec_do_prestige_steps(self) -> Seq<ActionStep> {
        click_at_steps(self.button) + seq![ActionStep::WaitMs(PRESTIGE_WAIT_MS)] + click_at_steps(
            self.claim_button,
        ) + seq![ActionStep::WaitMs(PRESTIGE_WAIT_MS)] + click_at_steps(self.confirm_button)
            + seq![ActionStep::WaitMs(PRESTIGE_COMPLETE_WAIT_MS)]
    }

    /// The sequence that performs one full prestige.
    pub fn do_prestige(&self) -> (s: ActionSequence)
        ensures
            s.steps@ == self.spec_do_prestige_steps(),
    {
        let mut s = ActionSequence::new();
        s.click_at(self.button);
        s.wait_ms(PRESTIGE_WAIT_MS);
        s.click_at(self.claim_button);
        s.wait_ms(PRESTIGE_WAIT_MS);
        s.click_at(self.confirm_button);
        s.wait_ms(PRESTIGE_COMPLETE_WAIT_MS);
        proof {
            assert(s.steps@ =~= self.spec_do_prestige_steps());
        }
        s
    }
}

} // verus!
