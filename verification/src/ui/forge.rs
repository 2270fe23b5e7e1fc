//! The forge panel: its icon and tab positions, and the sequences that
//! open each of its pages.

use vstd::prelude::*;
use crate::sequence::{click_at_steps, ActionSequence};
use crate::types::Position;

verus! {

/// Positions of the forge panel's icon and its three tabs.
pub struct Forge {
    pub icon: Position,
    pub forge_button: Position,
    pub upgrade_button: Position,
    pub alchemy_button: Position,
}

impl Forge {
    pub fn new() -> (f: Forge)
        ensures
            f.icon == (Position { x: 115, y: 1315 }),
            f.forge_button == (Position { x: 200, y: 1200 }),
            f.upgrade_button == (Position { x: 575, y: 1200 }),
            f.alchemy_button == (Position { x: 940, y: 1200 }),
    {
        Forge {
            icon: Position { x: 115, y: 1315 },
            forge_button: Position { x: 200, y: 1200 },
            upgrade_button: Position { x: 575, y: 1200 },
            alchemy_button: Position { x: 940, y: 1200 },
        }
    }

    /// Click the panel icon, then one of its tabs.
    pub open spec fn spec_open_steps(self, tab: Position) -> Seq<crate::sequence::ActionStep> {
        click_at_steps(self.icon) + click_at_steps(tab)
    }

    /// The sequence that opens the forge page.
    pub fn open_forge(&self) -> (s: ActionSequence)
        ensures
            s.steps@ == self.spec_open_steps(self.forge_button),
    {
        let mut s = ActionSequence::new();
        s.click_at(self.icon);
        s.click_at(self.forge_button);
        proof {
            assert(s.steps@ =~= self.spec_open_steps(self.forge_button));
        }
        s
    }

    /// The sequence that opens the upgrade page.
    pub fn open_upgrades(&self) -> (s: ActionSequence)
        ensures
            s.steps@ == self.spec_open_steps(self.upgrade_button),
    {
        let mut s = ActionSequence::new();
        s.click_at(self.icon);
        s.click_at(self.upgrade_button);
        proof {
            assert(s.steps@ =~= self.spec_open_steps(self.upgrade_button));
        }
        s
    }

    /// The sequence that opens the alchemy page.
    pub fn open_alchemy(&self) -> (s: ActionSequence)
        ensures
            s.steps@ == self.spec_open_steps(self.alchemy_button),
    {
        let mut s = ActionSequence::new();
        s.click_at(self.icon);
        s.click_at(self.alchemy_button);
        proof {
            assert(s.steps@ =~= self.spec_open_steps(self.alchemy_button));
        }
        s
    }
}

} // verus!
