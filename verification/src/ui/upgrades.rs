//! The upgrades panel: its icon and tab positions, and the full click
//! sequences that buy every visible row of the upgrades and souls pages.

use vstd::prelude::*;
use crate::sequence::{click_at_steps, scroll_at_steps, ActionSequence, ActionStep};
use crate::types::Position;

verus! {

/// The hover position used while scrolling the panel.
pub open spec fn spec_scroll_hover() -> Position {
    Position { x: 1030, y: 630 }
}

/// Positions of the upgrades panel's icon and its three tabs.
pub struct Upgrades {
    pub icon: Position,
    pub upgrades_tab: Position,
    pub souls_tab: Position,
    pub relics_tab: Position,
}

impl Upgrades {
    pub fn new() -> (u: Upgrades)
        ensures
            u.icon == (Position { x: 570, y: 1315 }),
            u.upgrades_tab == (Position { x: 200, y: 1200 }),
            u.souls_tab == (Position { x: 575, y: 1200 }),
            u.relics_tab == (Position { x: 940, y: 1200 }),
    {
        Upgrades {
            icon: Position { x: 570, y: 1315 },
            upgrades_tab: Position { x: 200, y: 1200 },
            souls_tab: Position { x: 575, y: 1200 },
            relics_tab: Position { x: 940, y: 1200 },
        }
    }

    /// Click the panel icon, then one of its tabs.
    pub open spec fn spec_open_steps(self, tab: Position) -> Seq<ActionStep> {
        click_at_steps(self.icon) + click_at_steps(tab)
    }

    /// The sequence that opens the upgrades page.
    pub fn open_upgrades(&self) -> (s: ActionSequence)
        ensures
            s.steps@ == self.spec_open_steps(self.upgrades_tab),
    {
        let mut s = ActionSequence::new();
        s.click_at(self.icon);
        s.click_at(self.upgrades_tab);
        proof {
            assert(s.steps@ =~= self.spec_open_steps(self.upgrades_tab));
        }
        s
    }

    /// The sequence that opens the souls page.
    pub fn open_souls(&self) -> (s: ActionSequence)
        ensures
            s.steps@ == self.spec_open_steps(self.souls_tab),
    {
        let mut s = ActionSequence::new();
        s.click_at(self.icon);
        s.click_at(self.souls_tab);
        proof {
            assert(s.steps@ =~= self.spec_open_steps(self.souls_tab));
        }
        s
    }

    /// The sequence that opens the relics page.
    pub fn open_relics(&self) -> (s: ActionSequence)
        ensures
            s.steps@ == self.spec_open_steps(self.relics_tab),
    {
        let mut s = ActionSequence::new();
        s.click_at(self.icon);
        s.click_at(self.relics_tab);
        proof {
            assert(s.steps@ =~= self.spec_open_steps(self.relics_tab));
        }
        s
    }

    /// Open the upgrades page, click the five visible rows, scroll down,
    /// click the six newly visible rows, and scroll back.
    pub open spec fn spec_do_upgrades_steps(self) -> Seq<ActionStep> {
        self.spec_open_steps(self.upgrades_tab) + click_at_steps(Position { x: 830, y: 300 })
            + click_at_steps(Position { x: 830, y: 460 }) + click_at_steps(
            Position { x: 830, y: 630 },
        ) + click_at_steps(Position { x: 830, y: 790 }) + click_at_steps(
            Position { x: 830, y: 960 },
        ) + scroll_at_steps(spec_scroll_hover(), -8i32) + click_at_steps(
            Position { x: 830, y: 220 },
        ) + click_at_steps(Position { x: 830, y: 380 }) + click_at_steps(
            Position { x: 830, y: 560 },
        ) + click_at_steps(Position { x: 830, y: 720 }) + click_at_steps(
            Position { x: 830, y: 880 },
        ) + click_at_steps(Position { x: 830, y: 1050 }) + scroll_at_steps(
            spec_scroll_hover(),
            8i32,
        )
    }

    /// The sequence that buys every reachable row of the upgrades page.
    pub fn do_upgrades(&self) -> (s: ActionSequence)
        ensures
            s.steps@ == self.spec_do_upgrades_steps(),
    {
        let mut s = ActionSequence::new();
        s.click_at(self.icon);
        s.click_at(self.upgrades_tab);
        s.click_at(Position { x: 830, y: 300 });
        s.click_at(Position { x: 830, y: 460 });
        s.click_at(Position { x: 830, y: 630 });
        s.click_at(Position { x: 830, y: 790 });
        s.click_at(Position { x: 830, y: 960 });
        s.scroll_at(Position { x: 1030, y: 630 }, -8);
        s.click_at(Position { x: 830, y: 220 });
        s.click_at(Position { x: 830, y: 380 });
        s.click_at(Position { x: 830, y: 560 });
        s.click_at(Position { x: 830, y: 720 });
        s.click_at(Position { x: 830, y: 880 });
        s.click_at(Position { x: 830, y: 1050 });
        s.scroll_at(Position { x: 1030, y: 630 }, 8);
        proof {
            assert(s.steps@ =~= self.spec_do_upgrades_steps());
        }
        s
    }

    /// Open the souls page, click the six visible rows, scroll down for
    /// the final row, click it, and scroll back.
    pub open spec fn spec_do_souls_upgrade_steps(self) -> Seq<ActionStep> {
        self.spec_open_steps(self.souls_tab) + click_at_steps(Position { x: 830, y: 200 })
            + click_at_steps(Position { x: 830, y: 370 }) + click_at_steps(
            Position { x: 830, y: 540 },
        ) + click_at_steps(Position { x: 830, y: 700 }) + click_at_steps(
            Position { x: 830, y: 870 },
        ) + click_at_steps(Position { x: 830, y: 1040 }) + scroll_at_steps(
            spec_scroll_hover(),
            -2i32,
        ) + click_at_steps(Position { x: 830, y: 1050 }) + scroll_at_steps(
            spec_scroll_hover(),
            2i32,
        )
    }

    /// The sequence that buys every reachable row of the souls page.
    pub fn do_souls_upgrade(&self) -> (s: ActionSequence)
        ensures
            s.steps@ == self.spec_do_souls_upgrade_steps(),
    {
        let mut s = ActionSequence::new();
        s.click_at(self.icon);
        s.click_at(self.souls_tab);
        s.click_at(Position { x: 830, y: 200 });
        s.click_at(Position { x: 830, y: 370 });
        s.click_at(Position { x: 830, y: 540 });
        s.click_at(Position { x: 830, y: 700 });
        s.click_at(Position { x: 830, y: 870 });
        s.click_at(Position { x: 830, y: 1040 });
        s.scroll_at(Position { x: 1030, y: 630 }, -2);
        s.click_at(Position { x: 830, y: 1050 });
        s.scroll_at(Position { x: 1030, y: 630 }, 2);
        proof {
            assert(s.steps@ =~= self.spec_do_souls_upgrade_steps());
        }
        s
    }
}

} // verus!
