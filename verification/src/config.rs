//! Fixed configuration data: screen coordinates of the UI elements the
//! sequences click, the timing table, and presentation limits.
//!
//! Coordinates are plain configuration values, not computed: the design is
//! deliberately blind (no screen inspection), so every target is a constant
//! that tests can substitute for.

use vstd::prelude::*;
use crate::types::Position;

verus! {

pub const APP_NAME: &'static str = "IDLE CAVE MINER BOT";
pub const APP_VERSION: &'static str = "2.0";

/// Delay after a cursor move before and after each click, in milliseconds.
pub const CLICK_DELAY_MS: u64 = 50;
/// Delay after moving to the scroll hover point, in milliseconds.
pub const SCROLL_DELAY_MS: u64 = 50;
/// Delay after each single scroll unit, in milliseconds.
pub const POST_SCROLL_DELAY_MS: u64 = 100;
/// Cadence of the primary mining click, in milliseconds.
pub const MINING_DELAY_MS: u64 = 50;
/// Minimum time between two runs of the upgrades task, in milliseconds.
pub const UPGRADE_INTERVAL_MS: u64 = 30_000;
/// Minimum time between two runs of the souls task, in milliseconds.
pub const SOULS_INTERVAL_MS: u64 = 600_000;
/// Minimum time between two runs of the prestige task, in milliseconds.
pub const PRESTIGE_INTERVAL_MS: u64 = 600_000;
/// Settle time after the prestige and claim clicks, in milliseconds.
pub const PRESTIGE_WAIT_MS: u64 = 1_000;
/// Settle time after the confirm click of the prestige task, in milliseconds.
pub const PRESTIGE_COMPLETE_WAIT_MS: u64 = 3_000;

/// Screen coordinates of the fixed UI elements.
pub struct GamePositions;

impl GamePositions {
    /// The mining target of the primary click.
    pub open spec fn spec_mining() -> Position {
        Position { x: 1855, y: 1335 }
    }

    pub fn mining() -> (p: Position)
        ensures
            p == Self::spec_mining(),
    {
        Position { x: 1855, y: 1335 }
    }

    /// The icon that opens the upgrade panel.
    pub open spec fn spec_upgrade_icon() -> Position {
        Position { x: 570, y: 1315 }
    }

    pub fn upgrade_icon() -> (p: Position)
        ensures
            p == Self::spec_upgrade_icon(),
    {
        Position { x: 570, y: 1315 }
    }

    /// The tab that selects the plain upgrades page.
    pub open spec fn spec_upgrades_tab() -> Position {
        Position { x: 200, y: 1200 }
    }

    pub fn upgrades_tab() -> (p: Position)
        ensures
            p == Self::spec_upgrades_tab(),
    {
        Position { x: 200, y: 1200 }
    }

    /// The tab that selects the souls page.
    pub open spec fn spec_souls_tab() -> Position {
        Position { x: 575, y: 1200 }
    }

    pub fn souls_tab() -> (p: Position)
        ensures
            p == Self::spec_souls_tab(),
    {
        Position { x: 575, y: 1200 }
    }

    /// A dead area safe to hover over while scrolling.
    pub open spec fn spec_safe_scroll_area() -> Position {
        Position { x: 1030, y: 630 }
    }

    pub fn safe_scroll_area() -> (p: Position)
        ensures
            p == Self::spec_safe_scroll_area(),
    {
        Position { x: 1030, y: 630 }
    }

    /// The button that starts a prestige.
    pub open spec fn spec_prestige_button() -> Position {
        Position { x: 1200, y: 245 }
    }

    pub fn prestige_button() -> (p: Position)
        ensures
            p == Self::spec_prestige_button(),
    {
        Position { x: 1200, y: 245 }
    }

    /// The claim button of the prestige dialog.
    pub open spec fn spec_prestige_claim() -> Position {
        Position { x: 1850, y: 1115 }
    }

    pub fn prestige_claim() -> (p: Position)
        ensures
            p == Self::spec_prestige_claim(),
    {
        Position { x: 1850, y: 1115 }
    }

    /// The confirm button of the prestige dialog.
    pub open spec fn spec_prestige_confirm() -> Position {
        Position { x: 1285, y: 860 }
    }

    pub fn prestige_confirm() -> (p: Position)
        ensures
            p == Self::spec_prestige_confirm(),
    {
        Position { x: 1285, y: 860 }
    }
}

/// Row coordinates of the upgrades page.
pub struct UpgradePositions;

impl UpgradePositions {
    /// The five upgrade rows visible before scrolling, top to bottom.
    pub open spec fn spec_before_scroll() -> Seq<Position> {
        seq![
            Position { x: 830, y: 300 },
            Position { x: 830, y: 470 },
            Position { x: 830, y: 640 },
            Position { x: 830, y: 800 },
            Position { x: 830, y: 960 },
        ]
    }

    pub fn before_scroll() -> (v: Vec<Position>)
        ensures
            v@ == Self::spec_before_scroll(),
    {
        let v: Vec<Position> = vec![
            Position { x: 830, y: 300 },
            Position { x: 830, y: 470 },
            Position { x: 830, y: 640 },
            Position { x: 830, y: 800 },
            Position { x: 830, y: 960 },
        ];
        proof {
            assert(v@ =~= Self::spec_before_scroll());
        }
        v
    }

    /// The five upgrade rows visible after scrolling down; the vertical
    /// coordinates differ because of the scroll offset.
    pub open spec fn spec_after_scroll() -> Seq<Position> {
        seq![
            Position { x: 830, y: 385 },
            Position { x: 830, y: 550 },
            Position { x: 830, y: 710 },
            Position { x: 830, y: 880 },
            Position { x: 830, y: 1050 },
        ]
    }

    pub fn after_scroll() -> (v: Vec<Position>)
        ensures
            v@ == Self::spec_after_scroll(),
    {
        let v: Vec<Position> = vec![
            Position { x: 830, y: 385 },
            Position { x: 830, y: 550 },
            Position { x: 830, y: 710 },
            Position { x: 830, y: 880 },
            Position { x: 830, y: 1050 },
        ];
        proof {
            assert(v@ =~= Self::spec_after_scroll());
        }
        v
    }
}

/// Row coordinates of the souls page.
pub struct SoulsPositions;

impl SoulsPositions {
    /// The six soul-upgrade rows visible before scrolling, top to bottom.
    pub open spec fn spec_before_scroll() -> Seq<Position> {
        seq![
            Position { x: 830, y: 200 },
            Position { x: 830, y: 370 },
            Position { x: 830, y: 540 },
            Position { x: 830, y: 700 },
            Position { x: 830, y: 870 },
            Position { x: 830, y: 1040 },
        ]
    }

    pub fn before_scroll() -> (v: Vec<Position>)
        ensures
            v@ == Self::spec_before_scroll(),
    {
        let v: Vec<Position> = vec![
            Position { x: 830, y: 200 },
            Position { x: 830, y: 370 },
            Position { x: 830, y: 540 },
            Position { x: 830, y: 700 },
            Position { x: 830, y: 870 },
            Position { x: 830, y: 1040 },
        ];
        proof {
            assert(v@ =~= Self::spec_before_scroll());
        }
        v
    }

    /// The last soul-upgrade row, visible only after scrolling down.
    pub open spec fn spec_after_scroll() -> Position {
        Position { x: 830, y: 1050 }
    }

    pub fn after_scroll() -> (p: Position)
        ensures
            p == Self::spec_after_scroll(),
    {
        Position { x: 830, y: 1050 }
    }
}

/// The timing table, in milliseconds.  Getters exist so that callers that
/// hold only the struct name reach the same constants the specs use.
pub struct Timings;

impl Timings {
    pub fn mining_delay_ms() -> (d: u64)
        ensures
            d == MINING_DELAY_MS,
    {
        MINING_DELAY_MS
    }

    pub fn click_delay_ms() -> (d: u64)
        ensures
            d == CLICK_DELAY_MS,
    {
        CLICK_DELAY_MS
    }

    pub fn scroll_delay_ms() -> (d: u64)
        ensures
            d == SCROLL_DELAY_MS,
    {
        SCROLL_DELAY_MS
    }

    pub fn post_scroll_delay_ms() -> (d: u64)
        ensures
            d == POST_SCROLL_DELAY_MS,
    {
        POST_SCROLL_DELAY_MS
    }

    /// The interval of a task, keyed by task kind.
    pub open spec fn spec_interval_ms(task: crate::types::TaskType) -> u64 {
        match task {
            crate::types::TaskType::Upgrades => UPGRADE_INTERVAL_MS,
            crate::types::TaskType::Souls => SOULS_INTERVAL_MS,
            crate::types::TaskType::Prestige => PRESTIGE_INTERVAL_MS,
        }
    }

    pub fn interval_ms(task: crate::types::TaskType) -> (d: u64)
        ensures
            d == Self::spec_interval_ms(task),
    {
        match task {
            crate::types::TaskType::Upgrades => UPGRADE_INTERVAL_MS,
            crate::types::TaskType::Souls => SOULS_INTERVAL_MS,
            crate::types::TaskType::Prestige => PRESTIGE_INTERVAL_MS,
        }
    }

    pub fn prestige_wait_ms() -> (d: u64)
        ensures
            d == PRESTIGE_WAIT_MS,
    {
        PRESTIGE_WAIT_MS
    }

    pub fn prestige_complete_wait_ms() -> (d: u64)
        ensures
            d == PRESTIGE_COMPLETE_WAIT_MS,
    {
        PRESTIGE_COMPLETE_WAIT_MS
    }
}

/// Presentation limits.
pub struct UIConfig;

/// The bound on the activity log: it retains at most this many entries.
pub const MAX_LOGS: usize = 50;

/// Redraw cadence of the presentation layer, in milliseconds.
pub const UI_TICK_RATE_MS: u64 = 100;

impl UIConfig {
    pub fn max_logs() -> (k: usize)
        ensures
            k == MAX_LOGS,
    {
        MAX_LOGS
    }

    pub fn tick_rate_ms() -> (d: u64)
        ensures
            d == UI_TICK_RATE_MS,
    {
        UI_TICK_RATE_MS
    }
}

} // verus!
