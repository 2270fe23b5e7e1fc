//! A minimal stand-alone clicker: one toggle key, one exit key, one
//! repeated click target.  The caller polls the keyboard, hands in the two
//! key states, performs the returned operations, and sleeps the configured
//! delay between ticks.

use vstd::prelude::*;
use crate::config::GamePositions;
use crate::sequence::{move_click_ops, InputOp};

verus! {

/// State of the minimal clicker: whether it is clicking, the previous
/// state of the toggle key (for edge detection), and the delay between
/// ticks derived from the requested click rate.
pub struct Clicker {
    active: bool,
    last_toggle: bool,
    delay_ms: u64,
}

impl Clicker {
    pub closed spec fn spec_active(self) -> bool {
        self.active
    }

    pub closed spec fn spec_last_toggle(self) -> bool {
        self.last_toggle
    }

    pub closed spec fn spec_delay_ms(self) -> u64 {
        self.delay_ms
    }

    /// A fresh clicker: off, with the tick delay derived from the
    /// requested clicks per second.
    pub fn new(clicks_per_second: u64) -> (c: Clicker)
        requires
            clicks_per_second >= 1,
        ensures
            !c.spec_active(),
            !c.spec_last_toggle(),
            c.spec_delay_ms() == 1000u64 / clicks_per_second,
    {
        Clicker { active: false, last_toggle: false, delay_ms: 1000 / clicks_per_second }
    }

    /// Digest one keyboard poll: flip the active flag on the rising edge
    /// of the toggle key (never on hold or release), and report whether
    /// the loop should keep running (`false` once the exit key is down).
    pub fn handle_input(&mut self, toggle_pressed: bool, exit_pressed: bool) -> (keep_running:
        bool)
        ensures
            final(self).spec_active() == if toggle_pressed && !old(self).spec_last_toggle() {
                !old(self).spec_active()
            } else {
                old(self).spec_active()
            },
            final(self).spec_last_toggle() == toggle_pressed,
            final(self).spec_delay_ms() == old(self).spec_delay_ms(),
            keep_running == !exit_pressed,
    {
        if toggle_pressed && !self.last_toggle {
            self.active = !self.active;
        }
        self.last_toggle = toggle_pressed;
        !exit_pressed
    }

    /// One tick: the move-and-click pair at the mining target while
    /// active, nothing while off.  The caller sleeps `delay_ms` after
    /// performing the operations.
    pub fn tick(&self) -> (ops: Vec<InputOp>)
        ensures
            self.spec_active() ==> ops@ == move_click_ops(GamePositions::spec_mining()),
            !self.spec_active() ==> ops@ == Seq::<InputOp>::empty(),
    {
        let mut ops: Vec<InputOp> = Vec::new();
        if self.active {
            let target = GamePositions::mining();
            ops.push(InputOp::MoveCursor(target.x, target.y));
            ops.push(InputOp::PressButton);
            proof {
                assert(ops@ =~= move_click_ops(GamePositions::spec_mining()));
            }
        }
        ops
    }

    pub fn is_active(&self) -> (b: bool)
        ensures
            b == self.spec_active(),
    {
        self.active
    }

    pub fn delay_ms(&self) -> (d: u64)
        ensures
            d == self.spec_delay_ms(),
    {
        self.delay_ms
    }
}

} // verus!
