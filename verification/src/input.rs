//! Edge detection for the control keys.
//!
//! The key source delivers, once per polling tick, whether each control
//! key is currently held.  A toggle must fire exactly once per press —
//! on the rising edge — never on sustained hold or on release, so the
//! previous state of every key is tracked.

use vstd::prelude::*;

verus! {

/// The previous poll's state of each control key.
pub struct KeyStates {
    pub f1: bool,
    pub f2: bool,
    pub f3: bool,
    pub f4: bool,
}

impl KeyStates {
    /// Before the first poll no key counts as held.
    pub fn new() -> (s: KeyStates)
        ensures
            !s.f1 && !s.f2 && !s.f3 && !s.f4,
    {
        KeyStates { f1: false, f2: false, f3: false, f4: false }
    }
}

impl Default for KeyStates {
    fn default() -> (s: KeyStates)
        ensures
            !s.f1 && !s.f2 && !s.f3 && !s.f4,
    {
        KeyStates { f1: false, f2: false, f3: false, f4: false }
    }
}

/// Digest one poll of one key: record the new state and report whether
/// this poll is the key's rising edge — the one moment its action fires.
pub fn handle_key(pressed: bool, state: &mut bool) -> (fire: bool)
    ensures
        fire == (pressed && !*old(state)),
        *final(state) == pressed,
{
    let fire = pressed && !*state;
    *state = pressed;
    fire
}

} // verus!
