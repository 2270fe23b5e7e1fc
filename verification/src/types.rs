//! Basic value types: screen coordinates and the closed set of task kinds.

use vstd::prelude::*;

verus! {

/// An immutable screen coordinate.  Two positions are equal exactly when
/// their coordinates are.
#[derive(Clone, Copy, Debug, PartialEq, Eq, Structural)]
pub struct Position {
    pub x: i32,
    pub y: i32,
}

impl Position {
    pub fn new(x: i32, y: i32) -> (p: Position)
        ensures
            p == (Position { x, y }),
    {
        Position { x, y }
    }
}

/// The closed set of periodic tasks the supervisor evaluates, in priority
/// order: earlier variants are evaluated (and run) before later ones.
#[derive(Clone, Copy, Debug, PartialEq, Eq, Structural)]
pub enum TaskType {
    Upgrades,
    Souls,
    Prestige,
}

impl TaskType {
    /// The display name of the task, as shown in log entries and timers.
    pub open spec fn spec_name(self) -> Seq<char> {
        match self {
            TaskType::Upgrades => "Upgrades"@,
            TaskType::Souls => "Souls"@,
            TaskType::Prestige => "Prestige"@,
        }
    }

    pub fn name(&self) -> (r: &'static str)
        ensures
            r@ == self.spec_name(),
    {
        match self {
            TaskType::Upgrades => "Upgrades",
            TaskType::Souls => "Souls",
            TaskType::Prestige => "Prestige",
        }
    }

    /// The icon shown next to the task name.
    pub open spec fn spec_icon(self) -> Seq<char> {
        match self {
            TaskType::Upgrades => "🔧"@,
            TaskType::Souls => "👻"@,
            TaskType::Prestige => "⭐"@,
        }
    }

    pub fn icon(&self) -> (r: &'static str)
        ensures
            r@ == self.spec_icon(),
    {
        match self {
            TaskType::Upgrades => "🔧",
            TaskType::Souls => "👻",
            TaskType::Prestige => "⭐",
        }
    }

    /// The position of the task in the fixed evaluation order.
    pub open spec fn priority(self) -> int {
        match self {
            TaskType::Upgrades => 0,
            TaskType::Souls => 1,
            TaskType::Prestige => 2,
        }
    }
}

} // verus!
