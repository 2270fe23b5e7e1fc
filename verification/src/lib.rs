//! Core of a timed input-automation supervisor.
//!
//! The library holds the scheduling and bookkeeping logic: per-task interval
//! tracking, the tick-by-tick decision of which action sequence to run next,
//! a bounded activity log, and session counters.  Time enters every function
//! as a plain monotonic millisecond count, and simulated input leaves every
//! function as a plain list of primitive operations, so the whole of the
//! logic is verified; the surrounding binary supplies the clock, performs the
//! operations, and polls the keyboard.

pub mod bot;
pub mod clicker;
pub mod config;
pub mod input;
pub mod logger;
pub mod scheduler;
pub mod sequence;
pub mod stats;
pub mod types;
pub mod ui;
