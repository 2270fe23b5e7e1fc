//! Tests of the smaller components: the generic scheduler, the minimal
//! clicker, key-edge detection, configuration values, and the display
//! helpers.

use cave_miner::clicker::Clicker;
use cave_miner::config::{GamePositions, Timings, UIConfig};
use cave_miner::input::{handle_key, KeyStates};
use cave_miner::logger::LogLevel;
use cave_miner::scheduler::{Scheduler, TimedTask};
use cave_miner::sequence::InputOp;
use cave_miner::types::{Position, TaskType};
use cave_miner::ui::{format_duration, timer_progress_percent, u64_to_string};

#[test]
fn fresh_timed_task_is_due_then_follows_strict_interval() {
    let mut task = TimedTask::new(30);
    // due at construction: the seed predates any possible elapsed check
    assert!(task.should_run(0));
    task.run(0);
    assert!(!task.should_run(29));
    // boundary equality is not due
    assert!(!task.should_run(30));
    assert!(task.should_run(31));
    task.run(31);
    assert!(!task.should_run(61));
    assert!(task.should_run(62));
}

#[test]
fn scheduler_runs_at_most_one_task_per_tick() {
    let mut scheduler = Scheduler::new();
    scheduler.add_task(TimedTask::new(100));
    scheduler.add_task(TimedTask::new(100));
    // both due at once: only the first is reported this tick
    assert_eq!(scheduler.tick(0), Some(0));
    scheduler.run_task(0, 0);
    // the second is still due and runs on the next tick
    assert_eq!(scheduler.tick(0), Some(1));
    scheduler.run_task(1, 0);
    assert_eq!(scheduler.tick(0), None);
    // boundary again: neither fires at exactly the interval
    assert_eq!(scheduler.tick(100), None);
    assert_eq!(scheduler.tick(101), Some(0));
    scheduler.run_task(0, 101);
    assert_eq!(scheduler.tick(101), Some(1));
}

#[test]
fn scheduler_selection_does_not_mark_the_timer() {
    let mut scheduler = Scheduler::new();
    scheduler.add_task(TimedTask::new(100));
    // selection alone leaves the task due: work that never happens must
    // not silence the timer
    assert_eq!(scheduler.tick(0), Some(0));
    assert_eq!(scheduler.tick(0), Some(0));
    // only recorded completion moves the timer
    scheduler.run_task(0, 0);
    assert_eq!(scheduler.tick(50), None);
    // the caller may also mark the task directly
    assert_eq!(scheduler.tick(101), Some(0));
    scheduler.tasks[0].run(101);
    assert_eq!(scheduler.tick(150), None);
}

#[test]
fn empty_scheduler_ticks_idle() {
    let scheduler = Scheduler::new();
    assert_eq!(scheduler.tick(12345), None);
}

#[test]
fn clicker_toggles_only_on_rising_edge() {
    let mut clicker = Clicker::new(20);
    assert_eq!(clicker.delay_ms(), 50);
    assert!(!clicker.is_active());
    assert!(clicker.tick().is_empty());
    // press and hold: exactly one toggle
    assert!(clicker.handle_input(true, false));
    assert!(clicker.is_active());
    assert!(clicker.handle_input(true, false));
    assert!(clicker.is_active());
    // release, then press again: toggles back off
    assert!(clicker.handle_input(false, false));
    assert!(clicker.handle_input(true, false));
    assert!(!clicker.is_active());
    // exit key ends the loop
    assert!(!clicker.handle_input(false, true));
}

#[test]
fn clicker_tick_clicks_only_while_active() {
    let mut clicker = Clicker::new(10);
    clicker.handle_input(true, false);
    assert_eq!(
        clicker.tick(),
        vec![InputOp::MoveCursor(1855, 1335), InputOp::PressButton]
    );
}

#[test]
fn key_edge_detection_fires_once_per_press() {
    let mut held = false;
    assert!(handle_key(true, &mut held));
    assert!(!handle_key(true, &mut held));
    assert!(!handle_key(false, &mut held));
    assert!(handle_key(true, &mut held));
}

#[test]
fn key_states_start_released() {
    let s = KeyStates::new();
    assert!(!s.f1 && !s.f2 && !s.f3 && !s.f4);
    let s = KeyStates::default();
    assert!(!s.f1 && !s.f2 && !s.f3 && !s.f4);
}

#[test]
fn configuration_values() {
    assert_eq!(GamePositions::mining(), Position::new(1855, 1335));
    assert_eq!(GamePositions::upgrade_icon(), Position::new(570, 1315));
    assert_eq!(GamePositions::prestige_confirm(), Position::new(1285, 860));
    assert_eq!(Timings::interval_ms(TaskType::Upgrades), 30_000);
    assert_eq!(Timings::interval_ms(TaskType::Souls), 600_000);
    assert_eq!(Timings::interval_ms(TaskType::Prestige), 600_000);
    assert_eq!(Timings::mining_delay_ms(), 50);
    assert_eq!(Timings::post_scroll_delay_ms(), 100);
    assert_eq!(UIConfig::max_logs(), 50);
    assert_eq!(UIConfig::tick_rate_ms(), 100);
}

#[test]
fn task_names_and_icons() {
    assert_eq!(TaskType::Upgrades.name(), "Upgrades");
    assert_eq!(TaskType::Souls.name(), "Souls");
    assert_eq!(TaskType::Prestige.name(), "Prestige");
    assert_eq!(TaskType::Upgrades.icon(), "🔧");
    assert_eq!(TaskType::Souls.icon(), "👻");
    assert_eq!(TaskType::Prestige.icon(), "⭐");
    assert_eq!(LogLevel::Error.icon(), "❌");
    assert_eq!(LogLevel::Info.icon(), "🚀");
    assert_eq!(LogLevel::Success.icon(), "✅");
    assert_eq!(LogLevel::Warning.icon(), "⚡");
    assert_eq!(LogLevel::Task.icon(), "🔧");
}

#[test]
fn decimal_rendering() {
    assert_eq!(u64_to_string(0), "0");
    assert_eq!(u64_to_string(7), "7");
    assert_eq!(u64_to_string(10), "10");
    assert_eq!(u64_to_string(1_234_567), "1234567");
    assert_eq!(u64_to_string(u64::MAX), "18446744073709551615");
}

#[test]
fn duration_rendering() {
    assert_eq!(format_duration(0), "0s");
    assert_eq!(format_duration(45), "45s");
    assert_eq!(format_duration(59), "59s");
    assert_eq!(format_duration(60), "1m 0s");
    assert_eq!(format_duration(125), "2m 5s");
    assert_eq!(format_duration(3599), "59m 59s");
    assert_eq!(format_duration(3600), "1h 0m");
    assert_eq!(format_duration(3900), "1h 5m");
}

#[test]
fn progress_percent() {
    assert_eq!(timer_progress_percent(30_000, 30_000), 0);
    assert_eq!(timer_progress_percent(30_000, 15_000), 50);
    assert_eq!(timer_progress_percent(30_000, 0), 100);
    assert_eq!(timer_progress_percent(30_000, 10_000), 66);
}
