//! Scenario tests for the supervisor: master gating, task selection,
//! counters, and the activity log.

use cave_miner::bot::{Bot, TaskManager};
use cave_miner::logger::{LogLevel, Logger};
use cave_miner::sequence::InputOp;
use cave_miner::stats::Stats;
use cave_miner::types::TaskType;

#[test]
fn inactive_ticks_do_nothing() {
    let mut bot = Bot::new(0);
    assert!(!bot.is_active());
    for now in [100u64, 10_000, 700_000] {
        let plan = bot.tick(now);
        assert!(plan.ops.is_empty());
        assert_eq!(plan.task, None);
    }
    assert_eq!(bot.get_stats().get_clicks(), 0);
    assert!(bot.get_logger().get_entries().is_empty());
}

#[test]
fn first_active_tick_clicks_exactly_once() {
    let mut bot = Bot::new(0);
    bot.tick(50);
    bot.tick(100);
    assert_eq!(bot.get_stats().get_clicks(), 0);
    bot.toggle(150);
    assert!(bot.is_active());
    let plan = bot.tick(200);
    assert_eq!(
        plan.ops,
        vec![InputOp::MoveCursor(1855, 1335), InputOp::PressButton]
    );
    assert_eq!(plan.task, None);
    assert_eq!(bot.get_stats().get_clicks(), 1);
}

#[test]
fn boundary_elapsed_is_not_due() {
    let mut bot = Bot::new(0);
    bot.toggle(0);
    // exactly the upgrades interval has elapsed: not due
    let plan = bot.tick(30_000);
    assert_eq!(plan.task, None);
    // one past the interval: due
    let plan = bot.tick(30_001);
    assert_eq!(plan.task, Some(TaskType::Upgrades));
}

#[test]
fn task_not_due_again_until_interval_passes_after_completion() {
    let mut bot = Bot::new(0);
    bot.toggle(0);
    let plan = bot.tick(31_000);
    assert_eq!(plan.task, Some(TaskType::Upgrades));
    bot.complete_task(TaskType::Upgrades, 31_000);
    // immediately after completion: not due
    assert_eq!(bot.tick(31_050).task, None);
    // 30s more on the clock: boundary again, still not due
    assert_eq!(bot.tick(61_000).task, None);
    // strictly past it: due again
    assert_eq!(bot.tick(61_001).task, Some(TaskType::Upgrades));
}

#[test]
fn two_due_tasks_run_on_separate_ticks() {
    let mut bot = Bot::new(0);
    bot.toggle(0);
    bot.toggle_upgrades(0);
    // both souls and prestige are overdue; upgrades is disabled
    let plan = bot.tick(700_000);
    assert_eq!(plan.task, Some(TaskType::Souls));
    bot.complete_task(TaskType::Souls, 700_000);
    let plan = bot.tick(700_050);
    assert_eq!(plan.task, Some(TaskType::Prestige));
    bot.complete_task(TaskType::Prestige, 700_050);
    assert_eq!(bot.tick(700_100).task, None);
}

#[test]
fn disabled_task_is_never_selected() {
    let mut bot = Bot::new(0);
    bot.toggle(0);
    bot.toggle_upgrades(0);
    assert!(!bot.is_task_enabled(TaskType::Upgrades));
    // far past every interval, yet upgrades never fires
    let plan = bot.tick(1_000_000);
    assert_eq!(plan.task, Some(TaskType::Souls));
}

#[test]
fn reenabling_does_not_reset_the_timer() {
    let mut bot = Bot::new(0);
    bot.toggle(0);
    bot.toggle_upgrades(0);
    // long overdue while disabled; re-enable and it fires at once
    bot.toggle_upgrades(40_000);
    assert!(bot.is_task_enabled(TaskType::Upgrades));
    assert_eq!(bot.tick(40_001).task, Some(TaskType::Upgrades));
}

#[test]
fn activation_resets_counters_and_pause_preserves_them() {
    let mut bot = Bot::new(0);
    bot.toggle(0);
    bot.tick(100);
    bot.tick(200);
    bot.tick(300);
    assert_eq!(bot.get_stats().get_clicks(), 3);
    bot.toggle(5_000);
    assert!(!bot.is_active());
    // paused: counters stay inspectable at their last values
    assert_eq!(bot.get_stats().get_clicks(), 3);
    bot.tick(6_000);
    assert_eq!(bot.get_stats().get_clicks(), 3);
    // reactivation starts a fresh session
    bot.toggle(10_000);
    assert_eq!(bot.get_stats().get_clicks(), 0);
    assert_eq!(bot.get_stats().get_runtime_ms(10_000), 0);
}

#[test]
fn toggles_are_logged_with_the_new_state() {
    let mut bot = Bot::new(0);
    bot.toggle(10);
    bot.toggle_souls(20);
    bot.toggle_souls(30);
    bot.toggle(40);
    let entries = bot.get_logger().get_entries();
    assert_eq!(entries.len(), 4);
    assert_eq!(entries[0].message, "Bot ACTIVATED");
    assert_eq!(entries[0].level, LogLevel::Success);
    assert_eq!(entries[0].timestamp_ms, 10);
    assert_eq!(entries[1].message, "Souls DISABLED");
    assert_eq!(entries[1].level, LogLevel::Error);
    assert_eq!(entries[2].message, "Souls ENABLED");
    assert_eq!(entries[2].level, LogLevel::Success);
    assert_eq!(entries[3].message, "Bot PAUSED");
    assert_eq!(entries[3].level, LogLevel::Warning);
}

#[test]
fn task_run_is_logged_start_and_completion() {
    let mut bot = Bot::new(0);
    bot.toggle(0);
    let plan = bot.tick(31_000);
    assert_eq!(plan.task, Some(TaskType::Upgrades));
    bot.complete_task(TaskType::Upgrades, 32_000);
    let entries = bot.get_logger().get_entries();
    assert_eq!(entries[entries.len() - 2].message, "Running upgrades...");
    assert_eq!(entries[entries.len() - 2].level, LogLevel::Task);
    assert_eq!(entries[entries.len() - 1].message, "Upgrades complete");
    assert_eq!(entries[entries.len() - 1].level, LogLevel::Success);
}

#[test]
fn informational_records_only_touch_the_log() {
    let mut bot = Bot::new(0);
    bot.log_info("Bot loop started", 5);
    let entries = bot.get_logger().get_entries();
    assert_eq!(entries.len(), 1);
    assert_eq!(entries[0].message, "Bot loop started");
    assert_eq!(entries[0].level, LogLevel::Info);
    assert_eq!(entries[0].timestamp_ms, 5);
    assert!(!bot.is_active());
    assert_eq!(bot.get_stats().get_clicks(), 0);
}

#[test]
fn time_remaining_saturates_at_zero() {
    let manager = TaskManager::new(1_000);
    // far past the interval: floored at zero, not negative
    assert_eq!(manager.get_time_until_next(TaskType::Upgrades, 100_000), 0);
    assert_eq!(manager.get_time_until_next(TaskType::Upgrades, 1_000), 30_000);
    assert_eq!(manager.get_time_until_next(TaskType::Upgrades, 16_000), 15_000);
    assert_eq!(manager.get_time_until_next(TaskType::Souls, 301_000), 300_000);
}

#[test]
fn manager_due_uses_strict_inequality() {
    let mut manager = TaskManager::new(0);
    assert!(!manager.should_run_task(TaskType::Upgrades, 30_000));
    assert!(manager.should_run_task(TaskType::Upgrades, 30_001));
    manager.update_last_run(TaskType::Upgrades, 50_000);
    assert!(!manager.should_run_task(TaskType::Upgrades, 50_000));
    assert!(!manager.should_run_task(TaskType::Upgrades, 80_000));
    assert!(manager.should_run_task(TaskType::Upgrades, 80_001));
}

#[test]
fn cpm_is_zero_when_no_time_elapsed() {
    let mut stats = Stats::new(1_000);
    stats.increment_clicks();
    stats.increment_clicks();
    assert_eq!(stats.get_cpm(1_000), 0);
    assert_eq!(stats.get_cpm(1_500), 0);
}

#[test]
fn cpm_exact_value() {
    let mut stats = Stats::new(0);
    for _ in 0..10 {
        stats.increment_clicks();
    }
    // 10 clicks over 5 seconds: 120 clicks per minute
    assert_eq!(stats.get_cpm(5_000), 120);
    assert_eq!(stats.get_clicks(), 10);
    assert_eq!(stats.get_runtime_ms(5_000), 5_000);
}

#[test]
fn log_retains_most_recent_entries_in_order() {
    let mut logger = Logger::new();
    let labels: Vec<String> = (0..55).map(|i| format!("event {}", i)).collect();
    for (i, label) in labels.iter().enumerate() {
        logger.log(LogLevel::Info, label, i as u64);
    }
    let entries = logger.get_entries();
    assert_eq!(entries.len(), 50);
    assert_eq!(entries[0].message, "event 5");
    assert_eq!(entries[0].timestamp_ms, 5);
    assert_eq!(entries[49].message, "event 54");
    for (j, entry) in entries.iter().enumerate() {
        assert_eq!(entry.message, format!("event {}", j + 5));
    }
}

#[test]
fn log_below_capacity_keeps_everything() {
    let mut logger = Logger::new();
    logger.log(LogLevel::Warning, "one", 1);
    logger.log(LogLevel::Info, "two", 2);
    let entries = logger.get_entries();
    assert_eq!(entries.len(), 2);
    assert_eq!(entries[0].message, "one");
    assert_eq!(entries[0].level, LogLevel::Warning);
    assert_eq!(entries[1].message, "two");
}
