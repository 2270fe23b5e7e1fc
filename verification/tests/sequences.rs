//! Tests of sequence building and expansion: step order, settle delays,
//! and the scroll sign convention.

use cave_miner::bot::{prestige_sequence, souls_sequence, task_sequence, upgrades_sequence};
use cave_miner::sequence::{ActionSequence, ActionStep, InputOp};
use cave_miner::types::{Position, TaskType};
use cave_miner::ui::forge::Forge;
use cave_miner::ui::mining::Miner;
use cave_miner::ui::prestige::Prestige;
use cave_miner::ui::upgrades::Upgrades;

#[test]
fn click_at_expands_to_move_settle_press_settle() {
    let mut s = ActionSequence::new();
    s.click_at(Position::new(10, 20));
    assert_eq!(
        s.steps,
        vec![
            ActionStep::MoveTo(Position::new(10, 20)),
            ActionStep::WaitMs(50),
            ActionStep::Click,
            ActionStep::WaitMs(50),
        ]
    );
    assert_eq!(
        s.expand(),
        vec![
            InputOp::MoveCursor(10, 20),
            InputOp::Sleep(50),
            InputOp::PressButton,
            InputOp::Sleep(50),
        ]
    );
}

#[test]
fn scroll_down_amount_inverts_to_negative_units() {
    let mut s = ActionSequence::new();
    s.push_step(ActionStep::ScrollBy(3));
    assert_eq!(
        s.expand(),
        vec![
            InputOp::ScrollUnit(-1),
            InputOp::Sleep(100),
            InputOp::ScrollUnit(-1),
            InputOp::Sleep(100),
            InputOp::ScrollUnit(-1),
            InputOp::Sleep(100),
        ]
    );
}

#[test]
fn scroll_up_amount_inverts_to_positive_units() {
    let mut s = ActionSequence::new();
    s.push_step(ActionStep::ScrollBy(-2));
    assert_eq!(
        s.expand(),
        vec![
            InputOp::ScrollUnit(1),
            InputOp::Sleep(100),
            InputOp::ScrollUnit(1),
            InputOp::Sleep(100),
        ]
    );
}

#[test]
fn scroll_zero_expands_to_nothing() {
    let mut s = ActionSequence::new();
    s.push_step(ActionStep::ScrollBy(0));
    assert!(s.expand().is_empty());
}

#[test]
fn scroll_at_moves_and_settles_before_scrolling() {
    let mut s = ActionSequence::new();
    s.scroll_at(Position::new(1030, 630), -2);
    assert_eq!(
        s.steps,
        vec![
            ActionStep::MoveTo(Position::new(1030, 630)),
            ActionStep::WaitMs(50),
            ActionStep::ScrollBy(-2),
        ]
    );
}

#[test]
fn upgrades_sequence_shape() {
    let s = upgrades_sequence();
    // 2 panel clicks + 5 row clicks + mid pause + scroll + 5 row clicks + scroll
    assert_eq!(s.steps.len(), 2 * 4 + 5 * 4 + 1 + 3 + 5 * 4 + 3);
    assert_eq!(s.steps[0], ActionStep::MoveTo(Position::new(570, 1315)));
    assert_eq!(s.steps[4], ActionStep::MoveTo(Position::new(200, 1200)));
    // the mid-way pause comes after the third row's click
    assert_eq!(s.steps[20], ActionStep::WaitMs(100));
    // the scroll down, its reach, and the scroll back
    assert!(s.steps.contains(&ActionStep::ScrollBy(-8)));
    assert!(s.steps.contains(&ActionStep::ScrollBy(8)));
    assert_eq!(s.steps[s.steps.len() - 1], ActionStep::ScrollBy(8));
}

#[test]
fn souls_sequence_shape() {
    let s = souls_sequence();
    // 2 panel clicks + 6 row clicks + scroll + 1 row click + scroll
    assert_eq!(s.steps.len(), 2 * 4 + 6 * 4 + 3 + 4 + 3);
    assert_eq!(s.steps[4], ActionStep::MoveTo(Position::new(575, 1200)));
    assert!(s.steps.contains(&ActionStep::ScrollBy(-2)));
    assert_eq!(s.steps[s.steps.len() - 1], ActionStep::ScrollBy(2));
}

#[test]
fn prestige_sequence_waits_between_clicks() {
    let s = prestige_sequence();
    assert_eq!(s.steps.len(), 3 * 4 + 3);
    assert_eq!(s.steps[0], ActionStep::MoveTo(Position::new(1200, 245)));
    assert_eq!(s.steps[4], ActionStep::WaitMs(1000));
    assert_eq!(s.steps[9], ActionStep::WaitMs(1000));
    assert_eq!(s.steps[14], ActionStep::WaitMs(3000));
}

#[test]
fn task_sequence_dispatches_by_task() {
    assert_eq!(
        task_sequence(TaskType::Upgrades).steps,
        upgrades_sequence().steps
    );
    assert_eq!(task_sequence(TaskType::Souls).steps, souls_sequence().steps);
    assert_eq!(
        task_sequence(TaskType::Prestige).steps,
        prestige_sequence().steps
    );
}

#[test]
fn miner_tick_is_one_move_click_pair() {
    let miner = Miner::new();
    assert_eq!(
        miner.tick(),
        vec![InputOp::MoveCursor(1855, 1335), InputOp::PressButton]
    );
}

#[test]
fn forge_panel_sequences() {
    let forge = Forge::new();
    let s = forge.open_forge();
    assert_eq!(s.steps[0], ActionStep::MoveTo(Position::new(115, 1315)));
    assert_eq!(s.steps[4], ActionStep::MoveTo(Position::new(200, 1200)));
    let s = forge.open_alchemy();
    assert_eq!(s.steps[4], ActionStep::MoveTo(Position::new(940, 1200)));
    assert_eq!(forge.open_upgrades().steps.len(), 8);
}

#[test]
fn upgrades_panel_sequences() {
    let panel = Upgrades::new();
    assert_eq!(
        panel.open_souls().steps[4],
        ActionStep::MoveTo(Position::new(575, 1200))
    );
    assert_eq!(
        panel.open_relics().steps[4],
        ActionStep::MoveTo(Position::new(940, 1200))
    );
    let s = panel.do_upgrades();
    // 2 panel clicks + 5 rows + scroll + 6 rows + scroll
    assert_eq!(s.steps.len(), 2 * 4 + 5 * 4 + 3 + 6 * 4 + 3);
    assert_eq!(s.steps[8], ActionStep::MoveTo(Position::new(830, 300)));
    assert_eq!(s.steps[s.steps.len() - 1], ActionStep::ScrollBy(8));
    let s = panel.do_souls_upgrade();
    assert_eq!(s.steps.len(), 2 * 4 + 6 * 4 + 3 + 4 + 3);
    assert!(s.steps.contains(&ActionStep::ScrollBy(-2)));
}

#[test]
fn standalone_prestige_sequence_matches_dialog_positions() {
    let prestige = Prestige::new();
    let s = prestige.do_prestige();
    assert_eq!(s.steps[0], ActionStep::MoveTo(Position::new(1200, 245)));
    assert_eq!(s.steps[5], ActionStep::MoveTo(Position::new(1850, 1115)));
    assert_eq!(s.steps[10], ActionStep::MoveTo(Position::new(1285, 860)));
    assert_eq!(s.steps[14], ActionStep::WaitMs(3000));
}
