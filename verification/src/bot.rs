//! The supervisor: live control flags, per-task interval tracking, and the
//! tick-by-tick decision of what the input driver should do next.
//!
//! A tick works on plain values only: the caller hands in the current
//! monotonic millisecond reading and takes back the list of primitive input
//! operations to perform.  After it has performed a task's whole sequence it
//! reports completion, which is the only point at which the task's last-run
//! time moves — an interrupted sequence leaves the task due.

use vstd::prelude::*;
use crate::config::{GamePositions, SoulsPositions, Timings, UpgradePositions};
use crate::config::{PRESTIGE_COMPLETE_WAIT_MS, PRESTIGE_WAIT_MS};
use crate::logger::{LogLevel, Logger};
use crate::sequence::{
    click_at_steps, move_click_ops, scroll_at_steps, seq_ops, ActionSequence, ActionStep, InputOp,
};
use crate::stats::{spec_elapsed_ms, Stats};
use crate::types::TaskType;

verus! {

/// The live control flags: the master run flag and one enable flag per
/// task.  The master flag starts off; every task starts enabled.
pub struct BotState {
    active: bool,
    upgrades_enabled: bool,
    souls_enabled: bool,
    prestige_enabled: bool,
}

impl BotState {
    pub closed spec fn spec_active(self) -> bool {
        self.active
    }

    pub closed spec fn spec_task_enabled(self, task: TaskType) -> bool {
        match task {
            TaskType::Upgrades => self.upgrades_enabled,
            TaskType::Souls => self.souls_enabled,
            TaskType::Prestige => self.prestige_enabled,
        }
    }

    pub fn new() -> (s: BotState)
        ensures
            !s.spec_active(),
            forall|t: TaskType| #[trigger] s.spec_task_enabled(t),
    {
        BotState {
            active: false,
            upgrades_enabled: true,
            souls_enabled: true,
            prestige_enabled: true,
        }
    }
}

/// Per-task last-run bookkeeping against the fixed interval table.
///
/// A task's timer is due when the time elapsed since its last run strictly
/// exceeds its interval; boundary equality is not due, so a task cannot
/// re-fire on the exact boundary tick.
pub struct TaskManager {
    last_upgrade_ms: u64,
    last_souls_ms: u64,
    last_prestige_ms: u64,
}

impl TaskManager {
    /// The monotonic millisecond reading of the task's last completed run.
    pub closed spec fn spec_last_run_ms(self, task: TaskType) -> u64 {
        match task {
            TaskType::Upgrades => self.last_upgrade_ms,
            TaskType::Souls => self.last_souls_ms,
            TaskType::Prestige => self.last_prestige_ms,
        }
    }

    /// Whether the task's timer alone (ignoring flags) says it is due.
    pub open spec fn spec_timer_due(self, task: TaskType, now_ms: u64) -> bool {
        spec_elapsed_ms(self.spec_last_run_ms(task), now_ms) > Timings::spec_interval_ms(task)
    }

    /// Time until the task's timer is next satisfied, floored at zero.
    pub open spec fn spec_remaining_ms(self, task: TaskType, now_ms: u64) -> u64 {
        let elapsed = spec_elapsed_ms(self.spec_last_run_ms(task), now_ms);
        let interval = Timings::spec_interval_ms(task);
        if elapsed >= interval {
            0u64
        } else {
            (interval - elapsed) as u64
        }
    }

    /// Every task starts as if it had just run at the given reading.
    pub fn new(now_ms: u64) -> (m: TaskManager)
        ensures
            forall|t: TaskType| #[trigger] m.spec_last_run_ms(t) == now_ms,
    {
        TaskManager {
            last_upgrade_ms: now_ms,
            last_souls_ms: now_ms,
            last_prestige_ms: now_ms,
        }
    }

    pub fn should_run_task(&self, task: TaskType, now_ms: u64) -> (b: bool)
        ensures
            b == self.spec_timer_due(task, now_ms),
    {
        let last = match task {
            TaskType::Upgrades => self.last_upgrade_ms,
            TaskType::Souls => self.last_souls_ms,
            TaskType::Prestige => self.last_prestige_ms,
        };
        let elapsed: u64 = if now_ms >= last {
            now_ms - last
        } else {
            0
        };
        elapsed > Timings::interval_ms(task)
    }

    /// Record that the task's sequence just completed.
    pub fn update_last_run(&mut self, task: TaskType, now_ms: u64)
        ensures
            final(self).spec_last_run_ms(task) == now_ms,
            forall|t: TaskType|
                t != task ==> #[trigger] final(self).spec_last_run_ms(t) == old(self).spec_last_run_ms(t),
    {
        match task {
            TaskType::Upgrades => self.last_upgrade_ms = now_ms,
            TaskType::Souls => self.last_souls_ms = now_ms,
            TaskType::Prestige => self.last_prestige_ms = now_ms,
        }
    }

    /// How long until the task is next due.  Never negative: once elapsed
    /// time passes the interval the answer saturates at zero.
    pub fn get_time_until_next(&self, task: TaskType, now_ms: u64) -> (d: u64)
        ensures
            d == self.spec_remaining_ms(task, now_ms),
            d <= Timings::spec_interval_ms(task),
    {
        let last = match task {
            TaskType::Upgrades => self.last_upgrade_ms,
            TaskType::Souls => self.last_souls_ms,
            TaskType::Prestige => self.last_prestige_ms,
        };
        let elapsed: u64 = if now_ms >= last {
            now_ms - last
        } else {
            0
        };
        let interval = Timings::interval_ms(task);
        if elapsed >= interval {
            0
        } else {
            interval - elapsed
        }
    }
}

/// A task whose last run was recorded at `run_ms` is not due at `run_ms`
/// itself, is still not due when exactly the interval has elapsed, and is
/// due precisely once strictly more than the interval has elapsed.
pub proof fn lemma_due_only_after_interval(
    m: TaskManager,
    task: TaskType,
    run_ms: u64,
    now_ms: u64,
)
    requires
        m.spec_last_run_ms(task) == run_ms,
        run_ms <= now_ms,
    ensures
        m.spec_timer_due(task, now_ms) <==> now_ms - run_ms > Timings::spec_interval_ms(task),
        now_ms - run_ms == Timings::spec_interval_ms(task) ==> !m.spec_timer_due(task, now_ms),
        now_ms == run_ms ==> !m.spec_timer_due(task, now_ms),
{
}

/// The remaining-time answer saturates: it is never negative, and it is
/// zero exactly when the elapsed time has reached or passed the interval.
pub proof fn lemma_remaining_saturates(m: TaskManager, task: TaskType, now_ms: u64)
    ensures
        m.spec_remaining_ms(task, now_ms) <= Timings::spec_interval_ms(task),
        m.spec_remaining_ms(task, now_ms) == 0 <==> spec_elapsed_ms(
            m.spec_last_run_ms(task),
            now_ms,
        ) >= Timings::spec_interval_ms(task),
{
}

/// The mid-sequence pause of the upgrades task, in milliseconds: a short
/// breather after the first three rows so the clicks register.
pub const UPGRADE_MID_PAUSE_MS: u64 = 100;

/// The steps of one full upgrades run: open the panel, click the five
/// visible rows (with the mid-way pause), scroll down, click the five newly
/// visible rows, and scroll back.
pub open spec fn upgrades_steps() -> Seq<ActionStep> {
    click_at_steps(GamePositions::spec_upgrade_icon()) + click_at_steps(
        GamePositions::spec_upgrades_tab(),
    ) + click_at_steps(UpgradePositions::spec_before_scroll()[0]) + click_at_steps(
        UpgradePositions::spec_before_scroll()[1],
    ) + click_at_steps(UpgradePositions::spec_before_scroll()[2]) + seq![
        ActionStep::WaitMs(UPGRADE_MID_PAUSE_MS),
    ] + click_at_steps(UpgradePositions::spec_before_scroll()[3]) + click_at_steps(
        UpgradePositions::spec_before_scroll()[4],
    ) + scroll_at_steps(GamePositions::spec_safe_scroll_area(), -8i32) + click_at_steps(
        UpgradePositions::spec_after_scroll()[0],
    ) + click_at_steps(UpgradePositions::spec_after_scroll()[1]) + click_at_steps(
        UpgradePositions::spec_after_scroll()[2],
    ) + click_at_steps(UpgradePositions::spec_after_scroll()[3]) + click_at_steps(
        UpgradePositions::spec_after_scroll()[4],
    ) + scroll_at_steps(GamePositions::spec_safe_scroll_area(), 8)
}

/// The steps of one full souls run: open the souls page, click the six
/// visible rows, scroll down for the last row, click it, and scroll back.
pub open spec fn souls_steps() -> Seq<ActionStep> {
    click_at_steps(GamePositions::spec_upgrade_icon()) + click_at_steps(
        GamePositions::spec_souls_tab(),
    ) + click_at_steps(SoulsPositions::spec_before_scroll()[0]) + click_at_steps(
        SoulsPositions::spec_before_scroll()[1],
    ) + click_at_steps(SoulsPositions::spec_before_scroll()[2]) + click_at_steps(
        SoulsPositions::spec_before_scroll()[3],
    ) + click_at_steps(SoulsPositions::spec_before_scroll()[4]) + click_at_steps(
        SoulsPositions::spec_before_scroll()[5],
    ) + scroll_at_steps(GamePositions::spec_safe_scroll_area(), -2i32) + click_at_steps(
        SoulsPositions::spec_after_scroll(),
    ) + scroll_at_steps(GamePositions::spec_safe_scroll_area(), 2)
}

/// The steps of one prestige run: start, wait, claim, wait, confirm, then
/// wait for the reset to finish.
pub open spec fn prestige_steps() -> Seq<ActionStep> {
    click_at_steps(GamePositions::spec_prestige_button()) + seq![
        ActionStep::WaitMs(PRESTIGE_WAIT_MS),
    ] + click_at_steps(GamePositions::spec_prestige_claim()) + seq![
        ActionStep::WaitMs(PRESTIGE_WAIT_MS),
    ] + click_at_steps(GamePositions::spec_prestige_confirm()) + seq![
        ActionStep::WaitMs(PRESTIGE_COMPLETE_WAIT_MS),
    ]
}

/// The steps of the given task's sequence.
pub open spec fn task_steps(task: TaskType) -> Seq<ActionStep> {
    match task {
        TaskType::Upgrades => upgrades_steps(),
        TaskType::Souls => souls_steps(),
        TaskType::Prestige => prestige_steps(),
    }
}

/// Build the upgrades sequence.
pub fn upgrades_sequence() -> (s: ActionSequence)
    ensures
        s.steps@ == upgrades_steps(),
{
    let mut s = ActionSequence::new();
    s.click_at(GamePositions::upgrade_icon());
    s.click_at(GamePositions::upgrades_tab());
    let rows = UpgradePositions::before_scroll();
    s.click_at(rows[0]);
    s.click_at(rows[1]);
    s.click_at(rows[2]);
    s.wait_ms(UPGRADE_MID_PAUSE_MS);
    s.click_at(rows[3]);
    s.click_at(rows[4]);
    s.scroll_at(GamePositions::safe_scroll_area(), -8);
    let rows_after = UpgradePositions::after_scroll();
    s.click_at(rows_after[0]);
    s.click_at(rows_after[1]);
    s.click_at(rows_after[2]);
    s.click_at(rows_after[3]);
    s.click_at(rows_after[4]);
    s.scroll_at(GamePositions::safe_scroll_area(), 8);
    proof {
        assert(s.steps@ =~= upgrades_steps());
    }
    s
}

/// Build the souls sequence.
pub fn souls_sequence() -> (s: ActionSequence)
    ensures
        s.steps@ == souls_steps(),
{
    let mut s = ActionSequence::new();
    s.click_at(GamePositions::upgrade_icon());
    s.click_at(GamePositions::souls_tab());
    let rows = SoulsPositions::before_scroll();
    s.click_at(rows[0]);
    s.click_at(rows[1]);
    s.click_at(rows[2]);
    s.click_at(rows[3]);
    s.click_at(rows[4]);
    s.click_at(rows[5]);
    s.scroll_at(GamePositions::safe_scroll_area(), -2);
    s.click_at(SoulsPositions::after_scroll());
    s.scroll_at(GamePositions::safe_scroll_area(), 2);
    proof {
        assert(s.steps@ =~= souls_steps());
    }
    s
}

/// Build the prestige sequence.
pub fn prestige_sequence() -> (s: ActionSequence)
    ensures
        s.steps@ == prestige_steps(),
{
    let mut s = ActionSequence::new();
    s.click_at(GamePositions::prestige_button());
    s.wait_ms(PRESTIGE_WAIT_MS);
    s.click_at(GamePositions::prestige_claim());
    s.wait_ms(PRESTIGE_WAIT_MS);
    s.click_at(GamePositions::prestige_confirm());
    s.wait_ms(PRESTIGE_COMPLETE_WAIT_MS);
    proof {
        assert(s.steps@ =~= prestige_steps());
    }
    s
}

/// Build the sequence of the given task.
pub fn task_sequence(task: TaskType) -> (s: ActionSequence)
    ensures
        s.steps@ == task_steps(task),
{
    match task {
        TaskType::Upgrades => upgrades_sequence(),
        TaskType::Souls => souls_sequence(),
        TaskType::Prestige => prestige_sequence(),
    }
}

/// The log line written when a task's sequence is started.
pub open spec fn start_message(task: TaskType) -> Seq<char> {
    match task {
        TaskType::Upgrades => "Running upgrades..."@,
        TaskType::Souls => "Running souls upgrade..."@,
        TaskType::Prestige => "Running prestige..."@,
    }
}

/// The log line written when a task's sequence has completed.
pub open spec fn done_message(task: TaskType) -> Seq<char> {
    match task {
        TaskType::Upgrades => "Upgrades complete"@,
        TaskType::Souls => "Souls upgrade complete"@,
        TaskType::Prestige => "Prestige complete"@,
    }
}

/// The log line written when a task's enable flag is toggled.
pub open spec fn toggle_message(task: TaskType, enabled: bool) -> Seq<char> {
    match task {
        TaskType::Upgrades => if enabled {
            "Upgrades ENABLED"@
        } else {
            "Upgrades DISABLED"@
        },
        TaskType::Souls => if enabled {
            "Souls ENABLED"@
        } else {
            "Souls DISABLED"@
        },
        TaskType::Prestige => if enabled {
            "Prestige ENABLED"@
        } else {
            "Prestige DISABLED"@
        },
    }
}

/// What one tick asks the driver to do: the flat operation list, and the
/// task (if any) whose sequence the operations end with.
pub struct TickPlan {
    pub ops: Vec<InputOp>,
    pub task: Option<TaskType>,
}

/// The supervisor state: control flags, counters, activity log, and the
/// per-task timers, owned as one object so every mutation funnels through
/// its methods.
pub struct Bot {
    state: BotState,
    stats: Stats,
    logger: Logger,
    task_manager: TaskManager,
}

impl Bot {
    pub closed spec fn spec_state(self) -> BotState {
        self.state
    }

    pub closed spec fn spec_stats(self) -> Stats {
        self.stats
    }

    pub closed spec fn spec_logger(self) -> Logger {
        self.logger
    }

    pub closed spec fn spec_task_manager(self) -> TaskManager {
        self.task_manager
    }

    /// The master run flag.
    pub open spec fn spec_active(self) -> bool {
        self.spec_state().spec_active()
    }

    pub open spec fn spec_task_enabled(self, task: TaskType) -> bool {
        self.spec_state().spec_task_enabled(task)
    }

    pub open spec fn spec_last_run_ms(self, task: TaskType) -> u64 {
        self.spec_task_manager().spec_last_run_ms(task)
    }

    pub open spec fn spec_clicks(self) -> u64 {
        self.spec_stats().spec_clicks()
    }

    pub open spec fn spec_session_start_ms(self) -> u64 {
        self.spec_stats().spec_session_start_ms()
    }

    pub open spec fn spec_history(self) -> Seq<(u64, LogLevel, Seq<char>)> {
        self.spec_logger().spec_history()
    }

    pub open spec fn wf(self) -> bool {
        self.spec_logger().wf()
    }

    /// Whether the task's own gates are open: enabled, and its timer due.
    pub open spec fn spec_task_ready(self, task: TaskType, now_ms: u64) -> bool {
        self.spec_task_enabled(task) && self.spec_task_manager().spec_timer_due(task, now_ms)
    }

    /// Whether the task is due in full: the master flag is set, the task is
    /// enabled, and its timer is due.  Disabled dominates: a disabled task
    /// is never due, however much time has elapsed.
    pub open spec fn spec_due(self, task: TaskType, now_ms: u64) -> bool {
        self.spec_active() && self.spec_task_ready(task, now_ms)
    }

    /// The first ready task in the fixed priority order, if any: the one a
    /// tick would execute.
    pub open spec fn spec_first_due(self, now_ms: u64) -> Option<TaskType> {
        if self.spec_task_ready(TaskType::Upgrades, now_ms) {
            Some(TaskType::Upgrades)
        } else if self.spec_task_ready(TaskType::Souls, now_ms) {
            Some(TaskType::Souls)
        } else if self.spec_task_ready(TaskType::Prestige, now_ms) {
            Some(TaskType::Prestige)
        } else {
            None
        }
    }

    /// A fresh supervisor: inactive, every task enabled, counters zeroed,
    /// every task treated as having just run, log empty.
    pub fn new(now_ms: u64) -> (b: Bot)
        ensures
            b.wf(),
            !b.spec_active(),
            forall|t: TaskType| #[trigger] b.spec_task_enabled(t),
            forall|t: TaskType| #[trigger] b.spec_last_run_ms(t) == now_ms,
            b.spec_clicks() == 0,
            b.spec_session_start_ms() == now_ms,
            b.spec_history() == Seq::<(u64, LogLevel, Seq<char>)>::empty(),
    {
        Bot {
            state: BotState::new(),
            stats: Stats::new(now_ms),
            logger: Logger::new(),
            task_manager: TaskManager::new(now_ms),
        }
    }

    pub fn is_active(&self) -> (b: bool)
        ensures
            b == self.spec_active(),
    {
        self.state.active
    }

    pub fn is_task_enabled(&self, task: TaskType) -> (b: bool)
        ensures
            b == self.spec_task_enabled(task),
    {
        match task {
            TaskType::Upgrades => self.state.upgrades_enabled,
            TaskType::Souls => self.state.souls_enabled,
            TaskType::Prestige => self.state.prestige_enabled,
        }
    }

    /// Whether the task's own gates are open right now.
    pub fn is_task_ready(&self, task: TaskType, now_ms: u64) -> (b: bool)
        ensures
            b == self.spec_task_ready(task, now_ms),
    {
        self.is_task_enabled(task) && self.task_manager.should_run_task(task, now_ms)
    }

    /// Flip the master run flag.  Turning it on starts a fresh session:
    /// the click counter and the session clock reset.  Turning it off
    /// leaves the counters as they stand, so they can still be inspected.
    pub fn toggle(&mut self, now_ms: u64)
        requires
            old(self).wf(),
        ensures
            final(self).wf(),
            final(self).spec_active() == !old(self).spec_active(),
            forall|t: TaskType|
                #[trigger] final(self).spec_task_enabled(t) == old(self).spec_task_enabled(t),
            forall|t: TaskType|
                #[trigger] final(self).spec_last_run_ms(t) == old(self).spec_last_run_ms(t),
            !old(self).spec_active() ==> final(self).spec_clicks() == 0
                && final(self).spec_session_start_ms() == now_ms,
            old(self).spec_active() ==> final(self).spec_stats() == old(self).spec_stats(),
            final(self).spec_history() == old(self).spec_history().push(
                if !old(self).spec_active() {
                    (now_ms, LogLevel::Success, "Bot ACTIVATED"@)
                } else {
                    (now_ms, LogLevel::Warning, "Bot PAUSED"@)
                },
            ),
    {
        let was_active = self.state.active;
        self.state.active = !was_active;
        if !was_active {
            self.stats.reset(now_ms);
            self.logger.log(LogLevel::Success, "Bot ACTIVATED", now_ms);
        } else {
            self.logger.log(LogLevel::Warning, "Bot PAUSED", now_ms);
        }
    }

    /// Flip one task's enable flag and log the new state.  The task's
    /// last-run time is untouched, so re-enabling neither fast-forwards
    /// nor resets its timer.
    fn toggle_task(&mut self, task: TaskType, now_ms: u64)
        requires
            old(self).wf(),
        ensures
            final(self).wf(),
            final(self).spec_task_enabled(task) == !old(self).spec_task_enabled(task),
            forall|t: TaskType|
                t != task ==> #[trigger] final(self).spec_task_enabled(t) == old(self).spec_task_enabled(t),
            final(self).spec_active() == old(self).spec_active(),
            forall|t: TaskType|
                #[trigger] final(self).spec_last_run_ms(t) == old(self).spec_last_run_ms(t),
            final(self).spec_stats() == old(self).spec_stats(),
            final(self).spec_history() == old(self).spec_history().push(
                (
                    now_ms,
                    if !old(self).spec_task_enabled(task) {
                        LogLevel::Success
                    } else {
                        LogLevel::Error
                    },
                    toggle_message(task, !old(self).spec_task_enabled(task)),
                ),
            ),
    {
        let was_enabled = self.is_task_enabled(task);
        match task {
            TaskType::Upgrades => self.state.upgrades_enabled = !was_enabled,
            TaskType::Souls => self.state.souls_enabled = !was_enabled,
            TaskType::Prestige => self.state.prestige_enabled = !was_enabled,
        }
        let level = if !was_enabled {
            LogLevel::Success
        } else {
            LogLevel::Error
        };
        let message = match (task, !was_enabled) {
            (TaskType::Upgrades, true) => "Upgrades ENABLED",
            (TaskType::Upgrades, false) => "Upgrades DISABLED",
            (TaskType::Souls, true) => "Souls ENABLED",
            (TaskType::Souls, false) => "Souls DISABLED",
            (TaskType::Prestige, true) => "Prestige ENABLED",
            (TaskType::Prestige, false) => "Prestige DISABLED",
        };
        self.logger.log(level, message, now_ms);
    }

    pub fn toggle_upgrades(&mut self, now_ms: u64)
        requires
            old(self).wf(),
        ensures
            final(self).wf(),
            final(self).spec_task_enabled(TaskType::Upgrades) == !old(self).spec_task_enabled(
                TaskType::Upgrades,
            ),
            forall|t: TaskType|
                t != TaskType::Upgrades ==> #[trigger] final(self).spec_task_enabled(t) == old(self).spec_task_enabled(t),
            final(self).spec_active() == old(self).spec_active(),
            forall|t: TaskType|
                #[trigger] final(self).spec_last_run_ms(t) == old(self).spec_last_run_ms(t),
            final(self).spec_stats() == old(self).spec_stats(),
            final(self).spec_history() == old(self).spec_history().push(
                (
                    now_ms,
                    if !old(self).spec_task_enabled(TaskType::Upgrades) {
                        LogLevel::Success
                    } else {
                        LogLevel::Error
                    },
                    toggle_message(
                        TaskType::Upgrades,
                        !old(self).spec_task_enabled(TaskType::Upgrades),
                    ),
                ),
            ),
    {
        self.toggle_task(TaskType::Upgrades, now_ms);
    }

    pub fn toggle_souls(&mut self, now_ms: u64)
        requires
            old(self).wf(),
        ensures
            final(self).wf(),
            final(self).spec_task_enabled(TaskType::Souls) == !old(self).spec_task_enabled(
                TaskType::Souls,
            ),
            forall|t: TaskType|
                t != TaskType::Souls ==> #[trigger] final(self).spec_task_enabled(t) == old(self).spec_task_enabled(t),
            final(self).spec_active() == old(self).spec_active(),
            forall|t: TaskType|
                #[trigger] final(self).spec_last_run_ms(t) == old(self).spec_last_run_ms(t),
            final(self).spec_stats() == old(self).spec_stats(),
            final(self).spec_history() == old(self).spec_history().push(
                (
                    now_ms,
                    if !old(self).spec_task_enabled(TaskType::Souls) {
                        LogLevel::Success
                    } else {
                        LogLevel::Error
                    },
                    toggle_message(TaskType::Souls, !old(self).spec_task_enabled(TaskType::Souls)),
                ),
            ),
    {
        self.toggle_task(TaskType::Souls, now_ms);
    }

    pub fn toggle_prestige(&mut self, now_ms: u64)
        requires
            old(self).wf(),
        ensures
            final(self).wf(),
            final(self).spec_task_enabled(TaskType::Prestige) == !old(self).spec_task_enabled(
                TaskType::Prestige,
            ),
            forall|t: TaskType|
                t != TaskType::Prestige ==> #[trigger] final(self).spec_task_enabled(t) == old(self).spec_task_enabled(t),
            final(self).spec_active() == old(self).spec_active(),
            forall|t: TaskType|
                #[trigger] final(self).spec_last_run_ms(t) == old(self).spec_last_run_ms(t),
            final(self).spec_stats() == old(self).spec_stats(),
            final(self).spec_history() == old(self).spec_history().push(
                (
                    now_ms,
                    if !old(self).spec_task_enabled(TaskType::Prestige) {
                        LogLevel::Success
                    } else {
                        LogLevel::Error
                    },
                    toggle_message(
                        TaskType::Prestige,
                        !old(self).spec_task_enabled(TaskType::Prestige),
                    ),
                ),
            ),
    {
        self.toggle_task(TaskType::Prestige, now_ms);
    }

    /// One tick of the supervisor loop.
    ///
    /// Inactive: nothing happens and the plan is empty.  Active: the plan
    /// starts with the primary move-and-click pair (counted at once), and,
    /// if some task is ready, continues with the full sequence of the
    /// first ready task in priority order — at most one task per tick, so
    /// the primary action stays responsive and sequences never overlap.
    /// The chosen task's start is logged here; its last-run time moves
    /// only in `complete_task`, once the driver reports the sequence done.
    pub fn tick(&mut self, now_ms: u64) -> (plan: TickPlan)
        requires
            old(self).wf(),
        ensures
            final(self).wf(),
            plan.task == if old(self).spec_active() {
                old(self).spec_first_due(now_ms)
            } else {
                None::<TaskType>
            },
            !old(self).spec_active() ==> *final(self) == *old(self) && plan.ops@
                == Seq::<InputOp>::empty(),
            old(self).spec_active() ==> plan.ops@ == move_click_ops(GamePositions::spec_mining())
                + (match plan.task {
                Some(t) => seq_ops(task_steps(t)),
                None => Seq::<InputOp>::empty(),
            }),
            old(self).spec_active() ==> final(self).spec_clicks() == (
            if old(self).spec_clicks() < u64::MAX {
                old(self).spec_clicks() + 1
            } else {
                u64::MAX as int
            }),
            old(self).spec_active() ==> final(self).spec_history() == (match plan.task {
                Some(t) => old(self).spec_history().push((now_ms, LogLevel::Task, start_message(t))),
                None => old(self).spec_history(),
            }),
            final(self).spec_active() == old(self).spec_active(),
            forall|t: TaskType|
                #[trigger] final(self).spec_task_enabled(t) == old(self).spec_task_enabled(t),
            forall|t: TaskType|
                #[trigger] final(self).spec_last_run_ms(t) == old(self).spec_last_run_ms(t),
            final(self).spec_session_start_ms() == old(self).spec_session_start_ms(),
    {
        if !self.state.active {
            return TickPlan { ops: Vec::new(), task: None };
        }
        let mining = GamePositions::mining();
        let mut ops: Vec<InputOp> = Vec::new();
        ops.push(InputOp::MoveCursor(mining.x, mining.y));
        ops.push(InputOp::PressButton);
        proof {
            assert(ops@ =~= move_click_ops(GamePositions::spec_mining()));
        }
        self.stats.increment_clicks();
        let task: Option<TaskType> = if self.is_task_ready(TaskType::Upgrades, now_ms) {
            Some(TaskType::Upgrades)
        } else if self.is_task_ready(TaskType::Souls, now_ms) {
            Some(TaskType::Souls)
        } else if self.is_task_ready(TaskType::Prestige, now_ms) {
            Some(TaskType::Prestige)
        } else {
            None
        };
        if let Some(t) = task {
            let message = match t {
                TaskType::Upgrades => "Running upgrades...",
                TaskType::Souls => "Running souls upgrade...",
                TaskType::Prestige => "Running prestige...",
            };
            self.logger.log(LogLevel::Task, message, now_ms);
            let sequence = task_sequence(t);
            let ghost ops_before = ops@;
            let mut body = sequence.expand();
            ops.append(&mut body);
            proof {
                assert(ops@ =~= ops_before + seq_ops(task_steps(t)));
            }
        }
        TickPlan { ops, task }
    }

    /// Report that the driver finished the task's whole sequence: record
    /// the run time and log the success.  Called exactly once per executed
    /// sequence; until it is, the task stays due.
    pub fn complete_task(&mut self, task: TaskType, now_ms: u64)
        requires
            old(self).wf(),
        ensures
            final(self).wf(),
            final(self).spec_last_run_ms(task) == now_ms,
            forall|t: TaskType|
                t != task ==> #[trigger] final(self).spec_last_run_ms(t) == old(self).spec_last_run_ms(t),
            final(self).spec_active() == old(self).spec_active(),
            forall|t: TaskType|
                #[trigger] final(self).spec_task_enabled(t) == old(self).spec_task_enabled(t),
            final(self).spec_stats() == old(self).spec_stats(),
            final(self).spec_history() == old(self).spec_history().push(
                (now_ms, LogLevel::Success, done_message(task)),
            ),
    {
        self.task_manager.update_last_run(task, now_ms);
        let message = match task {
            TaskType::Upgrades => "Upgrades complete",
            TaskType::Souls => "Souls upgrade complete",
            TaskType::Prestige => "Prestige complete",
        };
        self.logger.log(LogLevel::Success, message, now_ms);
    }

    /// Append an informational record to the activity log — for events of
    /// the surrounding loop worth keeping, such as its start.  Nothing
    /// else changes.
    pub fn log_info(&mut self, message: &str, now_ms: u64)
        requires
            old(self).wf(),
        ensures
            final(self).wf(),
            final(self).spec_history() == old(self).spec_history().push(
                (now_ms, LogLevel::Info, message@),
            ),
            final(self).spec_active() == old(self).spec_active(),
            forall|t: TaskType|
                #[trigger] final(self).spec_task_enabled(t) == old(self).spec_task_enabled(t),
            forall|t: TaskType|
                #[trigger] final(self).spec_last_run_ms(t) == old(self).spec_last_run_ms(t),
            final(self).spec_stats() == old(self).spec_stats(),
    {
        self.logger.log(LogLevel::Info, message, now_ms);
    }

    pub fn get_stats(&self) -> (s: &Stats)
        ensures
            *s == self.spec_stats(),
    {
        &self.stats
    }

    pub fn get_logger(&self) -> (l: &Logger)
        ensures
            *l == self.spec_logger(),
    {
        &self.logger
    }

    pub fn get_task_manager(&self) -> (m: &TaskManager)
        ensures
            *m == self.spec_task_manager(),
    {
        &self.task_manager
    }
}

/// A disabled task is never due, however much time has elapsed: the enable
/// flag dominates due-ness.
pub proof fn lemma_disabled_never_due(b: Bot, task: TaskType, now_ms: u64)
    requires
        !b.spec_task_enabled(task),
    ensures
        !b.spec_task_ready(task, now_ms),
        !b.spec_due(task, now_ms),
        b.spec_first_due(now_ms) != Some(task),
{
}

/// A task's timer due-ness depends on its last-run time alone: two
/// supervisor states that agree on a task's last-run time agree on its
/// timer, so disabling and re-enabling a task — which leaves the last-run
/// time untouched — neither fast-forwards nor resets its schedule.
pub proof fn lemma_reenable_keeps_timer(a: Bot, b: Bot, task: TaskType, now_ms: u64)
    requires
        a.spec_last_run_ms(task) == b.spec_last_run_ms(task),
    ensures
        a.spec_task_manager().spec_timer_due(task, now_ms) == b.spec_task_manager().spec_timer_due(
            task,
            now_ms,
        ),
        b.spec_task_enabled(task) ==> b.spec_task_ready(task, now_ms)
            == a.spec_task_manager().spec_timer_due(task, now_ms),
{
}

/// When the master flag is off, nothing is due.
pub proof fn lemma_inactive_never_due(b: Bot, task: TaskType, now_ms: u64)
    requires
        !b.spec_active(),
    ensures
        !b.spec_due(task, now_ms),
{
}

/// If any task is ready, a tick selects exactly one — the ready task of
/// highest priority — and every other ready task is left for a later tick.
pub proof fn lemma_one_task_per_tick(b: Bot, task: TaskType, now_ms: u64)
    requires
        b.spec_task_ready(task, now_ms),
    ensures
        b.spec_first_due(now_ms) is Some,
        b.spec_task_ready(b.spec_first_due(now_ms)->Some_0, now_ms),
        b.spec_first_due(now_ms)->Some_0.priority() <= task.priority(),
{
}

} // verus!
