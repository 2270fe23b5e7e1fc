//! A small generic scheduler: interval-gated tasks identified by their
//! position in a list, ticked by a caller that performs the chosen task's
//! work and owns the clock.
//!
//! At most one due task runs per tick — the first due one in declaration
//! order — so a single tick never stacks several long-running actions.

use vstd::prelude::*;
use crate::stats::spec_elapsed_ms;

verus! {

/// One interval-gated task.  A task that has never run is due at once;
/// afterwards it is due again only when strictly more than its interval
/// has elapsed since its last run.
#[derive(Clone, Copy, Debug)]
pub struct TimedTask {
    interval_ms: u64,
    last_run_ms: Option<u64>,
}

impl TimedTask {
    pub closed spec fn spec_interval_ms(self) -> u64 {
        self.interval_ms
    }

    /// The reading of the task's last run; `None` before the first run.
    pub closed spec fn spec_last_run_ms(self) -> Option<u64> {
        self.last_run_ms
    }

    /// Due-ness of the task at a reading: immediately after construction,
    /// or once strictly more than the interval has elapsed.
    pub open spec fn spec_should_run(self, now_ms: u64) -> bool {
        match self.spec_last_run_ms() {
            None => true,
            Some(last) => spec_elapsed_ms(last, now_ms) > self.spec_interval_ms(),
        }
    }

    /// A fresh task is due at every reading until it first runs.
    pub fn new(interval_ms: u64) -> (t: TimedTask)
        ensures
            t.spec_interval_ms() == interval_ms,
            t.spec_last_run_ms() is None,
            forall|now_ms: u64| #[trigger] t.spec_should_run(now_ms),
    {
        TimedTask { interval_ms, last_run_ms: None }
    }

    pub fn should_run(&self, now_ms: u64) -> (b: bool)
        ensures
            b == self.spec_should_run(now_ms),
    {
        match self.last_run_ms {
            None => true,
            Some(last) => {
                let elapsed: u64 = if now_ms >= last {
                    now_ms - last
                } else {
                    0
                };
                elapsed > self.interval_ms
            },
        }
    }

    /// Record a completed run at the given reading.
    pub fn run(&mut self, now_ms: u64)
        ensures
            final(self).spec_interval_ms() == old(self).spec_interval_ms(),
            final(self).spec_last_run_ms() == Some(now_ms),
    {
        self.last_run_ms = Some(now_ms);
    }
}

/// An ordered list of timed tasks, ticked together.
pub struct Scheduler {
    pub tasks: Vec<TimedTask>,
}

impl Scheduler {
    pub fn new() -> (s: Scheduler)
        ensures
            s.tasks@ == Seq::<TimedTask>::empty(),
    {
        Scheduler { tasks: Vec::new() }
    }

    /// Append a task; later-added tasks have lower priority.
    pub fn add_task(&mut self, task: TimedTask)
        ensures
            final(self).tasks@ == old(self).tasks@.push(task),
    {
        self.tasks.push(task);
    }

    /// One tick: report the first due task in declaration order, if any,
    /// without touching its timer.  The caller performs that task's work
    /// and then records completion through `run_task`, so work that never
    /// happens leaves the task due.  At most one task is reported per
    /// tick; every other due task waits for a later tick.
    pub fn tick(&self, now_ms: u64) -> (due: Option<usize>)
        ensures
            due is None ==> forall|j: int|
                0 <= j < self.tasks@.len() ==> !(#[trigger] self.tasks@[j].spec_should_run(now_ms)),
            due matches Some(i) ==> {
                &&& 0 <= i < self.tasks@.len()
                &&& self.tasks@[i as int].spec_should_run(now_ms)
                &&& forall|j: int|
                    0 <= j < i ==> !(#[trigger] self.tasks@[j].spec_should_run(now_ms))
            },
    {
        let n = self.tasks.len();
        for i in 0..n
            invariant
                n == self.tasks@.len(),
                forall|j: int| 0 <= j < i ==> !(#[trigger] self.tasks@[j].spec_should_run(now_ms)),
        {
            if self.tasks[i].should_run(now_ms) {
                return Some(i);
            }
        }
        None
    }

    /// Record that the task at the given index completed its work at the
    /// given reading.
    pub fn run_task(&mut self, index: usize, now_ms: u64)
        requires
            index < old(self).tasks@.len(),
        ensures
            final(self).tasks@.len() == old(self).tasks@.len(),
            final(self).tasks@[index as int].spec_last_run_ms() == Some(now_ms),
            final(self).tasks@[index as int].spec_interval_ms() == old(
                self,
            ).tasks@[index as int].spec_interval_ms(),
            forall|j: int|
                0 <= j < old(self).tasks@.len() && j != index ==> #[trigger] final(self).tasks@[j]
                    == old(self).tasks@[j],
    {
        let mut t = self.tasks[index];
        t.run(now_ms);
        self.tasks.set(index, t);
    }
}

} // verus!
