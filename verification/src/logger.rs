//! The activity log: a bounded, time-ordered record of what the supervisor
//! did, truncated to the most recent entries.
//!
//! The log keeps, as ghost state, the full sequence of records ever
//! appended; its well-formedness says that the stored entries are exactly
//! the most recent `MAX_LOGS` of that history, in append order.

use vstd::prelude::*;
use crate::config::MAX_LOGS;

verus! {

/// Severity of a log entry.
#[derive(Clone, Copy, Debug, PartialEq, Eq, Structural)]
pub enum LogLevel {
    Info,
    Success,
    Warning,
    Error,
    Task,
}

impl LogLevel {
    /// The icon shown in front of a rendered entry.
    pub open spec fn spec_icon(self) -> Seq<char> {
        match self {
            LogLevel::Info => "🚀"@,
            LogLevel::Success => "✅"@,
            LogLevel::Warning => "⚡"@,
            LogLevel::Error => "❌"@,
            LogLevel::Task => "🔧"@,
        }
    }

    pub fn icon(&self) -> (r: &'static str)
        ensures
            r@ == self.spec_icon(),
    {
        match self {
            LogLevel::Info => "🚀",
            LogLevel::Success => "✅",
            LogLevel::Warning => "⚡",
            LogLevel::Error => "❌",
            LogLevel::Task => "🔧",
        }
    }
}

/// One recorded event: when, how severe, and what happened.
pub struct LogEntry {
    pub timestamp_ms: u64,
    pub level: LogLevel,
    pub message: String,
}

/// The mathematical record a stored entry stands for.
pub open spec fn entry_view(e: LogEntry) -> (u64, LogLevel, Seq<char>) {
    (e.timestamp_ms, e.level, e.message@)
}

impl Clone for LogEntry {
    fn clone(&self) -> (r: Self)
        ensures
            entry_view(r) == entry_view(*self),
    {
        LogEntry {
            timestamp_ms: self.timestamp_ms,
            level: self.level,
            message: self.message.clone(),
        }
    }
}

/// The most recent `k` elements of a sequence, in original order; the whole
/// sequence when it is no longer than `k`.
pub open spec fn last_k<T>(h: Seq<T>, k: int) -> Seq<T> {
    if h.len() <= k {
        h
    } else {
        h.subrange(h.len() - k, h.len() as int)
    }
}

/// A bounded, append-only activity log with first-in-first-out eviction.
pub struct Logger {
    entries: Vec<LogEntry>,
    history: Ghost<Seq<(u64, LogLevel, Seq<char>)>>,
}

impl Logger {
    /// The records of the entries the log currently stores, oldest first.
    pub closed spec fn spec_entries(self) -> Seq<(u64, LogLevel, Seq<char>)> {
        self.entries@.map_values(|e: LogEntry| entry_view(e))
    }

    /// Every record ever appended, oldest first.
    pub closed spec fn spec_history(self) -> Seq<(u64, LogLevel, Seq<char>)> {
        self.history@
    }

    /// The stored entries are exactly the most recent `MAX_LOGS` records of
    /// the full history, in order.
    pub open spec fn wf(self) -> bool {
        self.spec_entries() == last_k(self.spec_history(), MAX_LOGS as int)
    }

    pub fn new() -> (l: Logger)
        ensures
            l.wf(),
            l.spec_history() == Seq::<(u64, LogLevel, Seq<char>)>::empty(),
    {
        let l = Logger { entries: Vec::new(), history: Ghost(Seq::empty()) };
        proof {
            assert(l.spec_entries() =~= Seq::<(u64, LogLevel, Seq<char>)>::empty());
        }
        l
    }

    /// Append one record; if the log is full, the oldest stored entry is
    /// dropped to make room.
    pub fn log(&mut self, level: LogLevel, message: &str, now_ms: u64)
        requires
            old(self).wf(),
        ensures
            final(self).wf(),
            final(self).spec_history() == old(self).spec_history().push(
                (now_ms, level, message@),
            ),
    {
        let ghost old_entries = self.spec_entries();
        let ghost old_history = self.history@;
        let entry = LogEntry { timestamp_ms: now_ms, level, message: message.to_owned() };
        proof {
            assert(entry_view(entry) == (now_ms, level, message@));
        }
        self.entries.push(entry);
        self.history = Ghost(old_history.push((now_ms, level, message@)));
        proof {
            assert(self.spec_entries() =~= old_entries.push((now_ms, level, message@)));
        }
        if self.entries.len() > MAX_LOGS {
            let ghost pushed = self.spec_entries();
            self.entries.remove(0);
            proof {
                assert(self.spec_entries() =~= pushed.drop_first());
            }
        }
        proof {
            assert(self.spec_entries() =~= last_k(self.spec_history(), MAX_LOGS as int));
        }
    }

    /// A full copy of the stored entries, oldest first, so the reader never
    /// holds the log while rendering.
    pub fn get_entries(&self) -> (v: Vec<LogEntry>)
        ensures
            v@.map_values(|e: LogEntry| entry_view(e)) == self.spec_entries(),
    {
        let mut v: Vec<LogEntry> = Vec::new();
        let n = self.entries.len();
        for i in 0..n
            invariant
                n == self.entries@.len(),
                v@.len() == i,
                forall|j: int|
                    0 <= j < i ==> #[trigger] entry_view(v@[j]) == entry_view(self.entries@[j]),
        {
            v.push(self.entries[i].clone());
        }
        proof {
            assert(v@.map_values(|e: LogEntry| entry_view(e)) =~= self.spec_entries());
        }
        v
    }

    /// However many records have been appended, the log stores at most
    /// `MAX_LOGS` of them: the most recent ones, in their original order.
    pub proof fn lemma_retention(self)
        requires
            self.wf(),
        ensures
            self.spec_entries() == last_k(self.spec_history(), MAX_LOGS as int),
            self.spec_entries().len() <= MAX_LOGS,
            forall|i: int|
                0 <= i < self.spec_entries().len() ==> #[trigger] self.spec_entries()[i]
                    == self.spec_history()[self.spec_history().len() - self.spec_entries().len()
                    + i],
    {
    }
}

} // verus!
