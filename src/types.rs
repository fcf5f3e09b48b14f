//! The data of a session: the active-session descriptor, the per-session
//! record, the in-memory store that holds both, and the results of the
//! operations.

use vstd::prelude::*;

verus! {

/// What can go wrong in an operation of the session state machine.
#[derive(Debug)]
pub enum PomodoroError {
    /// A session of zero minutes was requested.
    InvalidDuration,
    /// A session is still running and `force` was not given.
    ActiveSessionRunning { remaining_secs: u64 },
    /// A stored file could not be read or written; carries its name.
    Io(String),
    /// A stored file does not hold a valid record; carries the cause.
    Serde(String),
}

/// The single in-progress session.
#[derive(Debug)]
pub struct PomodoroState {
    pub start_unix: i64,
    pub end_unix: i64,
    pub minutes: u64,
    pub note: Option<String>,
    /// Name of the session's record, fixed for the session's whole life.
    pub log_path: String,
    /// True once the record has been marked completed.
    pub completed_logged: bool,
}

/// The durable record of one session: descriptive fields set at creation,
/// and the two terminal outcomes.
#[derive(Debug)]
pub struct SessionLog {
    pub minutes: u64,
    pub note: Option<String>,
    pub started_at: String,
    pub ends_at: String,
    pub completed: bool,
    pub completed_at: Option<String>,
    pub canceled: bool,
    pub canceled_at: Option<String>,
}

/// A session record together with the file name it is stored under.
#[derive(Debug)]
pub struct LogFile {
    pub name: String,
    pub log: SessionLog,
}

/// The contents of the data directory: the active-session file, if any,
/// and the session records. A name that occurs twice denotes its first
/// occurrence.
#[derive(Debug)]
pub struct SessionStore {
    pub active: Option<PomodoroState>,
    pub logs: Vec<LogFile>,
}

/// The live status of the active session.
#[derive(Debug, PartialEq, Eq)]
pub enum Status {
    NoActive,
    Running { elapsed_secs: u64, remaining_secs: u64 },
    Completed { over_secs: u64, just_logged: bool },
}

/// How a foreground wait on a session ended.
#[derive(Debug, Clone, Copy, PartialEq, Eq)]
pub enum SessionOutcome {
    Completed,
    Canceled,
}

/// What one step of the foreground wait decided.
#[derive(Debug, PartialEq, Eq)]
pub enum Tick {
    /// Keep waiting; this many seconds remain.
    Continue { remaining_secs: u64 },
    /// The wait is over; the active-session record has been removed.
    /// `remaining_secs` is what was left when it ended.
    Done { outcome: SessionOutcome, remaining_secs: u64 },
}

impl PomodoroState {
    /// The session has reached its end at `now`.
    pub open spec fn complete_at(&self, now: i64) -> bool {
        now >= self.end_unix
    }

    pub fn is_complete_at(&self, now: i64) -> (r: bool)
        ensures
            r == self.complete_at(now),
    {
        now >= self.end_unix
    }

    /// A field-for-field copy.
    pub fn duplicate(&self) -> (r: PomodoroState)
        ensures
            r == *self,
    {
        PomodoroState {
            start_unix: self.start_unix,
            end_unix: self.end_unix,
            minutes: self.minutes,
            note: copy_note(&self.note),
            log_path: self.log_path.clone(),
            completed_logged: self.completed_logged,
        }
    }
}

pub(crate) fn copy_note(n: &Option<String>) -> (r: Option<String>)
    ensures
        r == *n,
{
    match n {
        Some(s) => Some(s.clone()),
        None => None,
    }
}

} // verus!
