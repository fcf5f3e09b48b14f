//! A single countdown session ("pomodoro") with a durable record per session.
//!
//! The library holds the session lifecycle: starting a session, deriving its
//! status from the clock, logging its completion exactly once, and reconciling
//! cancellation or overwrite with the session's record. Persistence is modelled
//! by [`SessionStore`], an in-memory image of the data directory that the
//! caller loads and writes back.

mod clock;
mod laws;
mod logs;
mod machine;
mod naming;
mod types;

pub use clock::MAX_UNIX;
pub use laws::{
    lemma_completion_logged_once, lemma_distinct_record_names, lemma_force_cancels_prior,
    lemma_running_refused,
};
pub use logs::{
    apply_marks, cancellation_of, completion_of, find_log, marked, initialize_session_log, lemma_terminal_flags_exclusive, log_of,
    mark_log_canceled, mark_log_completed, LogMark,
};
pub use machine::{
    current_status, finalize_completed_session, finalize_post, prior_effect, prior_mark,
    session_tick, start_post, start_timer, started, status_post, stop_timer,
};
pub use naming::{resolve_session_log_path, resolved_name, sanitize_filename, sanitized};
pub use types::{
    LogFile, PomodoroError, PomodoroState, SessionLog, SessionOutcome, SessionStore, Status, Tick,
};
