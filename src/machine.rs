//! The session state machine: start, status, stop, and one step of the
//! foreground wait, all on an explicit clock reading.

use crate::clock::MAX_UNIX;
use crate::logs::{
    cancellation_of, completion_of, is_fresh, log_of, mark_log_canceled, mark_log_completed,
    initialize_session_log, marked, same_except, LogMark,
};
use crate::naming::{resolve_session_log_path, resolved_name};
use crate::types::{LogFile, PomodoroError, PomodoroState, SessionOutcome, SessionStore, Status, Tick};
use vstd::prelude::*;

verus! {

impl PomodoroState {
    /// A coherent session: positive length, `end = start + 60 * minutes`,
    /// and instants that can be rendered as dates.
    pub open spec fn wf(&self) -> bool {
        &&& self.minutes > 0
        &&& 0 <= self.start_unix
        &&& self.end_unix == self.start_unix + 60 * self.minutes
        &&& self.end_unix <= MAX_UNIX
    }

    /// Tests `wf`, for callers that read a session from elsewhere.
    pub fn is_valid(&self) -> (r: bool)
        ensures
            r == self.wf(),
    {
        self.minutes > 0 && 0 <= self.start_unix && self.start_unix <= self.end_unix
            && self.end_unix <= MAX_UNIX && self.minutes <= (MAX_UNIX as u64) / 60
            && self.end_unix - self.start_unix == 60 * (self.minutes as i64)
    }
}

impl SessionStore {
    /// The active session, if any, is coherent.
    pub open spec fn wf(&self) -> bool {
        self.active matches Some(a) ==> a.wf()
    }
}

/// `a` and `b` hold the same active session and the same records.
pub open spec fn same_store(a: SessionStore, b: SessionStore) -> bool {
    a.active == b.active && a.logs@ == b.logs@
}

/// The session after its completion has been logged.
pub open spec fn finalized(s: PomodoroState) -> PomodoroState {
    PomodoroState { completed_logged: true, ..s }
}

/// Seconds since the start, floored at zero.
pub open spec fn elapsed_of(a: PomodoroState, now: i64) -> int {
    if now > a.start_unix {
        now - a.start_unix
    } else {
        0
    }
}

/// Seconds of the session's length not yet elapsed, floored at zero.
pub open spec fn remaining_of(a: PomodoroState, now: i64) -> int {
    let r = (a.end_unix - a.start_unix) - elapsed_of(a, now);
    if r > 0 {
        r
    } else {
        0
    }
}

/// The mark that a start at `now` applies to the record of the session
/// `a` it replaces: canceled while it runs, completed once it has ended
/// unlogged, none after that.
pub open spec fn prior_mark(a: PomodoroState, now: i64) -> Option<LogMark> {
    if now < a.end_unix {
        Some(LogMark::Canceled)
    } else if !a.completed_logged {
        Some(LogMark::Completed)
    } else {
        None
    }
}

/// What `finalize_completed_session` does: nothing unless the session is
/// complete at `now` and not yet logged; then it marks the record completed,
/// sets `completed_logged` and saves the session as the active one.
pub open spec fn finalize_post(
    old_store: SessionStore,
    old_state: PomodoroState,
    now: i64,
    r: Result<bool, PomodoroError>,
    new_store: SessionStore,
    new_state: PomodoroState,
) -> bool {
    if old_state.completed_logged || !old_state.complete_at(now) {
        r == Ok::<bool, PomodoroError>(false) && same_store(old_store, new_store) && new_state == old_state
    } else if log_of(old_store.logs@, old_state.log_path@) is None {
        &&& r matches Err(PomodoroError::Io(n)) && n@ == old_state.log_path@
        &&& same_store(old_store, new_store)
        &&& new_state == old_state
    } else {
        &&& r == Ok::<bool, PomodoroError>(true)
        &&& new_state == finalized(old_state)
        &&& new_store.active == Some(new_state)
        &&& log_of(new_store.logs@, old_state.log_path@) matches Some(l) && completion_of(
            log_of(old_store.logs@, old_state.log_path@)->Some_0,
            l,
        )
        &&& same_except(old_store.logs@, new_store.logs@, old_state.log_path@)
    }
}

/// Logs the completion of `state` exactly once: a session already logged,
/// or not yet complete at `now`, is left alone and `false` returned.
pub fn finalize_completed_session(
    store: &mut SessionStore,
    state: &mut PomodoroState,
    now: i64,
) -> (r: Result<bool, PomodoroError>)
    requires
        0 <= now <= MAX_UNIX,
    ensures
        finalize_post(*old(store), *old(state), now, r, *final(store), *final(state)),
        old(state).completed_logged ==> same_store(*old(store), *final(store)) && *final(state) == *old(
            state,
        ),
{
    if state.completed_logged {
        return Ok(false);
    }
    if !state.is_complete_at(now) {
        return Ok(false);
    }
    match mark_log_completed(&mut store.logs, &state.log_path, now) {
        Err(e) => return Err(e),
        Ok(()) => {},
    }
    state.completed_logged = true;
    store.active = Some(state.duplicate());
    Ok(true)
}

/// What `current_status` reports and does.
pub open spec fn status_post(
    old_store: SessionStore,
    now: i64,
    r: Result<Status, PomodoroError>,
    new_store: SessionStore,
) -> bool {
    match old_store.active {
        None => r == Ok::<Status, PomodoroError>(Status::NoActive) && same_store(old_store, new_store),
        Some(a) => if now < a.end_unix {
            &&& r == Ok::<Status, PomodoroError>(
                Status::Running {
                    elapsed_secs: elapsed_of(a, now) as u64,
                    remaining_secs: remaining_of(a, now) as u64,
                },
            )
            &&& same_store(old_store, new_store)
        } else {
            let over = (now - a.end_unix) as u64;
            if a.completed_logged {
                &&& r == Ok::<Status, PomodoroError>(
                    Status::Completed { over_secs: over, just_logged: false },
                )
                &&& same_store(old_store, new_store)
            } else if log_of(old_store.logs@, a.log_path@) is None {
                &&& r matches Err(PomodoroError::Io(n)) && n@ == a.log_path@
                &&& same_store(old_store, new_store)
            } else {
                &&& r == Ok::<Status, PomodoroError>(
                    Status::Completed { over_secs: over, just_logged: true },
                )
                &&& new_store.active == Some(finalized(a))
                &&& log_of(new_store.logs@, a.log_path@) matches Some(l) && completion_of(
                    log_of(old_store.logs@, a.log_path@)->Some_0,
                    l,
                )
                &&& same_except(old_store.logs@, new_store.logs@, a.log_path@)
            }
        },
    }
}

/// Reports the live status of the active session at `now`. A session that
/// has ended is finalized; `just_logged` tells whether this call logged it.
pub fn current_status(store: &mut SessionStore, now: i64) -> (r: Result<Status, PomodoroError>)
    requires
        old(store).wf(),
        0 <= now <= MAX_UNIX,
    ensures
        status_post(*old(store), now, r, *final(store)),
{
    let mut state = match &store.active {
        None => return Ok(Status::NoActive),
        Some(s) => s.duplicate(),
    };
    if now < state.end_unix {
        let elapsed: i64 = if now > state.start_unix {
            now - state.start_unix
        } else {
            0
        };
        let total: i64 = state.end_unix - state.start_unix;
        let remaining: i64 = if total > elapsed {
            total - elapsed
        } else {
            0
        };
        Ok(Status::Running { elapsed_secs: elapsed as u64, remaining_secs: remaining as u64 })
    } else {
        let was_logged = match finalize_completed_session(store, &mut state, now) {
            Err(e) => return Err(e),
            Ok(b) => b,
        };
        let over = (now - state.end_unix) as u64;
        Ok(Status::Completed { over_secs: over, just_logged: was_logged })
    }
}

/// The effect of a start at `now` on the record of the session `a` it
/// replaces: the mark of `prior_mark`, if any.
pub open spec fn prior_effect(
    old_logs: Seq<LogFile>,
    a: PomodoroState,
    now: i64,
    new_logs: Seq<LogFile>,
) -> bool {
    match prior_mark(a, now) {
        Some(mk) => log_of(new_logs, a.log_path@) matches Some(l) && marked(
            mk,
            log_of(old_logs, a.log_path@)->Some_0,
            l,
        ),
        None => log_of(new_logs, a.log_path@) == log_of(old_logs, a.log_path@),
    }
}

/// `m` names the record of the active session of `st`.
pub open spec fn is_prior_path(st: SessionStore, m: Seq<char>) -> bool {
    match st.active {
        Some(a) => m == a.log_path@,
        None => false,
    }
}

/// The outcome of a start that succeeds: the new session is active, its
/// record is fresh, the record of the session it replaces is marked as
/// `prior_effect` says, and every other record stays.
pub open spec fn started(
    old_store: SessionStore,
    now: i64,
    minutes: u64,
    note: Option<String>,
    r: Result<PomodoroState, PomodoroError>,
    new_store: SessionStore,
) -> bool {
    r matches Ok(s) && {
        &&& s.start_unix == now
        &&& s.end_unix == now + 60 * minutes
        &&& s.minutes == minutes
        &&& s.note == note
        &&& !s.completed_logged
        &&& s.log_path@ == resolved_name(old_store.logs@, note, now)
        &&& new_store.active == Some(s)
        &&& log_of(new_store.logs@, s.log_path@) matches Some(l) && is_fresh(l, minutes, note)
        &&& match old_store.active {
            Some(a) => a.log_path@ != s.log_path@ ==> prior_effect(
                old_store.logs@,
                a,
                now,
                new_store.logs@,
            ),
            None => true,
        }
        &&& forall|m: Seq<char>|
            m != s.log_path@ && !is_prior_path(old_store, m) ==> #[trigger] log_of(
                new_store.logs@,
                m,
            ) == log_of(old_store.logs@, m)
    }
}

/// What `start_timer` returns and does. A zero duration is refused; a
/// running session is refused unless `force`, and its record is then
/// canceled; a session that has ended unlogged is finalized first.
pub open spec fn start_post(
    old_store: SessionStore,
    now: i64,
    minutes: u64,
    note: Option<String>,
    force: bool,
    r: Result<PomodoroState, PomodoroError>,
    new_store: SessionStore,
) -> bool {
    if minutes == 0 {
        r matches Err(PomodoroError::InvalidDuration) && same_store(old_store, new_store)
    } else {
        match old_store.active {
            None => started(old_store, now, minutes, note, r, new_store),
            Some(a) => if now < a.end_unix && !force {
                &&& r matches Err(PomodoroError::ActiveSessionRunning { remaining_secs })
                    && remaining_secs == a.end_unix - now
                &&& same_store(old_store, new_store)
            } else if prior_mark(a, now) is Some && log_of(old_store.logs@, a.log_path@) is None {
                &&& r matches Err(PomodoroError::Io(n)) && n@ == a.log_path@
                &&& same_store(old_store, new_store)
            } else {
                started(old_store, now, minutes, note, r, new_store)
            },
        }
    }
}

/// Marking a record keeps the set of names that hold a record.
proof fn lemma_same_names(a: Seq<LogFile>, b: Seq<LogFile>, n: Seq<char>, note: Option<String>, t: i64)
    requires
        same_except(a, b, n),
        log_of(a, n) is Some,
        log_of(b, n) is Some,
    ensures
        resolved_name(a, note, t) == resolved_name(b, note, t),
{
    let first = crate::naming::base_name(note, t) + crate::naming::json_ext();
    if first != n {
        assert(log_of(b, first) == log_of(a, first));
    }
}

/// Starts a session of `minutes` minutes at `now`, with an optional note.
/// A session still running is refused unless `force` is given, in which
/// case its record is marked canceled at `now`.
pub fn start_timer(
    store: &mut SessionStore,
    now: i64,
    minutes: u64,
    note: Option<String>,
    force: bool,
) -> (r: Result<PomodoroState, PomodoroError>)
    requires
        old(store).wf(),
        0 <= now,
        now + 60 * minutes <= MAX_UNIX,
    ensures
        start_post(*old(store), now, minutes, note, force, r, *final(store)),
        final(store).wf(),
{
    if minutes == 0 {
        return Err(PomodoroError::InvalidDuration);
    }
    let ghost old_logs = store.logs@;
    match &store.active {
        None => {},
        Some(cur) => {
            let mut existing = cur.duplicate();
            let ghost a = existing;
            match finalize_completed_session(store, &mut existing, now) {
                Err(e) => return Err(e),
                Ok(_) => {},
            }
            let still_running = now < existing.end_unix;
            if still_running && !force {
                return Err(
                    PomodoroError::ActiveSessionRunning {
                        remaining_secs: (existing.end_unix - now) as u64,
                    },
                );
            }
            if still_running {
                match mark_log_canceled(&mut store.logs, &existing.log_path, now) {
                    Err(e) => return Err(e),
                    Ok(()) => {},
                }
            }
            proof {
                if prior_mark(a, now) is Some {
                    assert forall|nt: Option<String>, t: i64| true implies resolved_name(old_logs, nt, t) == resolved_name(store.logs@, nt, t) by {
                        lemma_same_names(old_logs, store.logs@, a.log_path@, nt, t);
                    }
                }
            }
        },
    }
    let ghost mid_logs = store.logs@;
    let end_unix = now + (minutes as i64) * 60;
    let log_path = resolve_session_log_path(&store.logs, &note, now);
    initialize_session_log(&mut store.logs, log_path.clone(), minutes, &note, now, end_unix);
    let state = PomodoroState {
        start_unix: now,
        end_unix,
        minutes,
        note,
        log_path,
        completed_logged: false,
    };
    store.active = Some(state.duplicate());
    Ok(state)
}

/// Ends the active session at `now`: a session that has ended is finalized
/// rather than canceled, a running one has its record marked canceled; the
/// active session is then removed. Without an active session nothing changes.
pub fn stop_timer(store: &mut SessionStore, now: i64) -> (r: Result<(), PomodoroError>)
    requires
        0 <= now <= MAX_UNIX,
    ensures
        match old(store).active {
            None => r is Ok && same_store(*old(store), *final(store)),
            Some(a) => if prior_mark(a, now) is Some && log_of(old(store).logs@, a.log_path@) is None {
                &&& r matches Err(PomodoroError::Io(n)) && n@ == a.log_path@
                &&& same_store(*old(store), *final(store))
            } else {
                &&& r is Ok
                &&& final(store).active is None
                &&& prior_effect(old(store).logs@, a, now, final(store).logs@)
                &&& same_except(old(store).logs@, final(store).logs@, a.log_path@)
            },
        },
{
    let mut state = match &store.active {
        None => return Ok(()),
        Some(s) => s.duplicate(),
    };
    if state.is_complete_at(now) {
        match finalize_completed_session(store, &mut state, now) {
            Err(e) => return Err(e),
            Ok(_) => {},
        }
    } else {
        match mark_log_canceled(&mut store.logs, &state.log_path, now) {
            Err(e) => return Err(e),
            Ok(()) => {},
        }
    }
    store.active = None;
    Ok(())
}

/// One step of the foreground wait on `state` at `now`. A cancellation
/// request marks the record canceled; a session that has reached its end is
/// finalized; either way the active session is removed and the wait is over.
/// Otherwise the wait goes on.
pub fn session_tick(
    store: &mut SessionStore,
    state: &mut PomodoroState,
    now: i64,
    cancel_requested: bool,
) -> (r: Result<Tick, PomodoroError>)
    requires
        0 <= now <= MAX_UNIX,
    ensures
        if cancel_requested {
            if log_of(old(store).logs@, old(state).log_path@) is None {
                &&& r matches Err(PomodoroError::Io(n)) && n@ == old(state).log_path@
                &&& same_store(*old(store), *final(store))
            } else {
                &&& r == Ok::<Tick, PomodoroError>(
                    Tick::Done {
                        outcome: SessionOutcome::Canceled,
                        remaining_secs: (if old(state).end_unix > now {
                            old(state).end_unix - now
                        } else {
                            0
                        }) as u64,
                    },
                )
                &&& final(store).active is None
                &&& log_of(final(store).logs@, old(state).log_path@) matches Some(l)
                    && cancellation_of(log_of(old(store).logs@, old(state).log_path@)->Some_0, l)
                &&& same_except(old(store).logs@, final(store).logs@, old(state).log_path@)
            }
        } else if now >= old(state).end_unix {
            if !old(state).completed_logged && log_of(old(store).logs@, old(state).log_path@) is None {
                &&& r matches Err(PomodoroError::Io(n)) && n@ == old(state).log_path@
                &&& same_store(*old(store), *final(store))
            } else {
                &&& r == Ok::<Tick, PomodoroError>(
                    Tick::Done { outcome: SessionOutcome::Completed, remaining_secs: 0 },
                )
                &&& final(store).active is None
                &&& *final(state) == finalized(*old(state))
                &&& prior_effect(old(store).logs@, *old(state), now, final(store).logs@)
                &&& same_except(old(store).logs@, final(store).logs@, old(state).log_path@)
            }
        } else {
            &&& r == Ok::<Tick, PomodoroError>(
                Tick::Continue { remaining_secs: (old(state).end_unix - now) as u64 },
            )
            &&& same_store(*old(store), *final(store))
            &&& *final(state) == *old(state)
        },
{
    if cancel_requested {
        let remaining: i64 = if state.end_unix > now {
            state.end_unix - now
        } else {
            0
        };
        match mark_log_canceled(&mut store.logs, &state.log_path, now) {
            Err(e) => return Err(e),
            Ok(()) => {},
        }
        store.active = None;
        return Ok(Tick::Done { outcome: SessionOutcome::Canceled, remaining_secs: remaining as u64 });
    }
    if now >= state.end_unix {
        match finalize_completed_session(store, state, now) {
            Err(e) => return Err(e),
            Ok(_) => {},
        }
        store.active = None;
        return Ok(Tick::Done { outcome: SessionOutcome::Completed, remaining_secs: 0 });
    }
    Ok(Tick::Continue { remaining_secs: (state.end_unix - now) as u64 })
}

} // verus!
