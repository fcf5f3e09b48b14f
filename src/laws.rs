//! Properties of the session lifecycle that relate several calls.

use crate::clock::utc_stamp_of;
use crate::logs::{log_of, marked, same_description, LogMark};
use crate::machine::{finalized, is_prior_path, prior_mark, start_post, status_post};
use crate::naming::{base_name, json_ext, resolved_name};
use crate::types::{PomodoroError, PomodoroState, SessionLog, SessionStore, Status};
use vstd::prelude::*;

verus! {

/// Completion is logged exactly once: once a session has ended, a first
/// status call logs it (and says so when it was not logged before), and a
/// second one reports it as already logged and writes nothing.
pub proof fn lemma_completion_logged_once(
    s0: SessionStore,
    now1: i64,
    r1: Result<Status, PomodoroError>,
    s1: SessionStore,
    now2: i64,
    r2: Result<Status, PomodoroError>,
    s2: SessionStore,
)
    requires
        s0.active is Some,
        now1 >= s0.active->Some_0.end_unix,
        now2 >= s0.active->Some_0.end_unix,
        status_post(s0, now1, r1, s1),
        r1 is Ok,
        status_post(s1, now2, r2, s2),
    ensures
        ({
            let a = s0.active->Some_0;
            &&& r1 == Ok::<Status, PomodoroError>(
                Status::Completed {
                    over_secs: (now1 - a.end_unix) as u64,
                    just_logged: !a.completed_logged,
                },
            )
            &&& !a.completed_logged ==> (log_of(s1.logs@, a.log_path@) matches Some(l)
                && l.completed)
            &&& r2 == Ok::<Status, PomodoroError>(
                Status::Completed { over_secs: (now2 - a.end_unix) as u64, just_logged: false },
            )
            &&& s2.active == s1.active
            &&& s2.logs@ == s1.logs@
        }),
{
    let a = s0.active->Some_0;
    if !a.completed_logged {
        assert(s1.active == Some(finalized(a)));
    }
}

/// Forcing a start over a running session cancels that session's record and
/// makes the new session active with the given parameters, provided the new
/// record does not take the old record's name.
pub proof fn lemma_force_cancels_prior(
    s0: SessionStore,
    now: i64,
    minutes: u64,
    note: Option<String>,
    r: Result<PomodoroState, PomodoroError>,
    s1: SessionStore,
)
    requires
        s0.active is Some,
        now < s0.active->Some_0.end_unix,
        minutes > 0,
        log_of(s0.logs@, s0.active->Some_0.log_path@) is Some,
        resolved_name(s0.logs@, note, now) != s0.active->Some_0.log_path@,
        start_post(s0, now, minutes, note, true, r, s1),
    ensures
        r matches Ok(s) && {
            &&& s.start_unix == now
            &&& s.end_unix == now + 60 * minutes
            &&& s.minutes == minutes
            &&& s.note == note
            &&& s1.active == Some(s)
        },
        log_of(s1.logs@, s0.active->Some_0.log_path@) matches Some(l) && l.canceled,
{
    let a = s0.active->Some_0;
    assert(prior_mark(a, now) == Some(LogMark::Canceled));
}

/// Without `force`, a start over a running session is refused with the
/// seconds that remain, `end_unix - now`, which is positive; nothing changes.
pub proof fn lemma_running_refused(
    s0: SessionStore,
    now: i64,
    minutes: u64,
    note: Option<String>,
    r: Result<PomodoroState, PomodoroError>,
    s1: SessionStore,
)
    requires
        s0.active is Some,
        now < s0.active->Some_0.end_unix,
        minutes > 0,
        start_post(s0, now, minutes, note, false, r, s1),
    ensures
        r matches Err(PomodoroError::ActiveSessionRunning { remaining_secs }) && remaining_secs
            == s0.active->Some_0.end_unix - now && remaining_secs > 0,
        s1.active == s0.active,
        s1.logs@ == s0.logs@,
{
}

proof fn lemma_marked_keeps_description(mk: LogMark, a: SessionLog, b: SessionLog)
    requires
        marked(mk, a, b),
    ensures
        same_description(a, b),
{
}

proof fn lemma_stamped_names_differ(base: Seq<char>, t1: Seq<char>, t2: Seq<char>)
    requires
        t1 != t2,
    ensures
        base + seq!['-'] + t1 + json_ext() != base + seq!['-'] + t2 + json_ext(),
        base + json_ext() != base + seq!['-'] + t2 + json_ext(),
{
    let x = base + seq!['-'] + t1 + json_ext();
    let y = base + seq!['-'] + t2 + json_ext();
    if x == y {
        let k: int = base.len() as int + 1;
        assert(x.subrange(k, x.len() as int - 5) =~= t1);
        assert(y.subrange(k, y.len() as int - 5) =~= t2);
    }
    assert((base + json_ext()).len() < (base + seq!['-'] + t2 + json_ext()).len());
}

/// Two sessions started one after the other with the same non-empty note,
/// at instants whose stamps differ, get distinct record names, and the
/// second start does not overwrite the first session's record: its
/// description is kept.
pub proof fn lemma_distinct_record_names(
    s0: SessionStore,
    t1: i64,
    m1: u64,
    t2: i64,
    m2: u64,
    note: Option<String>,
    f1: bool,
    f2: bool,
    r1: Result<PomodoroState, PomodoroError>,
    s1: SessionStore,
    r2: Result<PomodoroState, PomodoroError>,
    s2: SessionStore,
)
    requires
        note matches Some(n) && n@.len() > 0,
        utc_stamp_of(t1) != utc_stamp_of(t2),
        start_post(s0, t1, m1, note, f1, r1, s1),
        r1 is Ok,
        start_post(s1, t2, m2, note, f2, r2, s2),
        r2 is Ok,
    ensures
        r2->Ok_0.log_path@ != r1->Ok_0.log_path@,
        log_of(s2.logs@, r1->Ok_0.log_path@) matches Some(l) && same_description(
            log_of(s1.logs@, r1->Ok_0.log_path@)->Some_0,
            l,
        ),
{
    let st1 = r1->Ok_0;
    let st2 = r2->Ok_0;
    let b = base_name(note, t1);
    assert(base_name(note, t2) == b);
    let plain = b + json_ext();
    // The plain name holds a record once the first session has started.
    if st1.log_path@ != plain {
        assert(log_of(s0.logs@, plain) is Some);
        if !is_prior_path(s0, plain) {
            assert(log_of(s1.logs@, plain) == log_of(s0.logs@, plain));
        } else {
            let a = s0.active->Some_0;
            match prior_mark(a, t1) {
                Some(mk) => {},
                None => {},
            }
        }
    }
    assert(log_of(s1.logs@, plain) is Some);
    assert(st2.log_path@ == b + seq!['-'] + utc_stamp_of(t2) + json_ext());
    lemma_stamped_names_differ(b, utc_stamp_of(t1), utc_stamp_of(t2));
    assert(st2.log_path@ != st1.log_path@);
    assert(s1.active == Some(st1));
    match prior_mark(st1, t2) {
        Some(mk) => {
            lemma_marked_keeps_description(
                mk,
                log_of(s1.logs@, st1.log_path@)->Some_0,
                log_of(s2.logs@, st1.log_path@)->Some_0,
            );
        },
        None => {},
    }
}

} // verus!
