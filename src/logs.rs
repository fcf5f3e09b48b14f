//! The session records: lookup by name, creation, and the two idempotent
//! terminal marks.

use crate::clock::{local_stamp, MAX_UNIX};
use crate::types::{copy_note, LogFile, PomodoroError, SessionLog};
use vstd::prelude::*;

verus! {

/// The record stored under `name`: its first occurrence, if any.
pub open spec fn log_of(logs: Seq<LogFile>, name: Seq<char>) -> Option<SessionLog>
    decreases logs.len(),
{
    if logs.len() == 0 {
        None
    } else if logs[0].name@ == name {
        Some(logs[0].log)
    } else {
        log_of(logs.drop_first(), name)
    }
}

/// `i` is the position of the first record stored under `name`.
pub open spec fn first_at(logs: Seq<LogFile>, name: Seq<char>, i: int) -> bool {
    &&& 0 <= i < logs.len()
    &&& logs[i].name@ == name
    &&& forall|j: int| 0 <= j < i ==> logs[j].name@ != name
}

/// Every name other than `name` denotes the same record in `a` and `b`.
pub open spec fn same_except(a: Seq<LogFile>, b: Seq<LogFile>, name: Seq<char>) -> bool {
    forall|m: Seq<char>| m != name ==> #[trigger] log_of(b, m) == log_of(a, m)
}

/// A new record: the given description and neither outcome.
pub open spec fn is_fresh(l: SessionLog, minutes: u64, note: Option<String>) -> bool {
    &&& l.minutes == minutes
    &&& l.note == note
    &&& !l.completed
    &&& l.completed_at is None
    &&& !l.canceled
    &&& l.canceled_at is None
}

/// `b` and `a` have the same description fields.
pub open spec fn same_description(a: SessionLog, b: SessionLog) -> bool {
    &&& b.minutes == a.minutes
    &&& b.note == a.note
    &&& b.started_at == a.started_at
    &&& b.ends_at == a.ends_at
}

/// `b` is `a` marked completed: unchanged if `a` already was, else completed
/// with a time and with the cancellation cleared.
pub open spec fn completion_of(a: SessionLog, b: SessionLog) -> bool {
    if a.completed {
        b == a
    } else {
        &&& same_description(a, b)
        &&& b.completed
        &&& b.completed_at is Some
        &&& !b.canceled
        &&& b.canceled_at is None
    }
}

/// `b` is `a` marked canceled: unchanged if `a` already was, else canceled
/// with a time and with the completion cleared.
pub open spec fn cancellation_of(a: SessionLog, b: SessionLog) -> bool {
    if a.canceled {
        b == a
    } else {
        &&& same_description(a, b)
        &&& b.canceled
        &&& b.canceled_at is Some
        &&& !b.completed
        &&& b.completed_at is None
    }
}

/// One terminal mark applied to a record.
pub enum LogMark {
    Completed,
    Canceled,
}

/// `b` is `a` after the single mark `m`.
pub open spec fn marked(m: LogMark, a: SessionLog, b: SessionLog) -> bool {
    match m {
        LogMark::Completed => completion_of(a, b),
        LogMark::Canceled => cancellation_of(a, b),
    }
}

/// `steps` are the records that a sequence of marks `ms` passes through:
/// `steps[0]` before the first mark, `steps[i + 1]` after mark `i`.
pub open spec fn apply_marks(ms: Seq<LogMark>, steps: Seq<SessionLog>) -> bool {
    &&& steps.len() == ms.len() + 1
    &&& forall|i: int| 0 <= i < ms.len() ==> marked(ms[i], steps[i], #[trigger] steps[i + 1])
}

/// The terminal flags exclude each other: a record that does not hold both
/// outcomes never comes to hold both, whatever sequence of completion and
/// cancellation marks is applied to it.
pub proof fn lemma_terminal_flags_exclusive(ms: Seq<LogMark>, steps: Seq<SessionLog>)
    requires
        apply_marks(ms, steps),
        !(steps[0].completed && steps[0].canceled),
    ensures
        forall|i: int| 0 <= i < steps.len() ==> !(#[trigger] steps[i].completed && steps[i].canceled),
{
    assert forall|i: int| 0 <= i < steps.len() implies !(#[trigger] steps[i].completed
        && steps[i].canceled) by {
        lemma_exclusive_upto(ms, steps, i);
    }
}

proof fn lemma_exclusive_upto(ms: Seq<LogMark>, steps: Seq<SessionLog>, i: int)
    requires
        apply_marks(ms, steps),
        !(steps[0].completed && steps[0].canceled),
        0 <= i < steps.len(),
    ensures
        !(steps[i].completed && steps[i].canceled),
    decreases i,
{
    if i > 0 {
        lemma_exclusive_upto(ms, steps, i - 1);
        assert(marked(ms[i - 1], steps[i - 1], steps[(i - 1) + 1]));
    }
}

proof fn lemma_log_of_first(logs: Seq<LogFile>, name: Seq<char>, i: int)
    requires
        first_at(logs, name, i),
    ensures
        log_of(logs, name) == Some(logs[i].log),
    decreases i,
{
    if i > 0 {
        assert(logs[0].name@ != name);
        lemma_log_of_first(logs.drop_first(), name, i - 1);
    }
}

proof fn lemma_log_of_absent(logs: Seq<LogFile>, name: Seq<char>)
    requires
        forall|j: int| 0 <= j < logs.len() ==> logs[j].name@ != name,
    ensures
        log_of(logs, name) is None,
    decreases logs.len(),
{
    if logs.len() > 0 {
        lemma_log_of_absent(logs.drop_first(), name);
    }
}

/// Replacing the first record under `name` changes what `name` denotes and
/// nothing else.
proof fn lemma_log_of_update(logs: Seq<LogFile>, name: Seq<char>, i: int, e: LogFile, m: Seq<char>)
    requires
        first_at(logs, name, i),
        e.name@ == name,
    ensures
        log_of(logs.update(i, e), m) == if m == name {
            Some(e.log)
        } else {
            log_of(logs, m)
        },
    decreases i,
{
    let u = logs.update(i, e);
    if i == 0 {
        assert(u.drop_first() =~= logs.drop_first());
    } else {
        assert(u.drop_first() =~= logs.drop_first().update(i - 1, e));
        lemma_log_of_update(logs.drop_first(), name, i - 1, e, m);
    }
}

/// Appending a record under a name that is not present.
proof fn lemma_log_of_push(logs: Seq<LogFile>, e: LogFile, m: Seq<char>)
    requires
        log_of(logs, e.name@) is None,
    ensures
        log_of(logs.push(e), m) == if m == e.name@ {
            Some(e.log)
        } else {
            log_of(logs, m)
        },
    decreases logs.len(),
{
    let p = logs.push(e);
    if logs.len() > 0 {
        assert(p[0] == logs[0]);
        assert(p.drop_first() =~= logs.drop_first().push(e));
        lemma_log_of_push(logs.drop_first(), e, m);
    } else {
        assert(p.drop_first() =~= Seq::<LogFile>::empty());
        assert(log_of(p.drop_first(), m) is None);
    }
}

/// The position of the first record stored under `name`.
pub fn find_log(logs: &Vec<LogFile>, name: &String) -> (r: Option<usize>)
    ensures
        match r {
            Some(i) => first_at(logs@, name@, i as int) && log_of(logs@, name@) == Some(
                logs@[i as int].log,
            ),
            None => log_of(logs@, name@) is None,
        },
{
    let mut i: usize = 0;
    while i < logs.len()
        invariant
            i <= logs.len(),
            forall|j: int| 0 <= j < i ==> logs@[j].name@ != name@,
        decreases logs.len() - i,
    {
        if logs[i].name == *name {
            proof {
                lemma_log_of_first(logs@, name@, i as int);
            }
            return Some(i);
        }
        i = i + 1;
    }
    proof {
        lemma_log_of_absent(logs@, name@);
    }
    None
}

/// Stores `e` under its name: it replaces the record there, if any, or is
/// added.
fn put_log(logs: &mut Vec<LogFile>, e: LogFile)
    ensures
        log_of(final(logs)@, e.name@) == Some(e.log),
        same_except(old(logs)@, final(logs)@, e.name@),
{
    let ghost e_spec = e;
    match find_log(logs, &e.name) {
        Some(i) => {
            proof {
                assert forall|m: Seq<char>| true implies log_of(logs@.update(i as int, e_spec), m)
                    == (if m == e_spec.name@ {
                    Some(e_spec.log)
                } else {
                    log_of(logs@, m)
                }) by {
                    lemma_log_of_update(logs@, e_spec.name@, i as int, e_spec, m);
                }
            }
            logs.set(i, e);
        },
        None => {
            proof {
                assert forall|m: Seq<char>| true implies log_of(logs@.push(e_spec), m) == (if m
                    == e_spec.name@ {
                    Some(e_spec.log)
                } else {
                    log_of(logs@, m)
                }) by {
                    lemma_log_of_push(logs@, e_spec, m);
                }
            }
            logs.push(e);
        },
    }
}

/// Creates the record of a new session under `name`, with neither outcome,
/// replacing any record stored there.
pub fn initialize_session_log(
    logs: &mut Vec<LogFile>,
    name: String,
    minutes: u64,
    note: &Option<String>,
    start_unix: i64,
    end_unix: i64,
)
    requires
        0 <= start_unix <= MAX_UNIX,
        0 <= end_unix <= MAX_UNIX,
    ensures
        log_of(final(logs)@, name@) matches Some(l) && is_fresh(l, minutes, *note),
        same_except(old(logs)@, final(logs)@, name@),
{
    let log = SessionLog {
        minutes,
        note: copy_note(note),
        started_at: local_stamp(start_unix),
        ends_at: local_stamp(end_unix),
        completed: false,
        completed_at: None,
        canceled: false,
        canceled_at: None,
    };
    put_log(logs, LogFile { name, log });
}

fn missing_log(name: &String) -> (r: PomodoroError)
    ensures
        r matches PomodoroError::Io(n) && n@ == name@,
{
    PomodoroError::Io(name.clone())
}

/// Marks the record under `name` completed at `at`; a record already
/// completed is left as it is. Fails when no record is stored there.
pub fn mark_log_completed(logs: &mut Vec<LogFile>, name: &String, at: i64) -> (r: Result<
    (),
    PomodoroError,
>)
    requires
        0 <= at <= MAX_UNIX,
    ensures
        r is Ok <==> log_of(old(logs)@, name@) is Some,
        r matches Err(e) ==> e matches PomodoroError::Io(n) && n@ == name@,
        r is Err ==> final(logs)@ == old(logs)@,
        r is Ok ==> {
            &&& log_of(final(logs)@, name@) matches Some(l) && completion_of(
                log_of(old(logs)@, name@)->Some_0,
                l,
            )
            &&& same_except(old(logs)@, final(logs)@, name@)
        },
{
    match find_log(logs, name) {
        None => Err(missing_log(name)),
        Some(i) => {
            let cur = &logs[i].log;
            if cur.completed {
                return Ok(());
            }
            let log = SessionLog {
                minutes: cur.minutes,
                note: copy_note(&cur.note),
                started_at: cur.started_at.clone(),
                ends_at: cur.ends_at.clone(),
                completed: true,
                completed_at: Some(local_stamp(at)),
                canceled: false,
                canceled_at: None,
            };
            let entry = LogFile { name: logs[i].name.clone(), log };
            put_log(logs, entry);
            Ok(())
        },
    }
}

/// Marks the record under `name` canceled at `at`; a record already
/// canceled is left as it is. Fails when no record is stored there.
pub fn mark_log_canceled(logs: &mut Vec<LogFile>, name: &String, at: i64) -> (r: Result<
    (),
    PomodoroError,
>)
    requires
        0 <= at <= MAX_UNIX,
    ensures
        r is Ok <==> log_of(old(logs)@, name@) is Some,
        r matches Err(e) ==> e matches PomodoroError::Io(n) && n@ == name@,
        r is Err ==> final(logs)@ == old(logs)@,
        r is Ok ==> {
            &&& log_of(final(logs)@, name@) matches Some(l) && cancellation_of(
                log_of(old(logs)@, name@)->Some_0,
                l,
            )
            &&& same_except(old(logs)@, final(logs)@, name@)
        },
{
    match find_log(logs, name) {
        None => Err(missing_log(name)),
        Some(i) => {
            let cur = &logs[i].log;
            if cur.canceled {
                return Ok(());
            }
            let log = SessionLog {
                minutes: cur.minutes,
                note: copy_note(&cur.note),
                started_at: cur.started_at.clone(),
                ends_at: cur.ends_at.clone(),
                completed: false,
                completed_at: None,
                canceled: true,
                canceled_at: Some(local_stamp(at)),
            };
            let entry = LogFile { name: logs[i].name.clone(), log };
            put_log(logs, entry);
            Ok(())
        },
    }
}

} // verus!
