use pomodoro_cli::{
    current_status, finalize_completed_session, initialize_session_log, mark_log_canceled,
    mark_log_completed, resolve_session_log_path, sanitize_filename, session_tick, start_timer,
    stop_timer, LogFile, PomodoroError, PomodoroState, SessionOutcome, SessionStore, Status, Tick,
};

fn empty_store() -> SessionStore {
    SessionStore { active: None, logs: Vec::new() }
}

fn log_named<'a>(store: &'a SessionStore, name: &str) -> &'a LogFile {
    store.logs.iter().find(|l| l.name == name).expect("record present")
}

#[test]
fn scenario_start_status_completion() {
    let mut store = empty_store();
    let s = start_timer(&mut store, 1000, 1, None, false).unwrap();
    assert_eq!(s.start_unix, 1000);
    assert_eq!(s.end_unix, 1060);
    assert_eq!(s.log_path, "19700101T001640Z.json");
    assert_eq!(
        current_status(&mut store, 1059).unwrap(),
        Status::Running { elapsed_secs: 59, remaining_secs: 1 }
    );
    assert_eq!(
        current_status(&mut store, 1060).unwrap(),
        Status::Completed { over_secs: 0, just_logged: true }
    );
    assert!(log_named(&store, "19700101T001640Z.json").log.completed);
    assert_eq!(
        current_status(&mut store, 1060).unwrap(),
        Status::Completed { over_secs: 0, just_logged: false }
    );
}

#[test]
fn scenario_second_start_refused() {
    let mut store = empty_store();
    start_timer(&mut store, 0, 5, None, false).unwrap();
    match start_timer(&mut store, 10, 1, None, false) {
        Err(PomodoroError::ActiveSessionRunning { remaining_secs }) => assert_eq!(remaining_secs, 290),
        other => panic!("unexpected {:?}", other),
    }
    assert_eq!(store.logs.len(), 1);
    assert_eq!(store.active.as_ref().unwrap().end_unix, 300);
}

#[test]
fn scenario_stop_without_session() {
    let mut store = empty_store();
    stop_timer(&mut store, 500).unwrap();
    assert!(store.active.is_none());
    assert!(store.logs.is_empty());
}

#[test]
fn zero_minutes_is_invalid() {
    let mut store = empty_store();
    assert!(matches!(
        start_timer(&mut store, 100, 0, None, false),
        Err(PomodoroError::InvalidDuration)
    ));
    assert!(store.logs.is_empty());
}

#[test]
fn force_cancels_running_session() {
    let mut store = empty_store();
    let first = start_timer(&mut store, 0, 5, Some("focus".to_string()), false).unwrap();
    let second = start_timer(&mut store, 60, 2, Some("other".to_string()), true).unwrap();
    let old = log_named(&store, &first.log_path);
    assert!(old.log.canceled);
    assert!(!old.log.completed);
    assert!(old.log.canceled_at.is_some());
    assert_eq!(second.start_unix, 60);
    assert_eq!(second.end_unix, 180);
    assert_eq!(second.minutes, 2);
    assert_eq!(store.active.as_ref().unwrap().log_path, "other.json");
}

#[test]
fn start_after_expiry_finalizes_prior() {
    let mut store = empty_store();
    let first = start_timer(&mut store, 0, 1, Some("a".to_string()), false).unwrap();
    start_timer(&mut store, 120, 1, Some("b".to_string()), false).unwrap();
    let old = log_named(&store, &first.log_path);
    assert!(old.log.completed);
    assert!(!old.log.canceled);
}

#[test]
fn same_note_gets_distinct_names() {
    let mut store = empty_store();
    let first = start_timer(&mut store, 0, 1, Some("deep work".to_string()), false).unwrap();
    assert_eq!(first.log_path, "deep_work.json");
    let second = start_timer(&mut store, 3600, 1, Some("deep work".to_string()), false).unwrap();
    assert_eq!(second.log_path, "deep_work-19700101T010000Z.json");
    assert_eq!(store.logs.len(), 2);
    let kept = log_named(&store, "deep_work.json");
    assert_eq!(kept.log.minutes, 1);
    assert!(kept.log.completed);
}

#[test]
fn sanitize_keeps_allowed_characters() {
    assert_eq!(sanitize_filename("a-b_c.d"), "a-b_c.d");
    assert_eq!(sanitize_filename("a b/c:d"), "a_b_c_d");
    assert_eq!(sanitize_filename("café"), "café");
    assert_eq!(sanitize_filename(""), "");
}

#[test]
fn resolve_uses_stamp_for_empty_note() {
    let logs: Vec<LogFile> = Vec::new();
    assert_eq!(resolve_session_log_path(&logs, &Some(String::new()), 0), "19700101T000000Z.json");
    assert_eq!(resolve_session_log_path(&logs, &None, 86400), "19700102T000000Z.json");
}

#[test]
fn resolve_appends_stamp_on_collision() {
    let mut logs: Vec<LogFile> = Vec::new();
    initialize_session_log(&mut logs, "x.json".to_string(), 3, &None, 0, 180);
    assert_eq!(
        resolve_session_log_path(&logs, &Some("x".to_string()), 60),
        "x-19700101T000100Z.json"
    );
}

#[test]
fn marks_are_idempotent_and_exclusive() {
    let mut logs: Vec<LogFile> = Vec::new();
    let name = "n.json".to_string();
    initialize_session_log(&mut logs, name.clone(), 3, &Some("n".to_string()), 0, 180);
    assert!(!logs[0].log.completed && !logs[0].log.canceled);
    mark_log_completed(&mut logs, &name, 200).unwrap();
    assert!(logs[0].log.completed && !logs[0].log.canceled);
    let stamp = logs[0].log.completed_at.clone();
    mark_log_completed(&mut logs, &name, 300).unwrap();
    assert_eq!(logs[0].log.completed_at, stamp);
    mark_log_canceled(&mut logs, &name, 400).unwrap();
    assert!(!logs[0].log.completed && logs[0].log.canceled);
    assert!(logs[0].log.completed_at.is_none());
    assert_eq!(logs.len(), 1);
}

#[test]
fn mark_missing_record_is_io_error() {
    let mut logs: Vec<LogFile> = Vec::new();
    match mark_log_completed(&mut logs, &"gone.json".to_string(), 10) {
        Err(PomodoroError::Io(n)) => assert_eq!(n, "gone.json"),
        other => panic!("unexpected {:?}", other),
    }
    assert!(mark_log_canceled(&mut logs, &"gone.json".to_string(), 10).is_err());
}

#[test]
fn finalize_logged_session_changes_nothing() {
    let mut store = empty_store();
    let mut s = start_timer(&mut store, 0, 1, None, false).unwrap();
    assert_eq!(finalize_completed_session(&mut store, &mut s, 30).unwrap(), false);
    assert_eq!(finalize_completed_session(&mut store, &mut s, 60).unwrap(), true);
    assert!(s.completed_logged);
    let before = format!("{:?}", store);
    assert_eq!(finalize_completed_session(&mut store, &mut s, 90).unwrap(), false);
    assert_eq!(format!("{:?}", store), before);
}

#[test]
fn stop_running_session_cancels() {
    let mut store = empty_store();
    let s = start_timer(&mut store, 0, 5, None, false).unwrap();
    stop_timer(&mut store, 100).unwrap();
    assert!(store.active.is_none());
    assert!(log_named(&store, &s.log_path).log.canceled);
}

#[test]
fn stop_ended_session_completes() {
    let mut store = empty_store();
    let s = start_timer(&mut store, 0, 1, None, false).unwrap();
    stop_timer(&mut store, 100).unwrap();
    assert!(store.active.is_none());
    let l = &log_named(&store, &s.log_path).log;
    assert!(l.completed && !l.canceled);
}

#[test]
fn status_without_session() {
    let mut store = empty_store();
    assert_eq!(current_status(&mut store, 5).unwrap(), Status::NoActive);
}

#[test]
fn status_with_missing_record_is_io_error() {
    let mut store = empty_store();
    store.active = Some(PomodoroState {
        start_unix: 0,
        end_unix: 60,
        minutes: 1,
        note: None,
        log_path: "lost.json".to_string(),
        completed_logged: false,
    });
    assert!(matches!(current_status(&mut store, 61), Err(PomodoroError::Io(_))));
    assert!(store.active.is_some());
}

#[test]
fn tick_continues_then_completes() {
    let mut store = empty_store();
    let mut s = start_timer(&mut store, 0, 1, None, false).unwrap();
    assert_eq!(
        session_tick(&mut store, &mut s, 10, false).unwrap(),
        Tick::Continue { remaining_secs: 50 }
    );
    assert_eq!(
        session_tick(&mut store, &mut s, 60, false).unwrap(),
        Tick::Done { outcome: SessionOutcome::Completed, remaining_secs: 0 }
    );
    assert!(store.active.is_none());
    assert!(log_named(&store, &s.log_path).log.completed);
}

#[test]
fn tick_cancel_marks_canceled() {
    let mut store = empty_store();
    let mut s = start_timer(&mut store, 0, 2, None, false).unwrap();
    assert_eq!(
        session_tick(&mut store, &mut s, 30, true).unwrap(),
        Tick::Done { outcome: SessionOutcome::Canceled, remaining_secs: 90 }
    );
    assert!(store.active.is_none());
    assert!(log_named(&store, &s.log_path).log.canceled);
}

#[test]
fn validity_of_sessions() {
    let good = PomodoroState {
        start_unix: 10,
        end_unix: 130,
        minutes: 2,
        note: None,
        log_path: "a.json".to_string(),
        completed_logged: false,
    };
    assert!(good.is_valid());
    assert!(good.is_complete_at(130));
    assert!(!good.is_complete_at(129));
    let bad = PomodoroState { end_unix: 100, ..good };
    assert!(!bad.is_valid());
}
