//! History store behavior: record creation, exactly-once finalization,
//! queries and clearing.

use conduit::history::HistoryStore;
use conduit::models::{EngineError, RunStatus};

#[test]
fn records_get_increasing_identifiers() {
    let mut h = HistoryStore::new();
    let a = h.insert_run_record(1, "2024-05-01 09:00:00").unwrap();
    let b = h.insert_run_record(2, "2024-05-01 09:00:01").unwrap();
    let c = h.insert_run_record(1, "2024-05-01 09:00:02").unwrap();
    assert_eq!(a.id, 1);
    assert_eq!(b.id, 2);
    assert_eq!(c.id, 3);
    assert_eq!(a.status, RunStatus::Running);
    assert_eq!(a.exit_code, None);
    assert_eq!(a.finished_at, None);
    assert_eq!(a.output, None);
}

#[test]
fn finalize_sets_all_fields() {
    let mut h = HistoryStore::new();
    let rec = h.insert_run_record(1, "2024-05-01 09:00:00").unwrap();
    h.update_run_record(
        rec.id,
        "2024-05-01 09:00:09",
        Some(0),
        Some("done\n"),
        RunStatus::Success,
    )
    .unwrap();
    let latest = h.get_latest_run(1).unwrap();
    assert_eq!(latest.id, rec.id);
    assert_eq!(latest.finished_at.as_deref(), Some("2024-05-01 09:00:09"));
    assert_eq!(latest.exit_code, Some(0));
    assert_eq!(latest.output.as_deref(), Some("done\n"));
    assert_eq!(latest.status, RunStatus::Success);
    assert_eq!(latest.started_at, "2024-05-01 09:00:00");
}

#[test]
fn finalize_fails_on_missing_or_terminal_records() {
    let mut h = HistoryStore::new();
    let rec = h.insert_run_record(1, "2024-05-01 09:00:00").unwrap();

    let err = h
        .update_run_record(99, "ts", Some(0), None, RunStatus::Success)
        .unwrap_err();
    assert_eq!(err, EngineError::NoSuchRecord);

    let err = h
        .update_run_record(rec.id, "ts", Some(0), None, RunStatus::Running)
        .unwrap_err();
    assert_eq!(err, EngineError::NotTerminalStatus);

    h.update_run_record(rec.id, "ts", Some(1), None, RunStatus::Error)
        .unwrap();
    let err = h
        .update_run_record(rec.id, "ts", Some(0), None, RunStatus::Success)
        .unwrap_err();
    assert_eq!(err, EngineError::AlreadyFinalized);
    // The terminal record was not re-opened or altered.
    assert_eq!(h.get_latest_run(1).unwrap().exit_code, Some(1));
}

#[test]
fn run_history_is_newest_first_and_limited() {
    let mut h = HistoryStore::new();
    for i in 0..5 {
        let rec = h.insert_run_record(1, &format!("2024-05-01 09:00:0{i}")).unwrap();
        h.update_run_record(rec.id, "ts", Some(0), None, RunStatus::Success)
            .unwrap();
    }
    h.insert_run_record(2, "2024-05-01 09:01:00").unwrap();

    let hist = h.get_run_history(1, 3);
    assert_eq!(hist.len(), 3);
    assert_eq!(hist[0].id, 5);
    assert_eq!(hist[1].id, 4);
    assert_eq!(hist[2].id, 3);

    let all = h.get_run_history(1, 50);
    assert_eq!(all.len(), 5);
    assert_eq!(h.get_run_history(3, 50).len(), 0);
    assert_eq!(h.get_run_history(1, 0).len(), 0);
}

#[test]
fn clear_removes_only_one_script() {
    let mut h = HistoryStore::new();
    h.insert_run_record(1, "a").unwrap();
    h.insert_run_record(2, "b").unwrap();
    h.insert_run_record(1, "c").unwrap();
    h.clear_run_history(1);
    assert!(h.get_latest_run(1).is_none());
    let kept = h.get_latest_run(2).unwrap();
    assert_eq!(kept.id, 2);
    // Identifiers keep increasing after a clear.
    let next = h.insert_run_record(1, "d").unwrap();
    assert_eq!(next.id, 4);
}

#[test]
fn latest_run_tracks_the_most_recent_record() {
    let mut h = HistoryStore::new();
    assert!(h.get_latest_run(1).is_none());
    h.insert_run_record(1, "a").unwrap();
    h.insert_run_record(1, "b").unwrap();
    assert_eq!(h.get_latest_run(1).unwrap().started_at, "b");
}
