//! End-to-end engine scenarios: run lifecycle, cancellation, status
//! derivation, and the completion event's consistency with the record store.

use base64::Engine;
use conduit::history::HistoryStore;
use conduit::models::{derive_status, EngineError, RunStatus};
use conduit::output::process_chunk;
use conduit::runner::{
    cancel_script, finish_run, is_script_running, register_process, resize_script_pty,
    run_script_begin, write_script_input, RunnerState,
};
use conduit::transcript::Transcript;

fn start_run(runner: &mut RunnerState, history: &mut HistoryStore, script_id: i64) -> i64 {
    let rid = run_script_begin(runner, history, script_id, "2024-05-01 10:00:00").unwrap();
    register_process(runner, script_id, 4242, 80, 24).unwrap();
    rid
}

#[test]
fn hello_run_finalizes_to_success() {
    let mut runner = RunnerState::new();
    let mut history = HistoryStore::new();
    let rid = start_run(&mut runner, &mut history, 7);
    assert!(is_script_running(&runner, 7));

    let mut transcript = Transcript::new();
    let ev = process_chunk(7, b"hello\n", &mut transcript);
    assert_eq!(ev.script_id, 7);
    let decoded = base64::engine::general_purpose::STANDARD
        .decode(ev.data.as_bytes())
        .unwrap();
    assert_eq!(decoded, b"hello\n");

    let fin = finish_run(
        &mut runner,
        &mut history,
        7,
        rid,
        0,
        "2024-05-01 10:00:01",
        &transcript,
    )
    .unwrap();
    assert_eq!(fin.script_id, 7);
    assert_eq!(fin.exit_code, 0);
    assert_eq!(fin.record_id, rid);
    assert!(!is_script_running(&runner, 7));

    let rec = history.get_latest_run(7).unwrap();
    assert_eq!(rec.id, fin.record_id);
    assert_eq!(rec.exit_code, Some(fin.exit_code));
    assert_eq!(rec.status, RunStatus::Success);
    assert_eq!(rec.output.as_deref(), Some("hello\n"));
    assert_eq!(rec.finished_at.as_deref(), Some("2024-05-01 10:00:01"));
}

#[test]
fn second_start_for_same_script_is_rejected() {
    let mut runner = RunnerState::new();
    let mut history = HistoryStore::new();
    let _rid = start_run(&mut runner, &mut history, 3);

    // Rejected before any record is created.
    let err = run_script_begin(&runner, &mut history, 3, "2024-05-01 10:00:02").unwrap_err();
    assert_eq!(err, EngineError::AlreadyRunning);
    assert_eq!(history.get_run_history(3, 50).len(), 1);

    // A second registration for the same script also fails atomically.
    let err = register_process(&mut runner, 3, 777, 80, 24).unwrap_err();
    assert_eq!(err, EngineError::AlreadyRunning);

    // A different script proceeds concurrently.
    let _other = start_run(&mut runner, &mut history, 4);
    assert!(is_script_running(&runner, 3));
    assert!(is_script_running(&runner, 4));
}

#[test]
fn cancel_of_non_running_script_fails_without_side_effect() {
    let mut runner = RunnerState::new();
    let err = cancel_script(&mut runner, 9).unwrap_err();
    assert_eq!(err, EngineError::NotRunning);
    assert_eq!(err.message(), "Script is not running");
    assert!(!is_script_running(&runner, 9));

    // No cancellation intent was left behind: a later run of the same
    // script that exits nonzero finalizes to error, not cancelled.
    let mut history = HistoryStore::new();
    let rid = start_run(&mut runner, &mut history, 9);
    let transcript = Transcript::new();
    let _ = finish_run(
        &mut runner,
        &mut history,
        9,
        rid,
        1,
        "2024-05-01 10:00:03",
        &transcript,
    )
    .unwrap();
    assert_eq!(history.get_latest_run(9).unwrap().status, RunStatus::Error);
}

#[test]
fn exit_zero_finalizes_to_success_even_after_cancel() {
    let mut runner = RunnerState::new();
    let mut history = HistoryStore::new();
    let rid = start_run(&mut runner, &mut history, 5);
    let pid = cancel_script(&mut runner, 5).unwrap();
    assert_eq!(pid, 4242);

    let transcript = Transcript::new();
    let fin = finish_run(
        &mut runner,
        &mut history,
        5,
        rid,
        0,
        "2024-05-01 10:00:04",
        &transcript,
    )
    .unwrap();
    assert_eq!(fin.exit_code, 0);
    assert_eq!(history.get_latest_run(5).unwrap().status, RunStatus::Success);
}

#[test]
fn cancelled_script_with_nonzero_exit_finalizes_to_cancelled() {
    let mut runner = RunnerState::new();
    let mut history = HistoryStore::new();
    let rid = start_run(&mut runner, &mut history, 6);
    cancel_script(&mut runner, 6).unwrap();

    let transcript = Transcript::new();
    let fin = finish_run(
        &mut runner,
        &mut history,
        6,
        rid,
        143,
        "2024-05-01 10:00:05",
        &transcript,
    )
    .unwrap();
    assert_eq!(fin.exit_code, 143);
    let rec = history.get_latest_run(6).unwrap();
    assert_eq!(rec.status, RunStatus::Cancelled);
    assert_eq!(rec.exit_code, Some(143));
}

#[test]
fn nonzero_exit_without_cancellation_finalizes_to_error() {
    let mut runner = RunnerState::new();
    let mut history = HistoryStore::new();
    let rid = start_run(&mut runner, &mut history, 8);
    let transcript = Transcript::new();
    finish_run(
        &mut runner,
        &mut history,
        8,
        rid,
        2,
        "2024-05-01 10:00:06",
        &transcript,
    )
    .unwrap();
    assert_eq!(history.get_latest_run(8).unwrap().status, RunStatus::Error);
}

#[test]
fn cancellation_intent_is_consumed_exactly_once() {
    let mut runner = RunnerState::new();
    let mut history = HistoryStore::new();
    let rid = start_run(&mut runner, &mut history, 11);
    cancel_script(&mut runner, 11).unwrap();
    let transcript = Transcript::new();
    finish_run(
        &mut runner,
        &mut history,
        11,
        rid,
        1,
        "2024-05-01 10:00:07",
        &transcript,
    )
    .unwrap();
    assert_eq!(history.get_latest_run(11).unwrap().status, RunStatus::Cancelled);

    // The intent was consumed: the next run of the same script is unaffected.
    let rid2 = start_run(&mut runner, &mut history, 11);
    finish_run(
        &mut runner,
        &mut history,
        11,
        rid2,
        1,
        "2024-05-01 10:00:08",
        &transcript,
    )
    .unwrap();
    assert_eq!(history.get_latest_run(11).unwrap().status, RunStatus::Error);
}

#[test]
fn finished_event_matches_finalized_record_exactly() {
    let mut runner = RunnerState::new();
    let mut history = HistoryStore::new();
    let rid = start_run(&mut runner, &mut history, 12);
    let transcript = Transcript::new();
    let fin = finish_run(
        &mut runner,
        &mut history,
        12,
        rid,
        17,
        "2024-05-01 10:00:09",
        &transcript,
    )
    .unwrap();

    // Querying history right after the event sees the finalized record.
    let rec = history.get_latest_run(12).unwrap();
    assert_eq!(rec.id, fin.record_id);
    assert_eq!(rec.exit_code, Some(fin.exit_code));
    assert_ne!(rec.status, RunStatus::Running);

    // Finalization happens exactly once: a second attempt fails and
    // changes nothing.
    let err = finish_run(
        &mut runner,
        &mut history,
        12,
        rid,
        0,
        "2024-05-01 10:00:10",
        &transcript,
    )
    .unwrap_err();
    assert_eq!(err, EngineError::AlreadyFinalized);
    assert_eq!(history.get_latest_run(12).unwrap().exit_code, Some(17));
}

#[test]
fn write_input_requires_an_active_script() {
    let mut runner = RunnerState::new();
    let err = write_script_input(&mut runner, 2, "ls\n").unwrap_err();
    assert_eq!(err, EngineError::NotRunning);
    assert_eq!(err.message(), "Script is not running");

    let mut history = HistoryStore::new();
    start_run(&mut runner, &mut history, 2);
    write_script_input(&mut runner, 2, "ls\n").unwrap();
    write_script_input(&mut runner, 2, "exit\n").unwrap();
}

#[test]
fn resize_requires_an_active_script_and_keeps_it_running() {
    let mut runner = RunnerState::new();
    let err = resize_script_pty(&mut runner, 2, 120, 40).unwrap_err();
    assert_eq!(err, EngineError::NotRunning);

    let mut history = HistoryStore::new();
    start_run(&mut runner, &mut history, 2);
    resize_script_pty(&mut runner, 2, 120, 40).unwrap();
    assert!(is_script_running(&runner, 2));
    write_script_input(&mut runner, 2, "still alive\n").unwrap();
}

#[test]
fn spawn_failure_leaves_no_record_running() {
    let runner = RunnerState::new();
    let mut history = HistoryStore::new();
    let rid = run_script_begin(&runner, &mut history, 20, "2024-05-01 10:00:11").unwrap();
    // The spawn failed: nothing was registered; the record is finalized to
    // error instead of lingering in the running state.
    history
        .update_run_record(rid, "2024-05-01 10:00:11", None, None, RunStatus::Error)
        .unwrap();
    let rec = history.get_latest_run(20).unwrap();
    assert_ne!(rec.status, RunStatus::Running);
    assert_eq!(rec.status, RunStatus::Error);
    assert!(!is_script_running(&runner, 20));
}

#[test]
fn derive_status_covers_all_combinations() {
    assert_eq!(derive_status(0, false), RunStatus::Success);
    assert_eq!(derive_status(0, true), RunStatus::Success);
    assert_eq!(derive_status(1, true), RunStatus::Cancelled);
    assert_eq!(derive_status(-1, true), RunStatus::Cancelled);
    assert_eq!(derive_status(1, false), RunStatus::Error);
    assert_eq!(derive_status(-1, false), RunStatus::Error);
}

#[test]
fn status_labels_match_persisted_names() {
    assert_eq!(RunStatus::Running.label(), "running");
    assert_eq!(RunStatus::Success.label(), "success");
    assert_eq!(RunStatus::Error.label(), "error");
    assert_eq!(RunStatus::Cancelled.label(), "cancelled");
}
