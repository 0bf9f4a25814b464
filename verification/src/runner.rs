//! The run engine: registry of active processes, cancellation set, and the
//! lifecycle operations that start, steer and finalize runs.
//!
//! The engine is sequential; the caller guards it with its own short-lived
//! critical sections and performs the outside work (spawning, pseudo-terminal
//! I/O, signalling, persistence mirroring) that its operations direct.
//! At most one run is active per script identifier: a second start is
//! rejected before any spawn is attempted. A run record is finalized exactly
//! once, with the cancellation intent consumed at that moment; the completion
//! event returned by finalization carries exactly the finalized record's
//! exit code and identifier.

use vstd::prelude::*;

verus! {

broadcast use vstd::std_specs::hash::group_hash_axioms;

use std::collections::HashMap;
use std::collections::HashSet;
use vstd::string::StringSliceAdditionalSpecFns;
use vstd::utf8::encode_utf8;
use crate::history::HistoryStore;
use crate::models::{derive_status, spec_status, EngineError, RunStatus};
use crate::transcript::Transcript;

/// In-memory handle to one running child process, owned by the registry.
/// Beyond the process identifier it tracks the terminal dimensions last
/// handed to the child and, as ghost state, every input byte forwarded so
/// far, in submission order.
#[derive(Clone, Copy)]
pub struct PtyProcess {
    pub child_pid: u32,
    pub cols: u16,
    pub rows: u16,
    pub input: Ghost<Seq<u8>>,
}

/// Shared engine state: the registry of active process handles (at most one
/// per script identifier) and the set of script identifiers whose
/// cancellation was requested but not yet consumed.
pub struct RunnerState {
    pub active_processes: HashMap<i64, PtyProcess>,
    pub cancelled_scripts: HashSet<i64>,
}

/// The completion notification of a run, emitted exactly once, only after
/// the run record was finalized.
#[derive(Debug)]
pub struct ScriptFinishedEvent {
    pub script_id: i64,
    pub exit_code: i32,
    pub record_id: i64,
}

impl RunnerState {
    pub fn new() -> (r: Self)
        ensures
            r.active_processes@ == Map::<i64, PtyProcess>::empty(),
            r.cancelled_scripts@ == Set::<i64>::empty(),
    {
        RunnerState { active_processes: HashMap::new(), cancelled_scripts: HashSet::new() }
    }
}

/// Whether a run for `script_id` is currently active.
pub fn is_script_running(runner: &RunnerState, script_id: i64) -> (r: bool)
    ensures
        r == runner.active_processes@.contains_key(script_id),
{
    runner.active_processes.contains_key(&script_id)
}

/// Begin a run for `script_id`: reject it when a run is already active —
/// before any record is created or spawn attempted — and otherwise create
/// the `Running` record, returning its identifier.
pub fn run_script_begin(
    runner: &RunnerState,
    history: &mut HistoryStore,
    script_id: i64,
    started_at: &str,
) -> (r: Result<i64, EngineError>)
    requires
        old(history).wf(),
    ensures
        final(history).wf(),
        match r {
            Ok(record_id) => {
                &&& !runner.active_processes@.contains_key(script_id)
                &&& record_id == old(history).spec_next_id()
                &&& final(history)@.len() == old(history)@.len() + 1
                &&& final(history)@.subrange(0, old(history)@.len() as int) == old(history)@
                &&& final(history)@.last().id == record_id
                &&& final(history)@.last().script_id == script_id
                &&& final(history)@.last().started_at@ == started_at@
                &&& final(history)@.last().status == RunStatus::Running
                &&& final(history)@.last().finished_at is None
                &&& final(history)@.last().exit_code is None
                &&& final(history)@.last().output is None
            },
            Err(e) => {
                &&& *final(history) == *old(history)
                &&& (e == EngineError::AlreadyRunning <==> runner.active_processes@.contains_key(
                    script_id,
                ))
                &&& (e == EngineError::StoreFull <==> !runner.active_processes@.contains_key(
                    script_id,
                ) && old(history).spec_next_id() == i64::MAX)
            },
        },
        r is Ok <==> (!runner.active_processes@.contains_key(script_id) && old(
            history,
        ).spec_next_id() < i64::MAX),
{
    if runner.active_processes.contains_key(&script_id) {
        return Err(EngineError::AlreadyRunning);
    }
    match history.insert_run_record(script_id, started_at) {
        Ok(rec) => {
            proof {
                assert(history@.subrange(0, old(history)@.len() as int) =~= old(history)@);
            }
            Ok(rec.id)
        },
        Err(e) => Err(e),
    }
}

/// Register the handle of a freshly spawned child for `script_id`. The check
/// and the insertion are one atomic step: registration fails, changing
/// nothing, when a handle already exists.
pub fn register_process(
    runner: &mut RunnerState,
    script_id: i64,
    child_pid: u32,
    cols: u16,
    rows: u16,
) -> (r: Result<(), EngineError>)
    ensures
        final(runner).cancelled_scripts@ == old(runner).cancelled_scripts@,
        match r {
            Ok(()) => {
                &&& !old(runner).active_processes@.contains_key(script_id)
                &&& final(runner).active_processes@ == old(runner).active_processes@.insert(
                    script_id,
                    (PtyProcess { child_pid, cols, rows, input: Ghost(Seq::<u8>::empty()) }),
                )
            },
            Err(e) => {
                &&& e == EngineError::AlreadyRunning
                &&& old(runner).active_processes@.contains_key(script_id)
                &&& *final(runner) == *old(runner)
            },
        },
        r is Ok <==> !old(runner).active_processes@.contains_key(script_id),
{
    if runner.active_processes.contains_key(&script_id) {
        return Err(EngineError::AlreadyRunning);
    }
    let handle = PtyProcess { child_pid, cols, rows, input: Ghost(Seq::<u8>::empty()) };
    runner.active_processes.insert(script_id, handle);
    Ok(())
}

/// Forward input to the child of `script_id`. Fails with "not running" when
/// no handle is registered; otherwise the handle's input log grows by
/// exactly the given bytes, at its end — bytes reach the child in
/// submission order.
pub fn write_script_input(runner: &mut RunnerState, script_id: i64, data: &str) -> (r: Result<
    (),
    EngineError,
>)
    ensures
        final(runner).cancelled_scripts@ == old(runner).cancelled_scripts@,
        match r {
            Ok(()) => {
                &&& old(runner).active_processes@.contains_key(script_id)
                &&& ({
                    let h = old(runner).active_processes@[script_id];
                    final(runner).active_processes@ == old(runner).active_processes@.insert(
                        script_id,
                        (PtyProcess {
                            child_pid: h.child_pid,
                            cols: h.cols,
                            rows: h.rows,
                            input: Ghost(h.input@ + data.spec_bytes()),
                        }),
                    )
                })
            },
            Err(e) => {
                &&& e == EngineError::NotRunning
                &&& !old(runner).active_processes@.contains_key(script_id)
                &&& *final(runner) == *old(runner)
            },
        },
        r is Ok <==> old(runner).active_processes@.contains_key(script_id),
{
    let h = match runner.active_processes.get(&script_id) {
        Some(h) => *h,
        None => {
            return Err(EngineError::NotRunning);
        },
    };
    let updated = PtyProcess {
        child_pid: h.child_pid,
        cols: h.cols,
        rows: h.rows,
        input: Ghost(h.input@ + data.spec_bytes()),
    };
    runner.active_processes.insert(script_id, updated);
    Ok(())
}

/// Change the terminal dimensions of the run for `script_id`. Fails with
/// "not running" when no handle is registered; otherwise only the recorded
/// dimensions change — the process, its input log and every other run are
/// untouched, so the output stream is not interrupted.
pub fn resize_script_pty(runner: &mut RunnerState, script_id: i64, cols: u16, rows: u16) -> (r:
    Result<(), EngineError>)
    ensures
        final(runner).cancelled_scripts@ == old(runner).cancelled_scripts@,
        match r {
            Ok(()) => {
                &&& old(runner).active_processes@.contains_key(script_id)
                &&& ({
                    let h = old(runner).active_processes@[script_id];
                    final(runner).active_processes@ == old(runner).active_processes@.insert(
                        script_id,
                        (PtyProcess {
                            child_pid: h.child_pid,
                            cols,
                            rows,
                            input: h.input,
                        }),
                    )
                })
            },
            Err(e) => {
                &&& e == EngineError::NotRunning
                &&& !old(runner).active_processes@.contains_key(script_id)
                &&& *final(runner) == *old(runner)
            },
        },
        r is Ok <==> old(runner).active_processes@.contains_key(script_id),
{
    let h = match runner.active_processes.get(&script_id) {
        Some(h) => *h,
        None => {
            return Err(EngineError::NotRunning);
        },
    };
    let updated = PtyProcess { child_pid: h.child_pid, cols, rows, input: h.input };
    runner.active_processes.insert(script_id, updated);
    Ok(())
}

/// Request cancellation of the run for `script_id`. Fails with "not
/// running", with no side effect, when no handle is registered. Otherwise
/// the cancellation intent is recorded — before the caller dispatches any
/// termination signal, so the coordinator observes it even under a fast exit
/// race — and the child's process identifier is returned for the caller to
/// signal the whole process group.
pub fn cancel_script(runner: &mut RunnerState, script_id: i64) -> (r: Result<u32, EngineError>)
    ensures
        final(runner).active_processes@ == old(runner).active_processes@,
        match r {
            Ok(pid) => {
                &&& old(runner).active_processes@.contains_key(script_id)
                &&& pid == old(runner).active_processes@[script_id].child_pid
                &&& final(runner).cancelled_scripts@ == old(runner).cancelled_scripts@.insert(
                    script_id,
                )
            },
            Err(e) => {
                &&& e == EngineError::NotRunning
                &&& !old(runner).active_processes@.contains_key(script_id)
                &&& *final(runner) == *old(runner)
            },
        },
        r is Ok <==> old(runner).active_processes@.contains_key(script_id),
{
    let pid = match runner.active_processes.get(&script_id) {
        Some(h) => h.child_pid,
        None => {
            return Err(EngineError::NotRunning);
        },
    };
    runner.cancelled_scripts.insert(script_id);
    Ok(pid)
}

/// Finalize the run for `script_id` whose record is `record_id`, after its
/// exit was observed with `exit_code`. The cancellation intent for the
/// script is consumed exactly here; the final status is derived from the
/// exit code and that intent; the record is finalized exactly once (a second
/// call fails and changes nothing); the handle is deregistered; and the
/// returned completion event matches the finalized record exactly.
pub fn finish_run(
    runner: &mut RunnerState,
    history: &mut HistoryStore,
    script_id: i64,
    record_id: i64,
    exit_code: i32,
    finished_at: &str,
    transcript: &Transcript,
) -> (r: Result<ScriptFinishedEvent, EngineError>)
    requires
        old(history).wf(),
        transcript.wf(),
    ensures
        final(history).wf(),
        match r {
            Ok(ev) => {
                &&& ev.script_id == script_id
                &&& ev.exit_code == exit_code
                &&& ev.record_id == record_id
                &&& final(runner).active_processes@ == old(runner).active_processes@.remove(
                    script_id,
                )
                &&& final(runner).cancelled_scripts@ == old(runner).cancelled_scripts@.remove(
                    script_id,
                )
                &&& final(history)@.len() == old(history)@.len()
                &&& exists|k: int|
                    0 <= k < old(history)@.len() && (#[trigger] old(history)@[k]).id == record_id
                        && old(history)@[k].status == RunStatus::Running
                &&& forall|k: int|
                    0 <= k < old(history)@.len() && (#[trigger] old(history)@[k]).id != record_id
                        ==> final(history)@[k] == old(history)@[k]
                &&& forall|k: int|
                    0 <= k < old(history)@.len() && (#[trigger] old(history)@[k]).id == record_id
                        ==> {
                        let rec = final(history)@[k];
                        &&& rec.id == record_id
                        &&& rec.script_id == old(history)@[k].script_id
                        &&& rec.started_at == old(history)@[k].started_at
                        &&& rec.status == spec_status(
                            exit_code,
                            old(runner).cancelled_scripts@.contains(script_id),
                        )
                        &&& rec.status.is_terminal()
                        &&& rec.exit_code == Some(exit_code)
                        &&& (rec.finished_at matches Some(f) && f@ == finished_at@)
                        &&& (rec.output matches Some(o) && encode_utf8(o@) == transcript@)
                    }
            },
            Err(e) => {
                &&& *final(runner) == *old(runner)
                &&& *final(history) == *old(history)
                &&& (e == EngineError::NoSuchRecord <==> (forall|k: int|
                    0 <= k < old(history)@.len() ==> (#[trigger] old(history)@[k]).id
                        != record_id))
                &&& (e == EngineError::AlreadyFinalized <==> (exists|k: int|
                    0 <= k < old(history)@.len() && (#[trigger] old(history)@[k]).id == record_id
                        && old(history)@[k].status != RunStatus::Running))
            },
        },
        r is Ok <==> (exists|k: int|
            0 <= k < old(history)@.len() && (#[trigger] old(history)@[k]).id == record_id && old(
                history,
            )@[k].status == RunStatus::Running),
{
    match history.record_status(record_id) {
        None => {
            proof {
                lemma_unique_record_ids(old(history)@);
            }
            return Err(EngineError::NoSuchRecord);
        },
        Some(st) => {
            if !matches!(st, RunStatus::Running) {
                proof {
                    lemma_unique_record_ids(old(history)@);
                }
                return Err(EngineError::AlreadyFinalized);
            }
        },
    }
    proof {
        lemma_unique_record_ids(old(history)@);
    }
    let was_cancelled = runner.cancelled_scripts.remove(&script_id);
    let status = derive_status(exit_code, was_cancelled);
    let text = transcript.text();
    let res = history.update_run_record(
        record_id,
        finished_at,
        Some(exit_code),
        Some(text.as_str()),
        status,
    );
    match res {
        Ok(()) => {
            runner.active_processes.remove(&script_id);
            Ok(ScriptFinishedEvent { script_id, exit_code, record_id })
        },
        Err(e) => {
            proof {
                let s = old(history)@;
                crate::models::lemma_derived_status_is_terminal(exit_code, was_cancelled);
                assert(status != RunStatus::Running);
                let k = choose|k: int|
                    0 <= k < s.len() && (#[trigger] s[k]).id == record_id && s[k].status
                        == RunStatus::Running;
                assert(0 <= k < s.len() && s[k].id == record_id && s[k].status
                    == RunStatus::Running);
                if e == EngineError::AlreadyFinalized {
                    let k2 = choose|k2: int|
                        0 <= k2 < s.len() && (#[trigger] s[k2]).id == record_id && s[k2].status
                            != RunStatus::Running;
                    assert(0 <= k2 < s.len() && s[k2].id == record_id && s[k2].status
                        != RunStatus::Running);
                    assert(k == k2);
                }
                assert(false);
            }
            Err(EngineError::NoSuchRecord)
        },
    }
}

/// In a well-formed history the record identifiers are strictly increasing,
/// so two records with the same identifier are the same record.
proof fn lemma_unique_record_ids(s: Seq<crate::models::RunRecord>)
    requires
        forall|i: int, j: int| 0 <= i < j < s.len() ==> s[i].id < s[j].id,
    ensures
        forall|i: int, j: int|
            0 <= i < s.len() && 0 <= j < s.len() && (#[trigger] s[i]).id == (#[trigger] s[j]).id
                ==> i == j,
{
    assert forall|i: int, j: int|
        0 <= i < s.len() && 0 <= j < s.len() && (#[trigger] s[i]).id == (#[trigger] s[j]).id
            implies i == j by {
        if i < j {
            assert(s[i].id < s[j].id);
        } else if j < i {
            assert(s[j].id < s[i].id);
        }
    }
}

} // verus!
