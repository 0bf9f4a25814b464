//! Data model: scripts, categories, run records, schedules and settings,
//! together with the run status machine and the engine's error type.

use vstd::prelude::*;
use vstd::string::StringExecFns;

verus! {

/// Status of a run record. A record is created `Running` and moves exactly
/// once to one of the three terminal statuses; a terminal record is never
/// re-opened.
#[derive(Clone, Copy, Debug, PartialEq, Eq, Structural)]
pub enum RunStatus {
    Running,
    Success,
    Error,
    Cancelled,
}

impl RunStatus {
    /// A status is terminal when it is not `Running`.
    pub open spec fn is_terminal(self) -> bool {
        self != RunStatus::Running
    }

    pub open spec fn spec_label(self) -> Seq<char> {
        match self {
            RunStatus::Running => "running"@,
            RunStatus::Success => "success"@,
            RunStatus::Error => "error"@,
            RunStatus::Cancelled => "cancelled"@,
        }
    }

    /// The name under which this status is persisted and displayed.
    pub fn label(&self) -> (r: String)
        ensures
            r@ == self.spec_label(),
    {
        match self {
            RunStatus::Running => String::from_str("running"),
            RunStatus::Success => String::from_str("success"),
            RunStatus::Error => String::from_str("error"),
            RunStatus::Cancelled => String::from_str("cancelled"),
        }
    }
}

/// Derivation of the final status of a run from its numeric exit code and
/// from whether a cancellation request for its script was pending when the
/// exit was observed. An exit code of zero always means success; a consumed
/// cancellation intent overrides a nonzero exit code.
pub open spec fn spec_status(exit_code: i32, was_cancelled: bool) -> RunStatus {
    if exit_code == 0 {
        RunStatus::Success
    } else if was_cancelled {
        RunStatus::Cancelled
    } else {
        RunStatus::Error
    }
}

/// Executable form of [`spec_status`].
pub fn derive_status(exit_code: i32, was_cancelled: bool) -> (r: RunStatus)
    ensures
        r == spec_status(exit_code, was_cancelled),
{
    if exit_code == 0 {
        RunStatus::Success
    } else if was_cancelled {
        RunStatus::Cancelled
    } else {
        RunStatus::Error
    }
}

/// A run exiting with code zero always finalizes to `Success`, even if a
/// cancellation request arrived after the exit.
pub proof fn lemma_exit_zero_is_success(was_cancelled: bool)
    ensures
        spec_status(0, was_cancelled) == RunStatus::Success,
{
}

/// A run whose script had a pending cancellation request at exit time
/// finalizes to `Cancelled` whenever its exit code is nonzero.
pub proof fn lemma_cancelled_overrides_nonzero_exit(exit_code: i32)
    requires
        exit_code != 0,
    ensures
        spec_status(exit_code, true) == RunStatus::Cancelled,
{
}

/// A run exiting nonzero with no pending cancellation request finalizes to
/// `Error`.
pub proof fn lemma_nonzero_exit_is_error(exit_code: i32)
    requires
        exit_code != 0,
    ensures
        spec_status(exit_code, false) == RunStatus::Error,
{
}

/// The final status of a run is always terminal: finalizing never leaves a
/// record `Running`.
pub proof fn lemma_derived_status_is_terminal(exit_code: i32, was_cancelled: bool)
    ensures
        spec_status(exit_code, was_cancelled).is_terminal(),
{
}

/// Errors surfaced by the engine's operations.
#[derive(Clone, Copy, Debug, PartialEq, Eq, Structural)]
pub enum EngineError {
    /// A run for this script identifier is already active.
    AlreadyRunning,
    /// No run for this script identifier is active.
    NotRunning,
    /// No run record with this identifier exists.
    NoSuchRecord,
    /// The run record is already terminal and cannot be finalized again.
    AlreadyFinalized,
    /// A record can only be finalized to a terminal status.
    NotTerminalStatus,
    /// The history store cannot hold any further records.
    StoreFull,
    /// No editor path is configured in the settings.
    NoEditorConfigured,
}

impl EngineError {
    pub open spec fn spec_message(self) -> Seq<char> {
        match self {
            EngineError::AlreadyRunning => "Script is already running"@,
            EngineError::NotRunning => "Script is not running"@,
            EngineError::NoSuchRecord => "Run record not found"@,
            EngineError::AlreadyFinalized => "Run record is already finalized"@,
            EngineError::NotTerminalStatus => "Run record can only be finalized to a terminal status"@,
            EngineError::StoreFull => "Run history is full"@,
            EngineError::NoEditorConfigured => "No editor configured. Set an editor path in Settings."@,
        }
    }

    /// The message under which this error is reported to the caller.
    pub fn message(&self) -> (r: String)
        ensures
            r@ == self.spec_message(),
    {
        match self {
            EngineError::AlreadyRunning => String::from_str("Script is already running"),
            EngineError::NotRunning => String::from_str("Script is not running"),
            EngineError::NoSuchRecord => String::from_str("Run record not found"),
            EngineError::AlreadyFinalized => String::from_str("Run record is already finalized"),
            EngineError::NotTerminalStatus => String::from_str(
                "Run record can only be finalized to a terminal status",
            ),
            EngineError::StoreFull => String::from_str("Run history is full"),
            EngineError::NoEditorConfigured => String::from_str(
                "No editor configured. Set an editor path in Settings.",
            ),
        }
    }
}

/// A stored script: a path to run together with display metadata.
#[derive(Debug)]
pub struct Script {
    pub id: i64,
    pub name: String,
    pub path: String,
    pub description: Option<String>,
    pub category_id: i64,
    pub color: String,
    pub is_executable: bool,
    pub run_as_admin: bool,
    pub created_at: String,
    pub updated_at: String,
}

/// A display grouping for scripts.
#[derive(Debug)]
pub struct Category {
    pub id: i64,
    pub name: String,
    pub color: String,
    pub sort_order: i64,
}

/// The outcome record of one run of a script.
#[derive(Debug)]
pub struct RunRecord {
    pub id: i64,
    pub script_id: i64,
    pub started_at: String,
    pub finished_at: Option<String>,
    pub exit_code: Option<i32>,
    pub output: Option<String>,
    pub status: RunStatus,
}

impl RunRecord {
    /// A record still running carries no exit information yet.
    pub open spec fn wf(self) -> bool {
        self.status == RunStatus::Running ==> {
            &&& self.finished_at is None
            &&& self.exit_code is None
            &&& self.output is None
        }
    }
}

impl Clone for RunRecord {
    fn clone(&self) -> (r: Self)
        ensures
            r == *self,
    {
        RunRecord {
            id: self.id,
            script_id: self.script_id,
            started_at: self.started_at.clone(),
            finished_at: match &self.finished_at {
                Some(s) => Some(s.clone()),
                None => None,
            },
            exit_code: self.exit_code,
            output: match &self.output {
                Some(s) => Some(s.clone()),
                None => None,
            },
            status: self.status,
        }
    }
}

/// A recurring schedule registered with the platform scheduler.
#[derive(Debug)]
pub struct Schedule {
    pub id: i64,
    pub script_id: i64,
    pub schedule_type: String,
    pub time: Option<String>,
    pub weekday: Option<i32>,
    pub interval_seconds: Option<i64>,
    pub enabled: bool,
    pub plist_label: String,
    pub created_at: String,
}

/// Data for registering a new script.
#[derive(Debug)]
pub struct NewScript {
    pub name: String,
    pub path: String,
    pub description: Option<String>,
    pub category_id: i64,
    pub color: String,
    pub run_as_admin: bool,
}

/// A partial update to a stored script.
#[derive(Debug)]
pub struct UpdateScript {
    pub name: Option<String>,
    pub path: Option<String>,
    pub description: Option<String>,
    pub category_id: Option<i64>,
    pub color: Option<String>,
    pub run_as_admin: Option<bool>,
}

/// Data for registering a new schedule.
#[derive(Debug)]
pub struct NewSchedule {
    pub script_id: i64,
    pub schedule_type: String,
    pub time: Option<String>,
    pub weekday: Option<i32>,
    pub interval_seconds: Option<i64>,
}

/// Application settings.
#[derive(Debug)]
pub struct Settings {
    pub id: i64,
    pub editor_path: String,
}

/// A partial update to the settings.
#[derive(Debug)]
pub struct UpdateSettings {
    pub editor_path: Option<String>,
}

} // verus!
