//! Scheduler integration: build the platform scheduler artifacts — task
//! labels, unit files, property lists and scheduler command lines — that the
//! caller then writes to disk and hands to the platform's scheduling tool.

pub mod linux;
pub mod macos;
pub mod windows;

use vstd::prelude::*;

verus! {

use vstd::string::{StringExecFns, StrSliceExecFns};
use crate::textnum::{i64_to_string, spec_i64_string};

/// One command line for the caller to execute.
#[derive(Debug)]
pub struct CommandSpec {
    pub program: String,
    pub args: Vec<String>,
}

/// The logs directory for scheduled runs, under the user's home directory.
pub open spec fn spec_logs_dir(home: Seq<char>) -> Seq<char> {
    home + "/.conduit/logs"@
}

/// The directory where scheduled runs append their logs. The caller creates
/// it before installing a task.
pub fn get_logs_dir(home: &str) -> (r: String)
    ensures
        r@ == spec_logs_dir(home@),
{
    let mut out = home.to_owned();
    out.append("/.conduit/logs");
    out
}

/// Relies on uuid::Uuid::new_v4 and its hyphenated rendering: a fresh random
/// identifier rendered as 36 characters.
#[verifier::external_body]
fn new_uuid_string() -> (r: String)
    ensures
        r@.len() == 36,
{
    uuid::Uuid::new_v4().to_string()
}

/// A fresh task label for a script: a fixed prefix, the script identifier,
/// and an 8-character random suffix.
pub fn generate_task_label(script_id: i64) -> (r: String)
    ensures
        exists|sfx: Seq<char>|
            sfx.len() == 8 && r@ == "com.conduit.script."@ + spec_i64_string(script_id as int)
                + "."@ + sfx,
{
    let mut out = String::from_str("com.conduit.script.");
    let id_text = i64_to_string(script_id);
    out.append(id_text.as_str());
    out.append(".");
    let uuid_text = new_uuid_string();
    let short = uuid_text.as_str().substring_char(0, 8);
    out.append(short);
    proof {
        let sfx = uuid_text@.subrange(0, 8);
        assert(sfx.len() == 8);
        assert(out@ =~= "com.conduit.script."@ + spec_i64_string(script_id as int) + "."@ + sfx);
    }
    out
}

/// What to do with one schedule when reconciling the database with the
/// platform scheduler.
#[derive(Clone, Copy, Debug, PartialEq, Eq, Structural)]
pub enum SyncAction {
    /// Enabled but missing from the platform: recreate the task.
    Recreate,
    /// Disabled but still present on the platform: disable the task.
    Disable,
    /// Consistent: leave it alone.
    Keep,
}

/// The reconciliation decision for one schedule: recreate an enabled
/// schedule whose task is missing, disable a disabled schedule whose task
/// still exists, and otherwise change nothing.
pub fn sync_action(enabled: bool, task_exists: bool) -> (r: SyncAction)
    ensures
        r == if enabled && !task_exists {
            SyncAction::Recreate
        } else if !enabled && task_exists {
            SyncAction::Disable
        } else {
            SyncAction::Keep
        },
{
    if enabled && !task_exists {
        SyncAction::Recreate
    } else if !enabled && task_exists {
        SyncAction::Disable
    } else {
        SyncAction::Keep
    }
}

} // verus!
