//! Task Scheduler command lines: the `schtasks` invocations that create,
//! remove, enable, disable and query one scheduled task.

use vstd::prelude::*;

verus! {

use vstd::string::{StringExecFns, StringSliceAdditionalSpecFns};
use crate::launcher::{script_kind, spec_script_kind, ScriptKind};
use crate::models::NewSchedule;
use crate::sched::{get_logs_dir, spec_logs_dir, CommandSpec};
use crate::textnum::{i64_to_string, spec_i64_string};

/// The redirected log file of one scheduled task.
pub open spec fn spec_task_log(home: Seq<char>, label: Seq<char>) -> Seq<char> {
    spec_logs_dir(home) + "/"@ + label + ".stdout.log"@
}

/// The task's command string: interpreter selection by extension, with
/// output redirected to the task's log file.
pub open spec fn spec_task_run_string(
    home: Seq<char>,
    label: Seq<char>,
    path_chars: Seq<char>,
    path_bytes: Seq<u8>,
) -> Seq<char> {
    let tail = "\" > \""@ + spec_task_log(home, label) + "\" 2>&1"@;
    match spec_script_kind(path_bytes) {
        ScriptKind::PowershellScript => "powershell.exe -ExecutionPolicy Bypass -File \""@
            + path_chars + tail,
        ScriptKind::BatchScript => "cmd.exe /C \""@ + path_chars + tail,
        ScriptKind::Direct => "\""@ + path_chars + tail,
    }
}

/// Task Scheduler's name for a weekday number; out-of-range numbers fall
/// back to Monday.
pub open spec fn spec_sched_day(weekday: i32) -> Seq<char> {
    if weekday == 0 {
        "SUN"@
    } else if weekday == 1 {
        "MON"@
    } else if weekday == 2 {
        "TUE"@
    } else if weekday == 3 {
        "WED"@
    } else if weekday == 4 {
        "THU"@
    } else if weekday == 5 {
        "FRI"@
    } else if weekday == 6 {
        "SAT"@
    } else {
        "MON"@
    }
}

/// The repetition interval in minutes: the seconds divided by sixty,
/// at least one.
pub open spec fn spec_minutes(seconds: i64) -> int {
    if seconds >= 60 {
        seconds as int / 60
    } else {
        1
    }
}

/// The schedule-dependent arguments of the creation command.
pub open spec fn spec_schedule_args(s: NewSchedule) -> Seq<Seq<char>> {
    if s.schedule_type@ == "daily"@ {
        seq!["/SC"@, "DAILY"@] + (match s.time {
            Some(t) => seq!["/ST"@, t@],
            None => Seq::empty(),
        })
    } else if s.schedule_type@ == "weekly"@ {
        seq!["/SC"@, "WEEKLY"@] + (match s.weekday {
            Some(w) => seq!["/D"@, spec_sched_day(w)],
            None => Seq::empty(),
        }) + (match s.time {
            Some(t) => seq!["/ST"@, t@],
            None => Seq::empty(),
        })
    } else if s.schedule_type@ == "interval"@ {
        match s.interval_seconds {
            Some(sec) => seq!["/SC"@, "MINUTE"@, "/MO"@, spec_i64_string(spec_minutes(sec))],
            None => Seq::empty(),
        }
    } else {
        Seq::empty()
    }
}

/// The full argument vector of the creation command.
pub open spec fn spec_schtasks_args(
    home: Seq<char>,
    label: Seq<char>,
    path_chars: Seq<char>,
    path_bytes: Seq<u8>,
    s: NewSchedule,
) -> Seq<Seq<char>> {
    seq![
        "/Create"@,
        "/TN"@,
        label,
        "/TR"@,
        spec_task_run_string(home, label, path_chars, path_bytes),
        "/F"@,
    ] + spec_schedule_args(s)
}

/// Task Scheduler's name for a weekday number.
pub fn sched_day(weekday: i32) -> (r: String)
    ensures
        r@ == spec_sched_day(weekday),
{
    if weekday == 0 {
        String::from_str("SUN")
    } else if weekday == 1 {
        String::from_str("MON")
    } else if weekday == 2 {
        String::from_str("TUE")
    } else if weekday == 3 {
        String::from_str("WED")
    } else if weekday == 4 {
        String::from_str("THU")
    } else if weekday == 5 {
        String::from_str("FRI")
    } else if weekday == 6 {
        String::from_str("SAT")
    } else {
        String::from_str("MON")
    }
}

/// Build the argument vector of the `schtasks /Create` invocation for one
/// scheduled task.
pub fn build_schtasks_command(home: &str, label: &str, script_path: &str, schedule: &NewSchedule)
    -> (r: Vec<String>)
    ensures
        r.deep_view() == spec_schtasks_args(
            home@,
            label@,
            script_path@,
            script_path.spec_bytes(),
            *schedule,
        ),
{
    let logs = get_logs_dir(home);
    let mut stdout_log = logs;
    stdout_log.append("/");
    stdout_log.append(label);
    stdout_log.append(".stdout.log");
    let mut tr = match script_kind(script_path) {
        ScriptKind::PowershellScript => {
            String::from_str("powershell.exe -ExecutionPolicy Bypass -File \"")
        },
        ScriptKind::BatchScript => String::from_str("cmd.exe /C \""),
        ScriptKind::Direct => String::from_str("\""),
    };
    tr.append(script_path);
    tr.append("\" > \"");
    tr.append(stdout_log.as_str());
    tr.append("\" 2>&1");
    proof {
        assert(tr@ =~= spec_task_run_string(
            home@,
            label@,
            script_path@,
            script_path.spec_bytes(),
        ));
    }
    let mut args: Vec<String> = Vec::new();
    args.push(String::from_str("/Create"));
    args.push(String::from_str("/TN"));
    args.push(label.to_owned());
    args.push(String::from_str("/TR"));
    args.push(tr);
    args.push(String::from_str("/F"));
    if schedule.schedule_type == String::from_str("daily") {
        args.push(String::from_str("/SC"));
        args.push(String::from_str("DAILY"));
        if let Some(t) = &schedule.time {
            args.push(String::from_str("/ST"));
            args.push(t.clone());
        }
    } else if schedule.schedule_type == String::from_str("weekly") {
        args.push(String::from_str("/SC"));
        args.push(String::from_str("WEEKLY"));
        if let Some(w) = schedule.weekday {
            args.push(String::from_str("/D"));
            args.push(sched_day(w));
        }
        if let Some(t) = &schedule.time {
            args.push(String::from_str("/ST"));
            args.push(t.clone());
        }
    } else if schedule.schedule_type == String::from_str("interval") {
        if let Some(seconds) = schedule.interval_seconds {
            let minutes: i64 = if seconds >= 60 {
                seconds / 60
            } else {
                1
            };
            args.push(String::from_str("/SC"));
            args.push(String::from_str("MINUTE"));
            args.push(String::from_str("/MO"));
            args.push(i64_to_string(minutes));
        }
    }
    proof {
        assert(args.deep_view() =~= spec_schtasks_args(
            home@,
            label@,
            script_path@,
            script_path.spec_bytes(),
            *schedule,
        ));
    }
    args
}

/// Plan the creation of a scheduled task.
pub fn create_scheduled_task(home: &str, label: &str, script_path: &str, schedule: &NewSchedule)
    -> (r: CommandSpec)
    ensures
        r.program@ == "schtasks"@,
        r.args.deep_view() == spec_schtasks_args(
            home@,
            label@,
            script_path@,
            script_path.spec_bytes(),
            *schedule,
        ),
{
    CommandSpec {
        program: String::from_str("schtasks"),
        args: build_schtasks_command(home, label, script_path, schedule),
    }
}

/// `schtasks /Delete /TN <label> /F`.
pub fn delete_scheduled_task(label: &str) -> (r: CommandSpec)
    ensures
        r.program@ == "schtasks"@,
        r.args.deep_view() == seq!["/Delete"@, "/TN"@, label@, "/F"@],
{
    let mut args: Vec<String> = Vec::new();
    args.push(String::from_str("/Delete"));
    args.push(String::from_str("/TN"));
    args.push(label.to_owned());
    args.push(String::from_str("/F"));
    proof {
        assert(args.deep_view() =~= seq!["/Delete"@, "/TN"@, label@, "/F"@]);
    }
    CommandSpec { program: String::from_str("schtasks"), args }
}

/// A plan to re-enable a scheduled task: re-create it, then mark it enabled.
#[derive(Debug)]
pub struct SchtasksEnablePlan {
    pub create: CommandSpec,
    pub change: CommandSpec,
}

/// Plan re-enabling a scheduled task.
pub fn enable_scheduled_task(home: &str, label: &str, script_path: &str, schedule: &NewSchedule)
    -> (r: SchtasksEnablePlan)
    ensures
        r.create.program@ == "schtasks"@,
        r.create.args.deep_view() == spec_schtasks_args(
            home@,
            label@,
            script_path@,
            script_path.spec_bytes(),
            *schedule,
        ),
        r.change.program@ == "schtasks"@,
        r.change.args.deep_view() == seq!["/Change"@, "/TN"@, label@, "/ENABLE"@],
{
    let create = create_scheduled_task(home, label, script_path, schedule);
    let mut args: Vec<String> = Vec::new();
    args.push(String::from_str("/Change"));
    args.push(String::from_str("/TN"));
    args.push(label.to_owned());
    args.push(String::from_str("/ENABLE"));
    proof {
        assert(args.deep_view() =~= seq!["/Change"@, "/TN"@, label@, "/ENABLE"@]);
    }
    let change = CommandSpec { program: String::from_str("schtasks"), args };
    SchtasksEnablePlan { create, change }
}

/// `schtasks /Change /TN <label> /DISABLE`.
pub fn disable_scheduled_task(label: &str) -> (r: CommandSpec)
    ensures
        r.program@ == "schtasks"@,
        r.args.deep_view() == seq!["/Change"@, "/TN"@, label@, "/DISABLE"@],
{
    let mut args: Vec<String> = Vec::new();
    args.push(String::from_str("/Change"));
    args.push(String::from_str("/TN"));
    args.push(label.to_owned());
    args.push(String::from_str("/DISABLE"));
    proof {
        assert(args.deep_view() =~= seq!["/Change"@, "/TN"@, label@, "/DISABLE"@]);
    }
    CommandSpec { program: String::from_str("schtasks"), args }
}

/// The query whose success determines whether the scheduled task exists:
/// `schtasks /Query /TN <label>`.
pub fn task_exists(label: &str) -> (r: CommandSpec)
    ensures
        r.program@ == "schtasks"@,
        r.args.deep_view() == seq!["/Query"@, "/TN"@, label@],
{
    let mut args: Vec<String> = Vec::new();
    args.push(String::from_str("/Query"));
    args.push(String::from_str("/TN"));
    args.push(label.to_owned());
    proof {
        assert(args.deep_view() =~= seq!["/Query"@, "/TN"@, label@]);
    }
    CommandSpec { program: String::from_str("schtasks"), args }
}

} // verus!
