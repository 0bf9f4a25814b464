//! launchd property lists: the plist describing one scheduled task, its
//! installation path under LaunchAgents, and the `launchctl` command lines
//! that load and unload it.

use vstd::prelude::*;

verus! {

use vstd::string::{StringExecFns, StrSliceExecFns};
use crate::models::NewSchedule;
use crate::sched::{get_logs_dir, spec_logs_dir, CommandSpec};
use crate::textnum::{all_digits, char_count, dec_value, parse_i64, split_once_char};

/// The scheduling part of a launchd property list.
#[derive(Clone, Copy, Debug, PartialEq, Eq, Structural)]
pub enum LaunchdSchedule {
    /// A `StartCalendarInterval` dictionary: optional weekday, hour, minute.
    Calendar { weekday: Option<i32>, hour: i64, minute: i64 },
    /// A `StartInterval` in seconds.
    Interval { seconds: i64 },
    /// No scheduling key: the schedule's fields did not fit its type.
    Unscheduled,
}

/// The property list of one scheduled task: label, program arguments, the
/// child's search path, log file paths, and the schedule. The caller
/// serializes it as plist XML.
#[derive(Debug)]
pub struct LaunchdPlist {
    pub label: String,
    pub program_arguments: Vec<String>,
    pub path_env: String,
    pub stdout_path: String,
    pub stderr_path: String,
    pub schedule: LaunchdSchedule,
}

pub open spec fn spec_launch_agents_dir(home: Seq<char>) -> Seq<char> {
    home + "/Library/LaunchAgents"@
}

pub open spec fn spec_plist_path(home: Seq<char>, label: Seq<char>) -> Seq<char> {
    spec_launch_agents_dir(home) + "/"@ + label + ".plist"@
}

/// The value of a digit string, or zero when it does not parse.
pub open spec fn spec_parse_or_zero(s: Seq<char>) -> int {
    if s.len() > 0 && all_digits(s) && dec_value(s) <= i64::MAX {
        dec_value(s)
    } else {
        0
    }
}

/// The hour and minute of a "HH:MM" string: defined exactly when the string
/// holds a single ':', with each side parsed as a number or falling back to
/// zero.
pub open spec fn spec_hour_minute(t: Seq<char>) -> Option<(int, int)> {
    if char_count(t, ':') == 1 {
        let p = choose|p: int| 0 <= p < t.len() && t[p] == ':';
        Some(
            (
                spec_parse_or_zero(t.take(p)),
                spec_parse_or_zero(t.subrange(p + 1, t.len() as int)),
            ),
        )
    } else {
        None
    }
}

/// The schedule of the plist built for `s`.
pub open spec fn spec_launchd_schedule(s: NewSchedule) -> LaunchdSchedule {
    if s.schedule_type@ == "daily"@ {
        match s.time {
            Some(t) => match spec_hour_minute(t@) {
                Some(hm) => LaunchdSchedule::Calendar {
                    weekday: None,
                    hour: hm.0 as i64,
                    minute: hm.1 as i64,
                },
                None => LaunchdSchedule::Unscheduled,
            },
            None => LaunchdSchedule::Unscheduled,
        }
    } else if s.schedule_type@ == "weekly"@ {
        match (s.time, s.weekday) {
            (Some(t), Some(w)) => match spec_hour_minute(t@) {
                Some(hm) => LaunchdSchedule::Calendar {
                    weekday: Some(w),
                    hour: hm.0 as i64,
                    minute: hm.1 as i64,
                },
                None => LaunchdSchedule::Unscheduled,
            },
            _ => LaunchdSchedule::Unscheduled,
        }
    } else if s.schedule_type@ == "interval"@ {
        match s.interval_seconds {
            Some(sec) => LaunchdSchedule::Interval { seconds: sec },
            None => LaunchdSchedule::Unscheduled,
        }
    } else {
        LaunchdSchedule::Unscheduled
    }
}

/// The plist carries exactly the built fields.
pub open spec fn spec_plist_ok(
    p: LaunchdPlist,
    home: Seq<char>,
    label: Seq<char>,
    script_path: Seq<char>,
    s: NewSchedule,
) -> bool {
    &&& p.label@ == label
    &&& p.program_arguments@.len() == 2
    &&& p.program_arguments@[0]@ == "/bin/bash"@
    &&& p.program_arguments@[1]@ == script_path
    &&& p.path_env@ == "/opt/homebrew/bin:/usr/local/bin:/usr/bin:/bin:/usr/sbin:/sbin"@
    &&& p.stdout_path@ == spec_logs_dir(home) + "/"@ + label + ".stdout.log"@
    &&& p.stderr_path@ == spec_logs_dir(home) + "/"@ + label + ".stderr.log"@
    &&& p.schedule == spec_launchd_schedule(s)
}

/// A character sequence never counts its occurrences negatively.
proof fn lemma_char_count_nonneg(s: Seq<char>, c: char)
    ensures
        char_count(s, c) >= 0,
    decreases s.len(),
{
    if s.len() > 0 {
        lemma_char_count_nonneg(s.drop_last(), c)
    }
}

/// An occurrence makes the count positive.
proof fn lemma_char_count_pos(s: Seq<char>, c: char, p: int)
    requires
        0 <= p < s.len(),
        s[p] == c,
    ensures
        char_count(s, c) >= 1,
    decreases s.len(),
{
    lemma_char_count_nonneg(s.drop_last(), c);
    if p < s.len() - 1 {
        assert(s.drop_last()[p] == s[p]);
        lemma_char_count_pos(s.drop_last(), c, p);
    }
}

/// With exactly one occurrence, two occurrence positions coincide.
proof fn lemma_char_count_unique(s: Seq<char>, c: char, p: int, q: int)
    requires
        char_count(s, c) == 1,
        0 <= p < s.len(),
        0 <= q < s.len(),
        s[p] == c,
        s[q] == c,
    ensures
        p == q,
    decreases s.len(),
{
    if p != q {
        if p < s.len() - 1 && q < s.len() - 1 {
            assert(s.drop_last()[p] == s[p]);
            assert(s.drop_last()[q] == s[q]);
            lemma_char_count_pos(s.drop_last(), c, p);
            if s.last() == c {
                assert(char_count(s, c) >= 2);
            } else {
                lemma_char_count_unique(s.drop_last(), c, p, q);
            }
        } else {
            let other = if p < s.len() - 1 {
                p
            } else {
                q
            };
            assert(s.last() == c);
            assert(s.drop_last()[other] == s[other]);
            lemma_char_count_pos(s.drop_last(), c, other);
        }
    }
}

/// The hour and minute of a "HH:MM" string.
fn hour_minute(t: &str) -> (r: Option<(i64, i64)>)
    ensures
        match r {
            Some((h, m)) => spec_hour_minute(t@) == Some((h as int, m as int)),
            None => spec_hour_minute(t@) is None,
        },
        r is Some <==> spec_hour_minute(t@) is Some,
{
    match split_once_char(t, ':') {
        None => None,
        Some((a, b)) => {
            proof {
                let p = choose|p: int|
                    0 <= p < t@.len() && #[trigger] t@[p] == ':' && a@ == t@.take(p) && b@
                        == t@.subrange(p + 1, t@.len() as int);
                let q = choose|q: int| 0 <= q < t@.len() && t@[q] == ':';
                lemma_char_count_unique(t@, ':', p, q);
            }
            let h = match parse_i64(a.as_str()) {
                Some(v) => v,
                None => 0,
            };
            let m = match parse_i64(b.as_str()) {
                Some(v) => v,
                None => 0,
            };
            Some((h, m))
        },
    }
}

/// Build the property list for one scheduled task: run the script through
/// bash with a sane search path, append output to per-task log files, and
/// schedule per the schedule's type.
pub fn build_plist(home: &str, label: &str, script_path: &str, schedule: &NewSchedule) -> (r:
    LaunchdPlist)
    ensures
        spec_plist_ok(r, home@, label@, script_path@, *schedule),
{
    let logs = get_logs_dir(home);
    let mut stdout_path = logs.clone();
    stdout_path.append("/");
    stdout_path.append(label);
    stdout_path.append(".stdout.log");
    let mut stderr_path = logs.clone();
    stderr_path.append("/");
    stderr_path.append(label);
    stderr_path.append(".stderr.log");
    let mut program_arguments: Vec<String> = Vec::new();
    program_arguments.push(String::from_str("/bin/bash"));
    program_arguments.push(script_path.to_owned());
    let sched = if schedule.schedule_type == String::from_str("daily") {
        match &schedule.time {
            Some(t) => match hour_minute(t.as_str()) {
                Some((hour, minute)) => LaunchdSchedule::Calendar { weekday: None, hour, minute },
                None => LaunchdSchedule::Unscheduled,
            },
            None => LaunchdSchedule::Unscheduled,
        }
    } else if schedule.schedule_type == String::from_str("weekly") {
        match (&schedule.time, schedule.weekday) {
            (Some(t), Some(w)) => match hour_minute(t.as_str()) {
                Some((hour, minute)) => LaunchdSchedule::Calendar {
                    weekday: Some(w),
                    hour,
                    minute,
                },
                None => LaunchdSchedule::Unscheduled,
            },
            _ => LaunchdSchedule::Unscheduled,
        }
    } else if schedule.schedule_type == String::from_str("interval") {
        match schedule.interval_seconds {
            Some(seconds) => LaunchdSchedule::Interval { seconds },
            None => LaunchdSchedule::Unscheduled,
        }
    } else {
        LaunchdSchedule::Unscheduled
    };
    proof {
        assert(stdout_path@ =~= spec_logs_dir(home@) + "/"@ + label@ + ".stdout.log"@);
        assert(stderr_path@ =~= spec_logs_dir(home@) + "/"@ + label@ + ".stderr.log"@);
    }
    LaunchdPlist {
        label: label.to_owned(),
        program_arguments,
        path_env: String::from_str(
            "/opt/homebrew/bin:/usr/local/bin:/usr/bin:/bin:/usr/sbin:/sbin",
        ),
        stdout_path,
        stderr_path,
        schedule: sched,
    }
}

pub fn get_launch_agents_dir(home: &str) -> (r: String)
    ensures
        r@ == spec_launch_agents_dir(home@),
{
    let mut out = home.to_owned();
    out.append("/Library/LaunchAgents");
    out
}

pub fn get_plist_path(home: &str, label: &str) -> (r: String)
    ensures
        r@ == spec_plist_path(home@, label@),
{
    let mut out = get_launch_agents_dir(home);
    out.append("/");
    out.append(label);
    out.append(".plist");
    proof {
        assert(out@ =~= spec_plist_path(home@, label@));
    }
    out
}

/// `launchctl load <path>` / `launchctl unload <path>`.
pub open spec fn spec_is_launchctl(c: CommandSpec, verb: Seq<char>, path: Seq<char>) -> bool {
    &&& c.program@ == "launchctl"@
    &&& c.args@.len() == 2
    &&& c.args@[0]@ == verb
    &&& c.args@[1]@ == path
}

/// A plan to install a scheduled task: write the plist (creating its
/// directory first), then load it.
#[derive(Debug)]
pub struct LaunchdInstallPlan {
    pub plist_path: String,
    pub plist: LaunchdPlist,
    pub load: CommandSpec,
}

/// A plan to unload a scheduled task; removal additionally deletes the
/// plist file. Both apply only when the plist file exists.
#[derive(Debug)]
pub struct LaunchdUnloadPlan {
    pub plist_path: String,
    pub unload: CommandSpec,
}

/// Plan the creation of a scheduled task.
pub fn create_scheduled_task(home: &str, label: &str, script_path: &str, schedule: &NewSchedule)
    -> (r: LaunchdInstallPlan)
    ensures
        r.plist_path@ == spec_plist_path(home@, label@),
        spec_plist_ok(r.plist, home@, label@, script_path@, *schedule),
        spec_is_launchctl(r.load, "load"@, spec_plist_path(home@, label@)),
{
    let plist_path = get_plist_path(home, label);
    let plist = build_plist(home, label, script_path, schedule);
    let mut args: Vec<String> = Vec::new();
    args.push(String::from_str("load"));
    args.push(plist_path.clone());
    let load = CommandSpec { program: String::from_str("launchctl"), args };
    LaunchdInstallPlan { plist_path, plist, load }
}

/// Re-enabling a scheduled task re-creates it.
pub fn enable_scheduled_task(home: &str, label: &str, script_path: &str, schedule: &NewSchedule)
    -> (r: LaunchdInstallPlan)
    ensures
        r.plist_path@ == spec_plist_path(home@, label@),
        spec_plist_ok(r.plist, home@, label@, script_path@, *schedule),
        spec_is_launchctl(r.load, "load"@, spec_plist_path(home@, label@)),
{
    create_scheduled_task(home, label, script_path, schedule)
}

/// Plan the removal of a scheduled task: unload the plist, then delete it.
pub fn delete_scheduled_task(home: &str, label: &str) -> (r: LaunchdUnloadPlan)
    ensures
        r.plist_path@ == spec_plist_path(home@, label@),
        spec_is_launchctl(r.unload, "unload"@, spec_plist_path(home@, label@)),
{
    let plist_path = get_plist_path(home, label);
    let mut args: Vec<String> = Vec::new();
    args.push(String::from_str("unload"));
    args.push(plist_path.clone());
    let unload = CommandSpec { program: String::from_str("launchctl"), args };
    LaunchdUnloadPlan { plist_path, unload }
}

/// Plan disabling a scheduled task: unload its plist, keeping the file.
pub fn disable_scheduled_task(home: &str, label: &str) -> (r: LaunchdUnloadPlan)
    ensures
        r.plist_path@ == spec_plist_path(home@, label@),
        spec_is_launchctl(r.unload, "unload"@, spec_plist_path(home@, label@)),
{
    let plist_path = get_plist_path(home, label);
    let mut args: Vec<String> = Vec::new();
    args.push(String::from_str("unload"));
    args.push(plist_path.clone());
    let unload = CommandSpec { program: String::from_str("launchctl"), args };
    LaunchdUnloadPlan { plist_path, unload }
}

/// The path whose existence determines whether the scheduled task is
/// installed: its plist file.
pub fn task_exists(home: &str, label: &str) -> (r: String)
    ensures
        r@ == spec_plist_path(home@, label@),
{
    get_plist_path(home, label)
}

} // verus!
