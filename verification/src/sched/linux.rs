//! systemd user timers: unit names, unit file paths and contents, and the
//! `systemctl --user` command lines that install, enable, disable and remove
//! a scheduled task.

use vstd::prelude::*;

verus! {

use vstd::string::{StringExecFns, StrSliceExecFns};
use crate::models::NewSchedule;
use crate::sched::{spec_logs_dir, CommandSpec};
use crate::textnum::{i64_to_string, push_char, spec_i64_string};

/// `s` without a leading "com.".
pub open spec fn spec_strip_com(s: Seq<char>) -> Seq<char> {
    if s.len() >= 4 && s.subrange(0, 4) == "com."@ {
        s.subrange(4, s.len() as int)
    } else {
        s
    }
}

/// `s` with every '.' replaced by '-'.
pub open spec fn spec_dashed(s: Seq<char>) -> Seq<char> {
    s.map_values(
        |c: char|
            if c == '.' {
                '-'
            } else {
                c
            },
    )
}

/// The systemd unit name of a task label: the label without its "com."
/// prefix, dots turned into dashes.
pub open spec fn spec_unit_name(s: Seq<char>) -> Seq<char> {
    spec_dashed(spec_strip_com(s))
}

pub open spec fn spec_systemd_user_dir(home: Seq<char>) -> Seq<char> {
    home + "/.config/systemd/user"@
}

pub open spec fn spec_service_path(home: Seq<char>, label: Seq<char>) -> Seq<char> {
    spec_systemd_user_dir(home) + "/"@ + spec_unit_name(label) + ".service"@
}

pub open spec fn spec_timer_path(home: Seq<char>, label: Seq<char>) -> Seq<char> {
    spec_systemd_user_dir(home) + "/"@ + spec_unit_name(label) + ".timer"@
}

/// The service unit's content: a oneshot bash invocation of the script with
/// a sane search path, appending its output to per-unit log files.
pub open spec fn spec_service_content(
    home: Seq<char>,
    label: Seq<char>,
    script_path: Seq<char>,
) -> Seq<char> {
    let unit = spec_unit_name(label);
    let logs = spec_logs_dir(home);
    "[Unit]\nDescription=Conduit scheduled script: "@ + unit
        + "\n\n[Service]\nType=oneshot\nExecStart=/bin/bash "@ + script_path
        + "\nEnvironment=PATH=/usr/local/bin:/usr/bin:/bin:/usr/local/sbin:/usr/sbin:/sbin\nStandardOutput=append:"@
        + logs + "/"@ + unit + ".stdout.log\nStandardError=append:"@ + logs + "/"@ + unit
        + ".stderr.log\n"@
}

/// systemd's name for a weekday number; out-of-range numbers fall back to
/// Monday.
pub open spec fn spec_day_name(weekday: i32) -> Seq<char> {
    if weekday == 0 {
        "Sun"@
    } else if weekday == 1 {
        "Mon"@
    } else if weekday == 2 {
        "Tue"@
    } else if weekday == 3 {
        "Wed"@
    } else if weekday == 4 {
        "Thu"@
    } else if weekday == 5 {
        "Fri"@
    } else if weekday == 6 {
        "Sat"@
    } else {
        "Mon"@
    }
}

/// The `[Timer]` lines for one schedule; empty when the schedule's fields do
/// not fit its type.
pub open spec fn spec_timer_body(s: NewSchedule) -> Seq<char> {
    if s.schedule_type@ == "daily"@ {
        match s.time {
            Some(t) => "OnCalendar=*-*-* "@ + t@ + ":00\nPersistent=true\n"@,
            None => Seq::empty(),
        }
    } else if s.schedule_type@ == "weekly"@ {
        match (s.time, s.weekday) {
            (Some(t), Some(w)) => "OnCalendar="@ + spec_day_name(w) + " *-*-* "@ + t@
                + ":00\nPersistent=true\n"@,
            _ => Seq::empty(),
        }
    } else if s.schedule_type@ == "interval"@ {
        match s.interval_seconds {
            Some(sec) => "OnBootSec=60\nOnUnitActiveSec="@ + spec_i64_string(sec as int)
                + "s\nAccuracySec=1\n"@,
            None => Seq::empty(),
        }
    } else {
        Seq::empty()
    }
}

/// The timer unit's content.
pub open spec fn spec_timer_content(label: Seq<char>, s: NewSchedule) -> Seq<char> {
    "[Unit]\nDescription=Timer for Conduit scheduled script: "@ + spec_unit_name(label)
        + "\n\n[Timer]\n"@ + spec_timer_body(s) + "\n[Install]\nWantedBy=timers.target\n"@
}

/// `systemctl --user daemon-reload`.
pub open spec fn spec_is_daemon_reload(c: CommandSpec) -> bool {
    &&& c.program@ == "systemctl"@
    &&& c.args@.len() == 2
    &&& c.args@[0]@ == "--user"@
    &&& c.args@[1]@ == "daemon-reload"@
}

/// `systemctl --user enable --now <unit>.timer`.
pub open spec fn spec_is_enable_now(c: CommandSpec, label: Seq<char>) -> bool {
    &&& c.program@ == "systemctl"@
    &&& c.args@.len() == 4
    &&& c.args@[0]@ == "--user"@
    &&& c.args@[1]@ == "enable"@
    &&& c.args@[2]@ == "--now"@
    &&& c.args@[3]@ == spec_unit_name(label) + ".timer"@
}

/// `systemctl --user disable --now <unit>.timer`.
pub open spec fn spec_is_disable_now(c: CommandSpec, label: Seq<char>) -> bool {
    &&& c.program@ == "systemctl"@
    &&& c.args@.len() == 4
    &&& c.args@[0]@ == "--user"@
    &&& c.args@[1]@ == "disable"@
    &&& c.args@[2]@ == "--now"@
    &&& c.args@[3]@ == spec_unit_name(label) + ".timer"@
}

/// Convert a task label like `com.conduit.script.42.a1b2c3d4` to a systemd
/// unit name like `conduit-script-42-a1b2c3d4`.
#[verifier::loop_isolation(false)]
pub fn label_to_unit_name(label: &str) -> (r: String)
    ensures
        r@ == spec_unit_name(label@),
{
    let n = label.unicode_len();
    let has_prefix = n >= 4 && label.get_char(0) == 'c' && label.get_char(1) == 'o'
        && label.get_char(2) == 'm' && label.get_char(3) == '.';
    proof {
        reveal_strlit("com.");
        if has_prefix {
            assert(label@.subrange(0, 4) =~= "com."@);
        }
        if label@.len() >= 4 && label@.subrange(0, 4) == "com."@ {
            assert(label@[0] == label@.subrange(0, 4)[0]);
            assert(label@[1] == label@.subrange(0, 4)[1]);
            assert(label@[2] == label@.subrange(0, 4)[2]);
            assert(label@[3] == label@.subrange(0, 4)[3]);
        }
    }
    let start: usize = if has_prefix {
        4
    } else {
        0
    };
    let mut out = String::new();
    let mut i: usize = start;
    proof {
        assert(out@ =~= spec_dashed(label@.subrange(start as int, start as int)));
    }
    while i < n
        invariant
            start <= i <= n,
            out@ == spec_dashed(label@.subrange(start as int, i as int)),
        decreases n - i,
    {
        let c = label.get_char(i);
        let mapped = if c == '.' {
            '-'
        } else {
            c
        };
        push_char(&mut out, mapped);
        proof {
            assert(label@.subrange(start as int, i as int + 1) =~= label@.subrange(
                start as int,
                i as int,
            ).push(label@[i as int]));
            assert(spec_dashed(label@.subrange(start as int, i as int + 1)) =~= spec_dashed(
                label@.subrange(start as int, i as int),
            ).push(mapped));
        }
        i = i + 1;
    }
    proof {
        assert(label@.subrange(start as int, n as int) =~= spec_strip_com(label@));
    }
    out
}

pub fn get_systemd_user_dir(home: &str) -> (r: String)
    ensures
        r@ == spec_systemd_user_dir(home@),
{
    let mut out = home.to_owned();
    out.append("/.config/systemd/user");
    out
}

pub fn get_service_path(home: &str, label: &str) -> (r: String)
    ensures
        r@ == spec_service_path(home@, label@),
{
    let mut out = get_systemd_user_dir(home);
    out.append("/");
    let unit = label_to_unit_name(label);
    out.append(unit.as_str());
    out.append(".service");
    proof {
        assert(out@ =~= spec_service_path(home@, label@));
    }
    out
}

pub fn get_timer_path(home: &str, label: &str) -> (r: String)
    ensures
        r@ == spec_timer_path(home@, label@),
{
    let mut out = get_systemd_user_dir(home);
    out.append("/");
    let unit = label_to_unit_name(label);
    out.append(unit.as_str());
    out.append(".timer");
    proof {
        assert(out@ =~= spec_timer_path(home@, label@));
    }
    out
}

/// Build the service unit's content.
pub fn build_service_content(home: &str, label: &str, script_path: &str) -> (r: String)
    ensures
        r@ == spec_service_content(home@, label@, script_path@),
{
    let unit = label_to_unit_name(label);
    let logs = crate::sched::get_logs_dir(home);
    let mut out = String::from_str("[Unit]\nDescription=Conduit scheduled script: ");
    out.append(unit.as_str());
    out.append("\n\n[Service]\nType=oneshot\nExecStart=/bin/bash ");
    out.append(script_path);
    out.append(
        "\nEnvironment=PATH=/usr/local/bin:/usr/bin:/bin:/usr/local/sbin:/usr/sbin:/sbin\nStandardOutput=append:",
    );
    out.append(logs.as_str());
    out.append("/");
    out.append(unit.as_str());
    out.append(".stdout.log\nStandardError=append:");
    out.append(logs.as_str());
    out.append("/");
    out.append(unit.as_str());
    out.append(".stderr.log\n");
    proof {
        assert(out@ =~= spec_service_content(home@, label@, script_path@));
    }
    out
}

/// Build the timer unit's content for one schedule.
pub fn build_timer_content(label: &str, schedule: &NewSchedule) -> (r: String)
    ensures
        r@ == spec_timer_content(label@, *schedule),
{
    let unit = label_to_unit_name(label);
    let mut out = String::from_str("[Unit]\nDescription=Timer for Conduit scheduled script: ");
    out.append(unit.as_str());
    out.append("\n\n[Timer]\n");
    if schedule.schedule_type == String::from_str("daily") {
        if let Some(t) = &schedule.time {
            out.append("OnCalendar=*-*-* ");
            out.append(t.as_str());
            out.append(":00\nPersistent=true\n");
        }
    } else if schedule.schedule_type == String::from_str("weekly") {
        if let (Some(t), Some(w)) = (&schedule.time, schedule.weekday) {
            out.append("OnCalendar=");
            let day = day_name(w);
            out.append(day.as_str());
            out.append(" *-*-* ");
            out.append(t.as_str());
            out.append(":00\nPersistent=true\n");
        }
    } else if schedule.schedule_type == String::from_str("interval") {
        if let Some(sec) = schedule.interval_seconds {
            out.append("OnBootSec=60\nOnUnitActiveSec=");
            let sec_text = i64_to_string(sec);
            out.append(sec_text.as_str());
            out.append("s\nAccuracySec=1\n");
        }
    }
    out.append("\n[Install]\nWantedBy=timers.target\n");
    proof {
        assert(out@ =~= spec_timer_content(label@, *schedule));
    }
    out
}

/// systemd's name for a weekday number.
pub fn day_name(weekday: i32) -> (r: String)
    ensures
        r@ == spec_day_name(weekday),
{
    if weekday == 0 {
        String::from_str("Sun")
    } else if weekday == 1 {
        String::from_str("Mon")
    } else if weekday == 2 {
        String::from_str("Tue")
    } else if weekday == 3 {
        String::from_str("Wed")
    } else if weekday == 4 {
        String::from_str("Thu")
    } else if weekday == 5 {
        String::from_str("Fri")
    } else if weekday == 6 {
        String::from_str("Sat")
    } else {
        String::from_str("Mon")
    }
}

/// The two unit files of one scheduled task.
#[derive(Debug)]
pub struct TimerUnitFiles {
    pub service_path: String,
    pub service_content: String,
    pub timer_path: String,
    pub timer_content: String,
}

/// The unit files carry exactly the built paths and contents.
pub open spec fn spec_unit_files_ok(
    f: TimerUnitFiles,
    home: Seq<char>,
    label: Seq<char>,
    script_path: Seq<char>,
    s: NewSchedule,
) -> bool {
    &&& f.service_path@ == spec_service_path(home, label)
    &&& f.service_content@ == spec_service_content(home, label, script_path)
    &&& f.timer_path@ == spec_timer_path(home, label)
    &&& f.timer_content@ == spec_timer_content(label, s)
}

/// Build the unit files for one scheduled task. The caller writes them under
/// the systemd user directory, which it creates first.
pub fn write_unit_files(home: &str, label: &str, script_path: &str, schedule: &NewSchedule) -> (r:
    TimerUnitFiles)
    ensures
        spec_unit_files_ok(r, home@, label@, script_path@, *schedule),
{
    TimerUnitFiles {
        service_path: get_service_path(home, label),
        service_content: build_service_content(home, label, script_path),
        timer_path: get_timer_path(home, label),
        timer_content: build_timer_content(label, schedule),
    }
}

/// A plan to install or re-enable a scheduled task: unit files to write (if
/// any), then commands to run in order.
#[derive(Debug)]
pub struct SystemdTaskPlan {
    pub unit_files: Option<TimerUnitFiles>,
    pub commands: Vec<CommandSpec>,
}

fn daemon_reload_command() -> (r: CommandSpec)
    ensures
        spec_is_daemon_reload(r),
{
    let mut args: Vec<String> = Vec::new();
    args.push(String::from_str("--user"));
    args.push(String::from_str("daemon-reload"));
    CommandSpec { program: String::from_str("systemctl"), args }
}

fn enable_now_command(label: &str) -> (r: CommandSpec)
    ensures
        spec_is_enable_now(r, label@),
{
    let mut unit = label_to_unit_name(label);
    unit.append(".timer");
    let mut args: Vec<String> = Vec::new();
    args.push(String::from_str("--user"));
    args.push(String::from_str("enable"));
    args.push(String::from_str("--now"));
    args.push(unit);
    CommandSpec { program: String::from_str("systemctl"), args }
}

/// Plan the creation of a scheduled task: write both unit files, reload the
/// user daemon, then enable the timer immediately.
pub fn create_scheduled_task(home: &str, label: &str, script_path: &str, schedule: &NewSchedule)
    -> (r: SystemdTaskPlan)
    ensures
        r.unit_files matches Some(f) && spec_unit_files_ok(f, home@, label@, script_path@, *schedule),
        r.commands@.len() == 2,
        spec_is_daemon_reload(r.commands@[0]),
        spec_is_enable_now(r.commands@[1], label@),
{
    let files = write_unit_files(home, label, script_path, schedule);
    let mut commands: Vec<CommandSpec> = Vec::new();
    commands.push(daemon_reload_command());
    commands.push(enable_now_command(label));
    SystemdTaskPlan { unit_files: Some(files), commands }
}

/// Plan re-enabling a scheduled task: re-write the unit files only when the
/// timer file is gone, then reload and enable as for creation.
pub fn enable_scheduled_task(
    home: &str,
    label: &str,
    script_path: &str,
    schedule: &NewSchedule,
    timer_file_present: bool,
) -> (r: SystemdTaskPlan)
    ensures
        timer_file_present ==> r.unit_files is None,
        !timer_file_present ==> (r.unit_files matches Some(f) && spec_unit_files_ok(
            f,
            home@,
            label@,
            script_path@,
            *schedule,
        )),
        r.commands@.len() == 2,
        spec_is_daemon_reload(r.commands@[0]),
        spec_is_enable_now(r.commands@[1], label@),
{
    let files = if timer_file_present {
        None
    } else {
        Some(write_unit_files(home, label, script_path, schedule))
    };
    let mut commands: Vec<CommandSpec> = Vec::new();
    commands.push(daemon_reload_command());
    commands.push(enable_now_command(label));
    SystemdTaskPlan { unit_files: files, commands }
}

/// The command that disables a scheduled task's timer immediately.
pub fn disable_scheduled_task(label: &str) -> (r: CommandSpec)
    ensures
        spec_is_disable_now(r, label@),
{
    let mut unit = label_to_unit_name(label);
    unit.append(".timer");
    let mut args: Vec<String> = Vec::new();
    args.push(String::from_str("--user"));
    args.push(String::from_str("disable"));
    args.push(String::from_str("--now"));
    args.push(unit);
    CommandSpec { program: String::from_str("systemctl"), args }
}

/// A plan to remove a scheduled task: disable its timer, delete both unit
/// files, then reload the user daemon. Each step is best-effort.
#[derive(Debug)]
pub struct SystemdRemovePlan {
    pub disable: CommandSpec,
    pub service_path: String,
    pub timer_path: String,
    pub reload: CommandSpec,
}

/// Plan the removal of a scheduled task.
pub fn delete_scheduled_task(home: &str, label: &str) -> (r: SystemdRemovePlan)
    ensures
        spec_is_disable_now(r.disable, label@),
        r.service_path@ == spec_service_path(home@, label@),
        r.timer_path@ == spec_timer_path(home@, label@),
        spec_is_daemon_reload(r.reload),
{
    SystemdRemovePlan {
        disable: disable_scheduled_task(label),
        service_path: get_service_path(home, label),
        timer_path: get_timer_path(home, label),
        reload: daemon_reload_command(),
    }
}

/// The path whose existence determines whether the scheduled task is
/// installed: its timer unit file.
pub fn task_exists(home: &str, label: &str) -> (r: String)
    ensures
        r@ == spec_timer_path(home@, label@),
{
    get_timer_path(home, label)
}

} // verus!
