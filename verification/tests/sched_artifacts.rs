//! Scheduler artifacts: task labels, unit names and files, property lists
//! and Task Scheduler command lines.

use conduit::models::NewSchedule;
use conduit::sched::linux;
use conduit::sched::macos::{self, LaunchdSchedule};
use conduit::sched::windows;
use conduit::sched::{generate_task_label, get_logs_dir, sync_action, SyncAction};

fn daily(time: &str) -> NewSchedule {
    NewSchedule {
        script_id: 42,
        schedule_type: "daily".to_string(),
        time: Some(time.to_string()),
        weekday: None,
        interval_seconds: None,
    }
}

fn weekly(time: &str, weekday: i32) -> NewSchedule {
    NewSchedule {
        script_id: 42,
        schedule_type: "weekly".to_string(),
        time: Some(time.to_string()),
        weekday: Some(weekday),
        interval_seconds: None,
    }
}

fn interval(seconds: i64) -> NewSchedule {
    NewSchedule {
        script_id: 42,
        schedule_type: "interval".to_string(),
        time: None,
        weekday: None,
        interval_seconds: Some(seconds),
    }
}

#[test]
fn task_labels_have_prefix_id_and_random_suffix() {
    let label = generate_task_label(42);
    assert!(label.starts_with("com.conduit.script.42."));
    assert_eq!(label.chars().count(), "com.conduit.script.42.".len() + 8);
    let negative = generate_task_label(-7);
    assert!(negative.starts_with("com.conduit.script.-7."));
    // Fresh suffixes make labels collision-free in practice.
    assert_ne!(generate_task_label(42), generate_task_label(42));
}

#[test]
fn unit_names_drop_the_prefix_and_dots() {
    assert_eq!(
        linux::label_to_unit_name("com.conduit.script.42.a1b2c3d4"),
        "conduit-script-42-a1b2c3d4"
    );
    assert_eq!(linux::label_to_unit_name("plain.label"), "plain-label");
    assert_eq!(linux::label_to_unit_name("com."), "");
}

#[test]
fn unit_paths_live_under_the_systemd_user_directory() {
    assert_eq!(
        linux::get_service_path("/home/u", "com.conduit.script.1.abcd0000"),
        "/home/u/.config/systemd/user/conduit-script-1-abcd0000.service"
    );
    assert_eq!(
        linux::get_timer_path("/home/u", "com.conduit.script.1.abcd0000"),
        "/home/u/.config/systemd/user/conduit-script-1-abcd0000.timer"
    );
    assert_eq!(get_logs_dir("/home/u"), "/home/u/.conduit/logs");
}

#[test]
fn service_content_is_exact() {
    let content =
        linux::build_service_content("/home/u", "com.conduit.script.1.abcd0000", "/home/u/x.sh");
    let expected = "[Unit]\n\
         Description=Conduit scheduled script: conduit-script-1-abcd0000\n\
         \n\
         [Service]\n\
         Type=oneshot\n\
         ExecStart=/bin/bash /home/u/x.sh\n\
         Environment=PATH=/usr/local/bin:/usr/bin:/bin:/usr/local/sbin:/usr/sbin:/sbin\n\
         StandardOutput=append:/home/u/.conduit/logs/conduit-script-1-abcd0000.stdout.log\n\
         StandardError=append:/home/u/.conduit/logs/conduit-script-1-abcd0000.stderr.log\n";
    assert_eq!(content, expected);
}

#[test]
fn timer_content_per_schedule_type() {
    let label = "com.conduit.script.1.abcd0000";
    let header = "[Unit]\nDescription=Timer for Conduit scheduled script: conduit-script-1-abcd0000\n\n[Timer]\n";
    let footer = "\n[Install]\nWantedBy=timers.target\n";

    let t = linux::build_timer_content(label, &daily("09:30"));
    assert_eq!(
        t,
        format!("{header}OnCalendar=*-*-* 09:30:00\nPersistent=true\n{footer}")
    );

    let t = linux::build_timer_content(label, &weekly("07:15", 5));
    assert_eq!(
        t,
        format!("{header}OnCalendar=Fri *-*-* 07:15:00\nPersistent=true\n{footer}")
    );

    let t = linux::build_timer_content(label, &interval(300));
    assert_eq!(
        t,
        format!("{header}OnBootSec=60\nOnUnitActiveSec=300s\nAccuracySec=1\n{footer}")
    );

    // A schedule whose fields do not fit its type gets no timer lines.
    let mut broken = daily("09:30");
    broken.time = None;
    let t = linux::build_timer_content(label, &broken);
    assert_eq!(t, format!("{header}{footer}"));
}

#[test]
fn linux_plans_write_files_then_reload_and_enable() {
    let plan = linux::create_scheduled_task("/home/u", "com.conduit.script.1.abcd0000", "/x.sh", &daily("09:30"));
    let files = plan.unit_files.unwrap();
    assert!(files.timer_path.ends_with(".timer"));
    assert!(files.service_content.contains("ExecStart=/bin/bash /x.sh"));
    assert_eq!(plan.commands.len(), 2);
    assert_eq!(plan.commands[0].program, "systemctl");
    assert_eq!(plan.commands[0].args, ["--user", "daemon-reload"]);
    assert_eq!(
        plan.commands[1].args,
        ["--user", "enable", "--now", "conduit-script-1-abcd0000.timer"]
    );

    let plan = linux::enable_scheduled_task(
        "/home/u",
        "com.conduit.script.1.abcd0000",
        "/x.sh",
        &daily("09:30"),
        true,
    );
    assert!(plan.unit_files.is_none());

    let cmd = linux::disable_scheduled_task("com.conduit.script.1.abcd0000");
    assert_eq!(
        cmd.args,
        ["--user", "disable", "--now", "conduit-script-1-abcd0000.timer"]
    );

    let removal = linux::delete_scheduled_task("/home/u", "com.conduit.script.1.abcd0000");
    assert!(removal.service_path.ends_with(".service"));
    assert!(removal.timer_path.ends_with(".timer"));
    assert_eq!(removal.reload.args, ["--user", "daemon-reload"]);
    assert_eq!(
        linux::task_exists("/home/u", "com.conduit.script.1.abcd0000"),
        "/home/u/.config/systemd/user/conduit-script-1-abcd0000.timer"
    );
}

#[test]
fn plist_fields_for_a_daily_schedule() {
    let plist = macos::build_plist("/Users/u", "com.conduit.script.1.abcd0000", "/x.sh", &daily("09:30"));
    assert_eq!(plist.label, "com.conduit.script.1.abcd0000");
    assert_eq!(plist.program_arguments, ["/bin/bash", "/x.sh"]);
    assert_eq!(
        plist.path_env,
        "/opt/homebrew/bin:/usr/local/bin:/usr/bin:/bin:/usr/sbin:/sbin"
    );
    assert_eq!(
        plist.stdout_path,
        "/Users/u/.conduit/logs/com.conduit.script.1.abcd0000.stdout.log"
    );
    assert_eq!(
        plist.stderr_path,
        "/Users/u/.conduit/logs/com.conduit.script.1.abcd0000.stderr.log"
    );
    assert_eq!(
        plist.schedule,
        LaunchdSchedule::Calendar { weekday: None, hour: 9, minute: 30 }
    );
}

#[test]
fn plist_schedule_variants() {
    let p = macos::build_plist("/u", "l", "/x.sh", &weekly("23:05", 3));
    assert_eq!(
        p.schedule,
        LaunchdSchedule::Calendar { weekday: Some(3), hour: 23, minute: 5 }
    );

    let p = macos::build_plist("/u", "l", "/x.sh", &interval(600));
    assert_eq!(p.schedule, LaunchdSchedule::Interval { seconds: 600 });

    // A time without a single ':' produces no schedule key.
    let p = macos::build_plist("/u", "l", "/x.sh", &daily("0930"));
    assert_eq!(p.schedule, LaunchdSchedule::Unscheduled);

    // An unparsable part falls back to zero.
    let p = macos::build_plist("/u", "l", "/x.sh", &daily("ab:15"));
    assert_eq!(
        p.schedule,
        LaunchdSchedule::Calendar { weekday: None, hour: 0, minute: 15 }
    );

    let mut missing_day = weekly("09:00", 1);
    missing_day.weekday = None;
    let p = macos::build_plist("/u", "l", "/x.sh", &missing_day);
    assert_eq!(p.schedule, LaunchdSchedule::Unscheduled);
}

#[test]
fn macos_plans_load_and_unload_the_plist() {
    let plan = macos::create_scheduled_task("/Users/u", "com.x.1", "/x.sh", &daily("09:30"));
    assert_eq!(plan.plist_path, "/Users/u/Library/LaunchAgents/com.x.1.plist");
    assert_eq!(plan.load.program, "launchctl");
    assert_eq!(plan.load.args, ["load", "/Users/u/Library/LaunchAgents/com.x.1.plist"]);

    let enable = macos::enable_scheduled_task("/Users/u", "com.x.1", "/x.sh", &daily("09:30"));
    assert_eq!(enable.plist_path, plan.plist_path);

    let unload = macos::disable_scheduled_task("/Users/u", "com.x.1");
    assert_eq!(unload.unload.args, ["unload", "/Users/u/Library/LaunchAgents/com.x.1.plist"]);
    assert_eq!(
        macos::task_exists("/Users/u", "com.x.1"),
        "/Users/u/Library/LaunchAgents/com.x.1.plist"
    );
}

#[test]
fn schtasks_arguments_per_schedule_type() {
    let args = windows::build_schtasks_command("C:/Users/u", "task1", "C:\\x.ps1", &daily("09:30"));
    assert_eq!(
        args,
        [
            "/Create",
            "/TN",
            "task1",
            "/TR",
            "powershell.exe -ExecutionPolicy Bypass -File \"C:\\x.ps1\" > \"C:/Users/u/.conduit/logs/task1.stdout.log\" 2>&1",
            "/F",
            "/SC",
            "DAILY",
            "/ST",
            "09:30",
        ]
    );

    let args = windows::build_schtasks_command("C:/u", "t", "C:\\x.bat", &weekly("08:00", 0));
    assert_eq!(&args[6..], ["/SC", "WEEKLY", "/D", "SUN", "/ST", "08:00"]);
    assert!(args[4].starts_with("cmd.exe /C \"C:\\x.bat\""));

    let args = windows::build_schtasks_command("C:/u", "t", "C:\\tool.exe", &interval(300));
    assert_eq!(&args[6..], ["/SC", "MINUTE", "/MO", "5"]);
    assert!(args[4].starts_with("\"C:\\tool.exe\""));

    // Intervals shorter than a minute run every minute.
    let args = windows::build_schtasks_command("C:/u", "t", "C:\\x.cmd", &interval(30));
    assert_eq!(&args[6..], ["/SC", "MINUTE", "/MO", "1"]);
}

#[test]
fn schtasks_management_commands() {
    let del = windows::delete_scheduled_task("task1");
    assert_eq!(del.program, "schtasks");
    assert_eq!(del.args, ["/Delete", "/TN", "task1", "/F"]);

    let enable = windows::enable_scheduled_task("C:/u", "task1", "C:\\x.ps1", &daily("09:30"));
    assert_eq!(enable.change.args, ["/Change", "/TN", "task1", "/ENABLE"]);
    assert_eq!(enable.create.program, "schtasks");

    let disable = windows::disable_scheduled_task("task1");
    assert_eq!(disable.args, ["/Change", "/TN", "task1", "/DISABLE"]);

    let query = windows::task_exists("task1");
    assert_eq!(query.args, ["/Query", "/TN", "task1"]);
}

#[test]
fn sync_actions_reconcile_database_and_platform() {
    assert_eq!(sync_action(true, false), SyncAction::Recreate);
    assert_eq!(sync_action(false, true), SyncAction::Disable);
    assert_eq!(sync_action(true, true), SyncAction::Keep);
    assert_eq!(sync_action(false, false), SyncAction::Keep);
}
