use zen_backup::commands::{run_schedule, ScheduleAction, schedule_action, is_backup_kind};
use zen_backup::feedback::{answers_from_members, build_feedback_issue, feedback_answers, feedback_template_url, run_feedback, FeedbackDelivery};
use zen_backup::help::{render_feedback_help, render_root_help, render_schedule_help};
use zen_backup::options::parse_global_options;
use zen_backup::platform::{linux, macos, windows, query_scheduler, install_scheduler, SchedulerFileOp, SchedulerState};
use zen_backup::config::{expand_env_vars, to_toml, AppConfig};
use zen_backup::version::{format_version, parse_version, VersionKind};

fn strings(v: &[&str]) -> Vec<String> {
    v.iter().map(|s| s.to_string()).collect()
}

#[test]
fn parse_global_options_supports_debug_and_log_file() {
    let parsed = parse_global_options(vec![
        "--debug".to_string(),
        "--log-file".to_string(),
        "trace.log".to_string(),
        "status".to_string(),
    ]);
    assert!(parsed.debug_enabled);
    assert_eq!(parsed.log_file_path.as_deref(), Some("trace.log"));
    assert_eq!(parsed.command_args, vec!["status"]);
}

#[test]
fn log_file_without_path_uses_default() {
    let parsed = parse_global_options(strings(&["--log-file", "status", "--verbose"]));
    assert!(!parsed.debug_enabled);
    assert_eq!(parsed.log_file_path.as_deref(), Some("zen-backup-debug.log"));
    assert_eq!(parsed.command_args, vec!["status", "--verbose"]);
    let parsed = parse_global_options(strings(&["list", "--log-file"]));
    assert_eq!(parsed.log_file_path.as_deref(), Some("zen-backup-debug.log"));
    assert_eq!(parsed.command_args, vec!["list"]);
}

#[test]
fn help_texts() {
    assert!(render_root_help().starts_with("Zen Profile Backup\n\nUsage"));
    assert!(render_root_help().ends_with("  feedback <bug|request>"));
    let s = render_schedule_help();
    assert!(s.contains("zen-backup schedule"));
    assert!(s.contains("resume = start"));
    assert_eq!(render_feedback_help(), "zen-backup feedback\n\nUsage\n  zen-backup feedback <bug|request>");
}

#[test]
fn versions_are_classified() {
    assert_eq!(parse_version(" v1.2.3 "), VersionKind::Production("1.2.3".to_string()));
    assert_eq!(
        parse_version("v1.2.3-beta.1-5-gabc1234"),
        VersionKind::Preview {
            semver: "1.2.3".to_string(),
            channel: "beta".to_string(),
            channel_iteration: "1".to_string(),
            ahead_count: Some("5".to_string()),
            hash: Some("abc1234".to_string()),
        }
    );
    assert_eq!(
        parse_version("2.0.0-alpha.3"),
        VersionKind::Preview {
            semver: "2.0.0".to_string(),
            channel: "alpha".to_string(),
            channel_iteration: "3".to_string(),
            ahead_count: None,
            hash: None,
        }
    );
    assert_eq!(parse_version("dev-build"), VersionKind::Raw("dev-build".to_string()));
    assert_eq!(parse_version("1.2"), VersionKind::Raw("1.2".to_string()));
}

#[test]
fn renders_preview_beta_with_color() {
    let out = format_version("v1.2.3-beta.1-5-gabc1234", true);
    assert!(out.contains("1.2.3-"));
    assert!(out.contains("\u{1b}[1;33mbeta\u{1b}[0m.1"));
    assert!(out.contains("-5-\u{1b}[90mgabc1234\u{1b}[0m"));
    assert_eq!(format_version("v1.2.3-alpha.2", true), "1.2.3-\u{1b}[1;31malpha\u{1b}[0m.2");
    assert_eq!(format_version("v1.2.3-beta.1-5-gabc1234", false), "1.2.3-beta.1-5-gabc1234");
    assert_eq!(format_version("v0.4.0", true), "0.4.0");
}

#[test]
fn schedule_actions_and_report() {
    assert_eq!(schedule_action("resume"), Some(ScheduleAction::Start));
    assert_eq!(schedule_action("pause"), Some(ScheduleAction::Stop));
    assert_eq!(schedule_action("bogus"), None);
    let bad = run_schedule("bogus", Err("x".to_string()));
    assert_eq!(bad.exit_code, 1);
    assert_eq!(bad.stderr, "schedule action must be start|resume|stop|pause|status");
    let st = linux::query(true, true, false, true);
    let out = run_schedule("start", Ok(st));
    assert_eq!(out.exit_code, 0);
    assert_eq!(
        out.stdout,
        "Scheduled backups started.\nzen-backup-daily.timer: active\nzen-backup-weekly.timer: paused"
    );
    let none = run_schedule("status", Ok(linux::query(false, false, false, false)));
    assert_eq!(none.stdout, "No scheduled jobs.");
    let err = run_schedule("stop", Err("boom".to_string()));
    assert_eq!((err.exit_code, err.stdout.as_str(), err.stderr.as_str()), (1, "", "boom"));
}

fn config() -> AppConfig {
    AppConfig {
        profile_path: "/p".to_string(),
        backup_local_path: "/b".to_string(),
        backup_cloud_path: None,
        retention_daily_days: 30,
        retention_weekly_days: 84,
        schedule_daily_time: "12:30".to_string(),
        schedule_weekly_day: "Sunday".to_string(),
        schedule_weekly_time: "02:00".to_string(),
        notifications_enabled: true,
        config_path: "/c/settings.toml".to_string(),
    }
}

#[test]
fn scheduler_plans() {
    let ops = linux::install(&config());
    assert_eq!(ops.len(), 7);
    match &ops[2] {
        SchedulerFileOp::Write { name, body } => {
            assert_eq!(name, "zen-backup-daily.timer");
            assert_eq!(body, "[Unit]\nDescription=Zen Backup daily\n[Timer]\nOnCalendar=12:30\n");
        }
        _ => panic!("expected a write"),
    }
    assert!(linux::start(true, false).is_empty());
    assert_eq!(linux::stop(true, true).len(), 3);
    let mac = macos::install(&config());
    match &mac[0] {
        SchedulerFileOp::Write { name, body } => {
            assert_eq!(name, "com.prometheas.zen-backup.daily.plist");
            assert!(body.contains("<string>daily</string>"));
            assert!(body.contains("<key>ZEN_BACKUP_BACKUP_ROOT</key><string>/b</string>"));
        }
        _ => panic!("expected a write"),
    }
    assert_eq!(macos::uninstall().len(), 5);
    let err = install_scheduler("plan9", &config(), None).err();
    assert_eq!(err.as_deref(), Some("unsupported platform: plan9"));
    let win = install_scheduler("windows", &config(), Some("  Custom ")).unwrap();
    match &win[0] {
        SchedulerFileOp::Write { name, body } => {
            assert_eq!(name, "CustomDaily.json");
            assert_eq!(body, "{\"task\":\"CustomDaily\",\"kind\":\"daily\",\"time\":\"12:30\"}\n");
        }
        _ => panic!("expected a write"),
    }
}

#[test]
fn windows_helpers() {
    assert_eq!(windows::map_weekday("Monday"), "MON");
    assert_eq!(windows::map_weekday("SATURDAY"), "SAT");
    assert_eq!(windows::map_weekday("someday"), "SUN");
    assert_eq!(windows::parse_enabled_from_xml("<Task><Enabled>false</Enabled></Task>"), Some(false));
    assert_eq!(windows::parse_enabled_from_xml("<Task></Task>"), None);
    let listing = "Folder: \\\r\nTaskName: \\ZenBackupDaily\r\nScheduled Task State:   Disabled\r\n";
    assert_eq!(windows::parse_schtasks_enabled_from_list_output(listing), Some(false));
    assert_eq!(windows::parse_schtasks_enabled_from_list_output("  scheduled task state: Enabled\n"), Some(true));
    assert_eq!(windows::parse_schtasks_enabled_from_list_output("Status: Ready\n"), None);
    let args = windows::create_native_task("ZenBackupWeekly", "weekly", "02:00", Some("SUN"));
    assert_eq!(
        args,
        vec!["/Create", "/TN", "ZenBackupWeekly", "/TR", "zen-backup backup weekly", "/ST", "02:00", "/F", "/SC", "WEEKLY", "/D", "SUN"]
    );
    let st = windows::query_native(
        "D",
        "W",
        windows::NativeTaskState { installed: true, enabled: false },
        windows::NativeTaskState { installed: false, enabled: false },
    );
    assert_eq!(st.labels, vec!["D", "W"]);
    assert_eq!(st.states[0].1, SchedulerState::Paused);
    assert_eq!(st.states[1].1, SchedulerState::NotInstalled);
    let q = query_scheduler(
        "darwin",
        None,
        windows::TaskObservation::Metadata {
            daily_installed: true,
            weekly_installed: false,
            daily_paused: false,
            weekly_paused: false,
        },
    )
    .unwrap();
    assert_eq!(q.labels, vec!["com.prometheas.zen-backup.daily", "com.prometheas.zen-backup.weekly"]);
}

#[test]
fn feedback_issues_and_report() {
    let answers = vec![
        ("title".to_string(), "Bug title".to_string()),
        ("description".to_string(), "Desc".to_string()),
        ("steps_to_reproduce".to_string(), "Step".to_string()),
    ];
    let issue = build_feedback_issue("bug", &answers);
    assert_eq!(issue.title, "[Bug]: Bug title");
    assert_eq!(
        issue.body,
        "## Description\nDesc\n\n## Steps to Reproduce\nStep\n\n## Expected Behavior\n"
    );
    assert_eq!(issue.labels, vec!["bug", "triage"]);
    let feature = build_feedback_issue("request", &vec![]);
    assert_eq!(feature.title, "[Feature]: Untitled feature");
    assert!(feature.body.ends_with("## Relevant Platforms\nall"));
    assert_eq!(feature.labels, vec!["feature", "enhancement"]);
    assert!(feedback_template_url("bug").ends_with("template=bug-report.yml"));
    let out = run_feedback("request", Ok(()), FeedbackDelivery::Browser { opened: true });
    assert_eq!(out.exit_code, 0);
    assert!(out.stdout.contains("Opened feedback URL:"));
    let out = run_feedback("bug", Ok(()), FeedbackDelivery::Issue(Ok("https://x/1".to_string())));
    assert_eq!(out.stdout, "Created issue: https://x/1");
    let out = run_feedback("other", Ok(()), FeedbackDelivery::Browser { opened: true });
    assert_eq!(out.stderr, "Usage: zen-backup feedback <bug|request>");
    let out = run_feedback("bug", Ok(()), FeedbackDelivery::Browser { opened: false });
    assert_eq!(out.exit_code, 1);
    assert!(out.stderr.starts_with("Failed to open browser.\nOpen this URL manually: https://"));
    assert!(is_backup_kind("daily") && is_backup_kind("weekly") && !is_backup_kind("monthly"));
}

#[test]
fn prefilled_answers_from_json() {
    let answers = feedback_answers(
        r#"{"title":"Feature","problem":"Problem","solution":"Solution","platforms":"all","count":3}"#,
    )
    .unwrap();
    assert_eq!(answers.len(), 4);
    assert!(answers.contains(&("title".to_string(), "Feature".to_string())));
    assert!(!answers.iter().any(|(k, _)| k == "count"));
    assert_eq!(feedback_answers("not json").unwrap_err(), "invalid feedback answers json");
    assert!(feedback_answers("[1, 2]").unwrap().is_empty());
    let issue = build_feedback_issue("request", &answers);
    assert_eq!(issue.title, "[Feature]: Feature");
}

#[test]
fn environment_references_are_expanded() {
    let env = vec![
        ("HOME".to_string(), "/home/u".to_string()),
        ("CLOUD_1".to_string(), "/mnt/cloud".to_string()),
    ];
    assert_eq!(expand_env_vars("$HOME/zen", &env), "/home/u/zen");
    assert_eq!(expand_env_vars("${CLOUD_1}/backups", &env), "/mnt/cloud/backups");
    assert_eq!(expand_env_vars("$MISSING/x", &env), "/x");
    assert_eq!(expand_env_vars("cost $5 and $", &env), "cost  and $");
    assert_eq!(expand_env_vars("a$-b", &env), "a$-b");
    assert_eq!(expand_env_vars("${HOME", &env), "${HOME");
    assert_eq!(expand_env_vars("plain", &env), "plain");
}

#[test]
fn settings_file_is_escaped() {
    let text = to_toml("C:\\Users\\me \"x\"", "/b", Some("/cloud"), "/c/settings.toml");
    assert!(text.starts_with("[profile]\npath = \"C:\\\\Users\\\\me \\\"x\\\"\"\n"));
    assert!(text.contains("cloud_path = \"/cloud\"\n[retention]"));
    assert!(text.ends_with("[_meta]\nconfig_path = \"/c/settings.toml\"\n"));
    let local = to_toml("/p", "/b", None, "/c");
    assert!(local.contains("local_path = \"/b\"\n[retention]"));
}

#[test]
fn renders_schedule_help() {
    let stdout = render_schedule_help();
    assert!(stdout.contains("zen-backup schedule"));
    assert!(stdout.contains("resume = start"));
}

#[test]
fn feedback_bug_uses_gh_when_available() {
    let answers = feedback_answers(
        r#"{"title":"Bug title","description":"Desc","steps_to_reproduce":"Step","expected_behavior":"Expected"}"#,
    );
    assert!(answers.is_ok());
    let issue = build_feedback_issue("bug", &answers.unwrap());
    assert_eq!(issue.title, "[Bug]: Bug title");
    let created = "https://github.com/prometheas/zen-browser-profile-snapshots/issues/1".to_string();
    let out = run_feedback("bug", Ok(()), FeedbackDelivery::Issue(Ok(created)));
    assert_eq!(out.exit_code, 0);
    assert!(out.stdout.contains("Created issue:"));
}

#[test]
fn feedback_request_falls_back_to_browser() {
    let answers = feedback_answers(
        r#"{"title":"Feature","problem":"Problem","solution":"Solution","platforms":"all"}"#,
    );
    assert!(answers.is_ok());
    let out = run_feedback("request", Ok(()), FeedbackDelivery::Browser { opened: true });
    assert_eq!(out.exit_code, 0);
    assert!(out.stdout.contains("Opened feedback URL:"));
}

#[test]
fn answers_keep_string_members_in_order() {
    let members = vec![
        ("count".to_string(), None),
        ("problem".to_string(), Some("P".to_string())),
        ("title".to_string(), Some("T".to_string())),
    ];
    assert_eq!(
        answers_from_members(&members),
        vec![("problem".to_string(), "P".to_string()), ("title".to_string(), "T".to_string())]
    );
}
