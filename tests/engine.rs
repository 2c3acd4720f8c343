use zen_backup::config::AppConfig;
use zen_backup::platform::linux;
use zen_backup::backup::{backup_report, backup_step, BackupAction, BackupEvent, BackupFailure, BackupStage, MirrorResult};
use zen_backup::filter::{is_sqlite_file, should_include};
use zen_backup::naming::{build_archive_name, next_archive_name};
use zen_backup::restore::{
    databases_to_verify, entry_escapes, first_existing, is_windows_abs, pre_restore_path, restore_report, restore_step, sanitize_tar_entry,
    validate_listing, RestoreAction, RestoreEvent, RestoreFailure, RestoreStage,
};
use zen_backup::retention::{date_to_days, parse_archive_date, select_expired, should_prune};
use zen_backup::snapshot::{entry_action, EntryAction, SnapshotLog};
use zen_backup::sqlite::{
    integrity_passed, sqlite_copy_step, sqlite_marked_corrupt, SqliteCopyAction, SqliteCopyEvent,
    SqliteCopyOutcome, SqliteCopyState,
};
use zen_backup::status::{status_report, StatusFacts, staleness_from_days, daily_staleness_message, is_listed_archive, list_report, newest_archive, ArchiveEntry};

fn names(v: &[&str]) -> Vec<String> {
    v.iter().map(|s| s.to_string()).collect()
}

#[test]
fn excluded_directories_and_default_storage() {
    assert!(!should_include("cache2", "cache2", true));
    assert!(!should_include("cache2/entries/ABC", "ABC", false));
    assert!(!should_include("crashes/events", "events", true));
    assert!(!should_include("storage/temporary/x", "x", false));
    assert!(!should_include("storage/default/chrome/idb", "idb", true));
    assert!(should_include("storage/default", "default", true));
    assert!(!should_include("storage/default/https+++example.com", "https+++example.com", true));
    assert!(!should_include("storage/default/http+++a/ls/data.sqlite", "data.sqlite", false));
    assert!(should_include("storage/permanent/chrome", "chrome", true));
    assert!(should_include("cache2x/file", "file", false));
}

#[test]
fn denied_and_transient_files() {
    assert!(!should_include("cookies.sqlite", "cookies.sqlite", false));
    assert!(!should_include("key4.db", "key4.db", false));
    assert!(!should_include("logins.json", "logins.json", false));
    assert!(!should_include(".parentlock", ".parentlock", false));
    assert!(!should_include("places.sqlite-wal", "places.sqlite-wal", false));
    assert!(!should_include("places.sqlite-shm", "places.sqlite-shm", false));
    assert!(should_include("places.sqlite", "places.sqlite", false));
    assert!(should_include("prefs.js", "prefs.js", false));
    assert!(is_sqlite_file("places.sqlite") && is_sqlite_file("x.db") && !is_sqlite_file("prefs.js"));
    assert_eq!(entry_action("places.sqlite", "places.sqlite", false), EntryAction::CopyDatabase);
    assert_eq!(entry_action("prefs.js", "prefs.js", false), EntryAction::CopyFile);
    assert_eq!(entry_action("extensions", "extensions", true), EntryAction::Descend);
    assert_eq!(entry_action("cache2", "cache2", true), EntryAction::Skip);
}

#[test]
fn archive_names_collide_into_suffixes() {
    assert_eq!(build_archive_name("daily", "2026-01-16"), "zen-backup-daily-2026-01-16.tar.gz");
    let none: Vec<String> = vec![];
    let first = next_archive_name(&none, "daily", "2026-01-16");
    assert_eq!(first, "zen-backup-daily-2026-01-16.tar.gz");
    let second = next_archive_name(&vec![first.clone()], "daily", "2026-01-16");
    assert_eq!(second, "zen-backup-daily-2026-01-16-2.tar.gz");
    let third = next_archive_name(&vec![first.clone(), second.clone()], "daily", "2026-01-16");
    assert_eq!(third, "zen-backup-daily-2026-01-16-3.tar.gz");
    let gap = next_archive_name(
        &names(&["zen-backup-daily-2026-01-16.tar.gz", "zen-backup-daily-2026-01-16-3.tar.gz"]),
        "daily",
        "2026-01-16",
    );
    assert_eq!(gap, "zen-backup-daily-2026-01-16-2.tar.gz");
    let other_day = next_archive_name(&names(&["zen-backup-daily-2026-01-15.tar.gz"]), "daily", "2026-01-16");
    assert_eq!(other_day, "zen-backup-daily-2026-01-16.tar.gz");
    let many: Vec<String> = (2..=11)
        .map(|n| format!("zen-backup-weekly-2026-01-16-{n}.tar.gz"))
        .chain(std::iter::once("zen-backup-weekly-2026-01-16.tar.gz".to_string()))
        .collect();
    assert_eq!(next_archive_name(&many, "weekly", "2026-01-16"), "zen-backup-weekly-2026-01-16-12.tar.gz");
}

#[test]
fn archive_dates_and_day_numbers() {
    assert_eq!(parse_archive_date("zen-backup-daily-2025-12-16.tar.gz").as_deref(), Some("2025-12-16"));
    assert_eq!(parse_archive_date("zen-backup-daily-2025-12-16-2.tar.gz").as_deref(), Some("2025-12-16"));
    assert_eq!(parse_archive_date("zen-backup-daily-25-12-16.tar.gz"), None);
    assert_eq!(parse_archive_date("notes.txt"), None);
    assert_eq!(date_to_days("2026-01-16"), Some(2026 * 372 + 31 + 16));
    assert_eq!(date_to_days("2026-1x-16"), None);
    assert_eq!(date_to_days("2026-01"), None);
    assert_eq!(date_to_days("999999999999-01-01"), Some(999_999_999_999 * 372 + 31 + 1));
    assert_eq!(date_to_days("99999999999999999-01-01"), None);
}

#[test]
fn retention_scenario_thirty_days() {
    assert!(should_prune("zen-backup-daily-2025-12-16.tar.gz", "daily", 30, "2026-01-16"));
    assert!(!should_prune("zen-backup-daily-2025-12-17.tar.gz", "daily", 30, "2026-01-16"));
}

#[test]
fn retention_boundary_and_foreign_names() {
    assert!(!should_prune("zen-backup-daily-2026-01-09.tar.gz", "daily", 7, "2026-01-16"));
    assert!(should_prune("zen-backup-daily-2026-01-08.tar.gz", "daily", 7, "2026-01-16"));
    assert!(should_prune("zen-backup-daily-2026-01-08-2.tar.gz", "daily", 7, "2026-01-16"));
    assert!(!should_prune("zen-backup-weekly-2020-01-01.tar.gz", "daily", 7, "2026-01-16"));
    assert!(!should_prune("notes-2020-01-01.tar.gz", "daily", 7, "2026-01-16"));
    assert!(!should_prune("zen-backup-daily-2020-01-01.zip", "daily", 7, "2026-01-16"));
    assert!(!should_prune("zen-backup-daily-2020-01-01-notes.tar.gz", "daily", 30, "2026-01-16"));
    assert!(!should_prune("zen-backup-daily-2020-01-01.bak.tar.gz", "daily", 30, "2026-01-16"));
    assert!(!should_prune("zen-backup-daily-2020-01-01-.tar.gz", "daily", 30, "2026-01-16"));
    assert!(!should_prune("zen-backup-daily-2020-1-01.tar.gz", "daily", 30, "2026-01-16"));
    assert!(should_prune("zen-backup-daily-2020-01-01-12.tar.gz", "daily", 30, "2026-01-16"));
    let all = names(&[
        "zen-backup-daily-2025-12-16.tar.gz",
        "readme.txt",
        "zen-backup-daily-2025-12-17.tar.gz",
        "zen-backup-daily-2025-01-01-2.tar.gz",
    ]);
    assert_eq!(
        select_expired(&all, "daily", 30, "2026-01-16"),
        names(&["zen-backup-daily-2025-12-16.tar.gz", "zen-backup-daily-2025-01-01-2.tar.gz"])
    );
    let empty: Vec<String> = vec![];
    assert!(select_expired(&empty, "daily", 30, "2026-01-16").is_empty());
}

#[test]
fn corrupt_database_does_not_stop_snapshot() {
    let mut log = SnapshotLog::new();
    log.record("prefs.js", SqliteCopyOutcome::Clean);
    log.record("favicons.sqlite", SqliteCopyOutcome::Corrupt);
    log.record("places.sqlite", SqliteCopyOutcome::FallbackUsed);
    log.record("formhistory.sqlite", SqliteCopyOutcome::Clean);
    assert!(!log.failed);
    assert_eq!(log.captured, names(&["prefs.js", "places.sqlite", "formhistory.sqlite"]));
    assert_eq!(
        log.warnings,
        names(&["corrupt sqlite skipped: favicons.sqlite", "fallback sqlite copy used for places.sqlite"])
    );
    log.record("bad", SqliteCopyOutcome::Fatal);
    log.record("later.js", SqliteCopyOutcome::Clean);
    assert!(log.failed);
    assert_eq!(log.captured.len(), 3);
}

#[test]
fn sqlite_copy_procedure() {
    let (s, a) = sqlite_copy_step(
        SqliteCopyState::Start,
        SqliteCopyEvent::Started { marked_corrupt: true, hot_backup_wanted: true },
    );
    assert_eq!((s, a), (SqliteCopyState::Finished(SqliteCopyOutcome::Corrupt), SqliteCopyAction::Stop));
    let (s, a) = sqlite_copy_step(
        SqliteCopyState::Start,
        SqliteCopyEvent::Started { marked_corrupt: false, hot_backup_wanted: true },
    );
    assert_eq!(a, SqliteCopyAction::RunHotBackup);
    let (s2, a2) = sqlite_copy_step(s, SqliteCopyEvent::HotBackupExited { success: false });
    assert_eq!(a2, SqliteCopyAction::CopyAndCheckpoint);
    let (s3, a3) = sqlite_copy_step(s2, SqliteCopyEvent::FallbackCopied { success: true });
    assert_eq!(a3, SqliteCopyAction::CheckIntegrity);
    let (s4, _) = sqlite_copy_step(s3, SqliteCopyEvent::IntegrityChecked { passed: true });
    assert_eq!(s4, SqliteCopyState::Finished(SqliteCopyOutcome::FallbackUsed));
    let (h, _) = sqlite_copy_step(s, SqliteCopyEvent::HotBackupExited { success: true });
    let (h2, a2) = sqlite_copy_step(h, SqliteCopyEvent::IntegrityChecked { passed: false });
    assert_eq!(h2, SqliteCopyState::Finished(SqliteCopyOutcome::Corrupt));
    assert_eq!(a2, SqliteCopyAction::DiscardCopy);
    let (_, a5) = sqlite_copy_step(s3, SqliteCopyEvent::IntegrityChecked { passed: false });
    assert_eq!(a5, SqliteCopyAction::DiscardCopy);
    let (f, _) = sqlite_copy_step(s, SqliteCopyEvent::ToolUnavailable);
    assert_eq!(f, SqliteCopyState::Finished(SqliteCopyOutcome::Fatal));
    let (f2, _) = sqlite_copy_step(s2, SqliteCopyEvent::FallbackCopied { success: false });
    assert_eq!(f2, SqliteCopyState::Finished(SqliteCopyOutcome::Fatal));
    let (h3, _) = sqlite_copy_step(h, SqliteCopyEvent::IntegrityChecked { passed: true });
    assert_eq!(h3, SqliteCopyState::Finished(SqliteCopyOutcome::Clean));
}

#[test]
fn corruption_marker_and_integrity_report() {
    assert!(sqlite_marked_corrupt("places.sqlite", "/p/places.sqlite", "places.sqlite"));
    assert!(sqlite_marked_corrupt("/p/places.sqlite", "/p/places.sqlite", "places.sqlite"));
    assert!(!sqlite_marked_corrupt("", "", ""));
    assert!(!sqlite_marked_corrupt("other.sqlite", "/p/places.sqlite", "places.sqlite"));
    assert!(integrity_passed(true, "OK\n"));
    assert!(integrity_passed(true, "ok"));
    assert!(!integrity_passed(false, "ok"));
    assert!(!integrity_passed(true, "*** in database main ***\nPage 3: btree error"));
    assert!(!integrity_passed(true, "moz_bookmarks: malformed"));
    assert!(!integrity_passed(true, "row 3 missing from index moz_places_url_hashindex\nok"));
    assert!(integrity_passed(true, "Ok  \r\n"));
}

#[test]
fn listing_with_traversal_or_drive_path_is_rejected() {
    let err = validate_listing("./\n./prefs.js\n../../etc/passwd\n").unwrap_err();
    assert_eq!(err, "invalid archive entry: ../../etc/passwd");
    let err = validate_listing("./a/../../b\r\n").unwrap_err();
    assert_eq!(err, "invalid archive entry: ./a/../../b");
    let err = validate_listing("C:/Windows/system.ini\n").unwrap_err();
    assert_eq!(err, "invalid archive entry: C:/Windows/system.ini");
    assert!(validate_listing("C:\\Windows\\x\n").is_err());
    assert_eq!(validate_listing("./a\nC:/\n").unwrap_err(), "invalid archive entry: C:/");
    assert!(validate_listing("C:\\\n").is_err());
    assert!(validate_listing("./\n./prefs.js\n./storage/default/\n").is_ok());
    assert!(validate_listing("").is_ok());
    let err = validate_listing("./a\n/etc/passwd\n").unwrap_err();
    assert_eq!(err, "invalid archive entry: /etc/passwd");
    assert!(validate_listing(" \\Windows\\x\n").is_err());
    assert!(entry_escapes(" ..\\x "));
    assert!(!entry_escapes("a..b/c"));
}

#[test]
fn tar_entries_are_normalized() {
    assert_eq!(sanitize_tar_entry("  ././/a\\b/c  "), "a/b/c");
    assert_eq!(sanitize_tar_entry("./"), "");
    assert_eq!(sanitize_tar_entry("\u{3000}x\u{a0}"), "x");
    assert!(is_windows_abs("C:/x"));
    assert!(is_windows_abs("C:/"));
    assert!(!is_windows_abs("C:"));
    assert!(!is_windows_abs("ab/cd"));
}

#[test]
fn pre_restore_backup_names() {
    let none: Vec<String> = vec![];
    assert_eq!(pre_restore_path("/home/u/.zen/default", "2026-01-16", &none), "/home/u/.zen/default.pre-restore-2026-01-16");
    let taken = names(&["/home/u/.zen/default.pre-restore-2026-01-16"]);
    assert_eq!(pre_restore_path("/home/u/.zen/default", "2026-01-16", &taken), "/home/u/.zen/default.pre-restore-2026-01-16-2");
    assert_eq!(first_existing(&vec![false, true, true]), Some(1));
    assert_eq!(first_existing(&vec![false, false]), None);
}

#[test]
fn restore_procedure() {
    let (s, a) = restore_step(RestoreStage::Start, &RestoreEvent::Begin { browser_running: true });
    assert_eq!((s, a), (RestoreStage::Failed(RestoreFailure::BrowserRunning), RestoreAction::Finish));
    let (s, a) = restore_step(RestoreStage::Start, &RestoreEvent::Begin { browser_running: false });
    assert_eq!(a, RestoreAction::FindArchive);
    let (s, a) = restore_step(s, &RestoreEvent::Resolved { found: true });
    assert_eq!(a, RestoreAction::ListEntries);
    let bad = restore_step(s, &RestoreEvent::Listed { tool_ok: true, listing: "../../etc/passwd\n".to_string() });
    assert_eq!(bad, (RestoreStage::Failed(RestoreFailure::UnsafeEntry), RestoreAction::Finish));
    let (s2, a2) = restore_step(s, &RestoreEvent::Listed { tool_ok: true, listing: "./prefs.js\n".to_string() });
    assert_eq!(a2, RestoreAction::ExtractToStaging);
    let (s3, a3) = restore_step(s2, &RestoreEvent::Extracted { ok: true });
    assert_eq!(a3, RestoreAction::RotateLive);
    let (s4, a4) = restore_step(s3, &RestoreEvent::Rotated { ok: true });
    assert_eq!(a4, RestoreAction::InstallStaged);
    let (s5, a5) = restore_step(s4, &RestoreEvent::Installed { ok: true });
    assert_eq!(a5, RestoreAction::VerifyDatabases);
    let (s6, _) = restore_step(s5, &RestoreEvent::Verified { ok: false });
    assert_eq!(s6, RestoreStage::Failed(RestoreFailure::VerifyFailed));
    let missing = restore_step(RestoreStage::Resolving, &RestoreEvent::Resolved { found: false });
    assert_eq!(missing.0, RestoreStage::Failed(RestoreFailure::ArchiveNotFound));
}

#[test]
fn status_helpers() {
    assert!(is_listed_archive("zen-backup-daily-2026-01-16.tar.gz", "daily"));
    assert!(!is_listed_archive("zen-backup-weekly-2026-01-16.tar.gz", "daily"));
    let entries = vec![
        ArchiveEntry { kind: "daily".to_string(), name: "zen-backup-daily-2026-01-15.tar.gz".to_string(), size_bytes: 1 },
        ArchiveEntry { kind: "weekly".to_string(), name: "zen-backup-weekly-2026-01-18.tar.gz".to_string(), size_bytes: 2 },
        ArchiveEntry { kind: "daily".to_string(), name: "zen-backup-daily-2026-01-16.tar.gz".to_string(), size_bytes: 3 },
        ArchiveEntry { kind: "daily".to_string(), name: "zen-backup-daily-2026-01-02.tar.gz".to_string(), size_bytes: 4 },
    ];
    assert_eq!(newest_archive(&entries, "daily"), Some(2));
    assert_eq!(newest_archive(&entries, "weekly"), Some(1));
    assert_eq!(newest_archive(&entries, "monthly"), None);
    assert_eq!(
        daily_staleness_message("zen-backup-daily-2026-01-10.tar.gz", "2026-01-16").as_deref(),
        Some("Warning: latest daily backup is stale.")
    );
    assert_eq!(
        daily_staleness_message("zen-backup-daily-2026-01-13.tar.gz", "2026-01-16").as_deref(),
        Some("Health: recent daily backup exists.")
    );
    assert_eq!(
        daily_staleness_message("zen-backup-daily-2025-12-31.tar.gz", "2026-01-02").as_deref(),
        Some("Health: recent daily backup exists.")
    );
    assert_eq!(daily_staleness_message("zen-backup-daily-2026-02-30.tar.gz", "2026-03-05"), None);
}

#[test]
fn restore_reports() {
    let ok = restore_report(RestoreStage::Succeeded, "a.tar.gz", "/b/daily/a.tar.gz", "a.tar.gz", "/p.pre-restore-2026-01-16", "");
    assert_eq!(ok.exit_code, 0);
    assert_eq!(ok.stdout, "Restored from archive: /b/daily/a.tar.gz\nPre-restore backup: /p.pre-restore-2026-01-16");
    let running = restore_report(RestoreStage::Failed(RestoreFailure::BrowserRunning), "a", "", "", "", "");
    assert_eq!(running.stderr, "Zen browser must be closed before restoring");
    let missing = restore_report(RestoreStage::Failed(RestoreFailure::ArchiveNotFound), "a.tar.gz", "", "", "", "");
    assert_eq!(missing.stderr, "archive not found: a.tar.gz");
    let unsafe_entry = restore_report(
        RestoreStage::Failed(RestoreFailure::UnsafeEntry),
        "a",
        "",
        "a.tar.gz",
        "",
        "invalid archive entry: ../x",
    );
    assert_eq!(unsafe_entry.stderr, "invalid archive entry: ../x");
    let no_tar = restore_report(RestoreStage::Failed(RestoreFailure::InvalidArchive), "a", "", "a.tar.gz", "", "invalid or corrupted archive");
    assert_eq!(no_tar.stderr, "invalid or corrupted archive");
    let corrupt = restore_report(RestoreStage::Failed(RestoreFailure::InvalidArchive), "a", "", "a.tar.gz", "", "");
    assert_eq!(corrupt.stderr, "invalid or corrupted archive: a.tar.gz");
    let bad = restore_report(RestoreStage::Failed(RestoreFailure::VerifyFailed), "a", "", "a.tar.gz", "", "detail");
    assert_eq!((bad.exit_code, bad.stderr.as_str()), (1, "invalid or corrupted archive: a.tar.gz"));
}

#[test]
fn restore_checks_every_database() {
    let files = names(&["/p/places.sqlite", "/p/prefs.js", "/p/storage/x.db", "/p/a.sqlite-wal"]);
    assert_eq!(databases_to_verify(&files), names(&["/p/places.sqlite", "/p/storage/x.db"]));
}

#[test]
fn backup_procedure() {
    let (s, a) = backup_step(BackupStage::Start, &BackupEvent::Begin { kind_valid: false });
    assert_eq!((s, a), (BackupStage::Failed(BackupFailure::InvalidKind), BackupAction::Finish));
    assert_eq!(backup_report(s, "monthly", "", "", "").stderr, "backup kind must be daily or weekly");
    let (s, _) = backup_step(BackupStage::Start, &BackupEvent::Begin { kind_valid: true });
    let (s, a) = backup_step(s, &BackupEvent::ConfigLoaded { ok: true });
    assert_eq!(a, BackupAction::CheckProfile);
    let missing = backup_step(s, &BackupEvent::ProfileChecked { exists: false });
    assert_eq!(backup_report(missing.0, "daily", "", "/p", "").stderr, "profile path not found: /p");
    let (s, _) = backup_step(s, &BackupEvent::ProfileChecked { exists: true });
    let (s, a) = backup_step(s, &BackupEvent::DirectoryCreated { ok: true });
    assert_eq!(a, BackupAction::BuildArchive);
    let (f, fa) = backup_step(s, &BackupEvent::ArchiveBuilt { ok: false });
    assert_eq!(fa, BackupAction::DeleteArchive);
    let (f, fa) = backup_step(f, &BackupEvent::ArchiveDeleted);
    assert_eq!((f, fa), (BackupStage::Failed(BackupFailure::ArchiveFailed), BackupAction::Finish));
    let failed = backup_report(f, "daily", "/b/daily/x.tar.gz", "/p", "");
    assert_eq!((failed.exit_code, failed.stdout.as_str(), failed.stderr.as_str()), (1, "", "archive creation failed"));
    let (s, a) = backup_step(s, &BackupEvent::ArchiveBuilt { ok: true });
    assert_eq!(a, BackupAction::PruneLocal);
    let (s, a) = backup_step(s, &BackupEvent::Pruned);
    assert_eq!(a, BackupAction::CopyToCloud);
    let copy_failed = backup_step(s, &BackupEvent::MirrorCopied { configured: true, directory_ok: true, copy_ok: false });
    assert_eq!(copy_failed.0, BackupStage::Succeeded(MirrorResult::CopyFailed));
    let out = backup_report(copy_failed.0, "daily", "/b/daily/x.tar.gz", "/p", "");
    assert_eq!(out.exit_code, 1);
    assert_eq!(out.stdout, "Created daily backup: /b/daily/x.tar.gz");
    assert_eq!(out.stderr, "cloud sync failed: failed to copy archive");
    let (m, ma) = backup_step(s, &BackupEvent::MirrorCopied { configured: true, directory_ok: true, copy_ok: true });
    assert_eq!(ma, BackupAction::PruneCloud);
    let (done, _) = backup_step(m, &BackupEvent::Pruned);
    let ok = backup_report(done, "weekly", "/b/weekly/y.tar.gz", "/p", "");
    assert_eq!((ok.exit_code, ok.stdout.as_str(), ok.stderr.as_str()), (0, "Created weekly backup: /b/weekly/y.tar.gz", ""));
    let local_only = backup_step(s, &BackupEvent::MirrorCopied { configured: false, directory_ok: false, copy_ok: false });
    assert_eq!(backup_report(local_only.0, "daily", "/x", "", "").exit_code, 0);
}

#[test]
fn list_reports() {
    let empty: Vec<(String, String)> = vec![];
    assert_eq!(list_report(&empty, &empty).stdout, "No backups found (empty backup directory).");
    let daily = vec![("zen-backup-daily-2026-01-16.tar.gz".to_string(), "1.5 KB".to_string())];
    let out = list_report(&daily, &empty);
    assert_eq!(out.exit_code, 0);
    assert_eq!(out.stdout, "daily:\n  zen-backup-daily-2026-01-16.tar.gz (1.5 KB)\nweekly:");
}

#[test]
fn health_line_from_day_numbers() {
    assert_eq!(staleness_from_days(100, 104), "Warning: latest daily backup is stale.");
    assert_eq!(staleness_from_days(100, 103), "Health: recent daily backup exists.");
    assert_eq!(staleness_from_days(100, 90), "Health: recent daily backup exists.");
}

fn status_config() -> AppConfig {
    AppConfig {
        profile_path: "/p".to_string(),
        backup_local_path: "/b".to_string(),
        backup_cloud_path: Some("/cloud".to_string()),
        retention_daily_days: 30,
        retention_weekly_days: -1,
        schedule_daily_time: "12:30".to_string(),
        schedule_weekly_day: "Sunday".to_string(),
        schedule_weekly_time: "02:00".to_string(),
        notifications_enabled: true,
        config_path: "/c".to_string(),
    }
}

fn facts(exists: bool, readable: bool, scheduler: Result<zen_backup::platform::SchedulerStatus, String>) -> StatusFacts {
    StatusFacts {
        backup_dir_exists: exists,
        readable,
        latest_daily: Some(("zen-backup-daily-2026-01-16.tar.gz".to_string(), "2 B".to_string())),
        latest_weekly: None,
        usage_total: "2 B".to_string(),
        usage_daily: "2 B".to_string(),
        usage_weekly: "0 B".to_string(),
        health: None,
        scheduler,
    }
}

#[test]
fn status_reports() {
    let header = "Zen Profile Backup Status\nProfile path: /p\nBackup directory: /b\nCloud sync: enabled (/cloud)\nRetention: daily 30 days, weekly -1 days";
    let missing = status_report(&status_config(), facts(false, false, Err("x".to_string())));
    assert_eq!(missing.exit_code, 0);
    assert_eq!(missing.stdout, format!("{header}\nBackup directory not found. Run a backup or check configuration."));
    let denied = status_report(&status_config(), facts(true, false, Err("x".to_string())));
    assert_eq!((denied.exit_code, denied.stderr.as_str()), (1, "Backup directory is not readable."));
    let ok = status_report(&status_config(), facts(true, true, Ok(linux::query(true, true, false, true))));
    assert_eq!(ok.exit_code, 0);
    assert_eq!(
        ok.stdout,
        format!(
            "{header}\nLatest daily: zen-backup-daily-2026-01-16.tar.gz (2 B)\nNo weekly backups yet\nDisk usage total: 2 B\nDisk usage daily: 2 B\nDisk usage weekly: 0 B\nNo backups yet. Run a backup.\nScheduled jobs: paused\n- zen-backup-daily.timer\n- zen-backup-weekly.timer"
        )
    );
    let none = status_report(&status_config(), facts(true, true, Ok(linux::query(false, false, false, false))));
    assert!(none.stdout.ends_with("Scheduled jobs: not installed (not loaded)"));
    let err = status_report(&status_config(), facts(true, true, Err("scheduler down".to_string())));
    assert_eq!((err.exit_code, err.stderr.as_str()), (1, "scheduler down"));
    assert!(err.stdout.ends_with("No backups yet. Run a backup."));
}
