//! Scheduled jobs as launchd agents.
use vstd::prelude::*;
use crate::config::AppConfig;
use crate::platform::{SchedulerFileOp, SchedulerStatus, FileOpView, ops_view, status_of,
    status_from_markers, write_op, remove_op, DAILY_LABEL, WEEKLY_LABEL};
use crate::text::concat3;

verus! {

/// The property list of one launchd job.
pub open spec fn plist_text(label: Seq<char>, kind: Seq<char>, backup_root: Seq<char>) -> Seq<char> {
    "<?xml version=\"1.0\" encoding=\"UTF-8\"?>\n<plist version=\"1.0\">\n  <dict>\n    <key>Label</key><string>"@
        + label
        + "</string>\n    <key>ProgramArguments</key>\n    <array>\n      <string>zen-backup</string>\n      <string>backup</string>\n      <string>"@
        + kind
        + "</string>\n    </array>\n    <key>EnvironmentVariables</key>\n    <dict>\n      <key>ZEN_BACKUP_BACKUP_ROOT</key><string>"@
        + backup_root + "</string>\n    </dict>\n  </dict>\n</plist>\n"@
}

/// Renders the property list of one launchd job.
pub fn plist_template(label: &str, kind: &str, backup_root: &str) -> (r: String)
    ensures
        r@ == plist_text(label@, kind@, backup_root@),
{
    let mut r = concat3(
        "<?xml version=\"1.0\" encoding=\"UTF-8\"?>\n<plist version=\"1.0\">\n  <dict>\n    <key>Label</key><string>",
        label,
        "</string>\n    <key>ProgramArguments</key>\n    <array>\n      <string>zen-backup</string>\n      <string>backup</string>\n      <string>",
    );
    r.append(kind);
    r.append(
        "</string>\n    </array>\n    <key>EnvironmentVariables</key>\n    <dict>\n      <key>ZEN_BACKUP_BACKUP_ROOT</key><string>",
    );
    r.append(backup_root);
    r.append("</string>\n    </dict>\n  </dict>\n</plist>\n");
    r
}

/// Files written or removed to install the agents.
pub open spec fn install_ops(backup_root: Seq<char>) -> Seq<FileOpView> {
    seq![
        FileOpView::Write("com.prometheas.zen-backup.daily.plist"@, plist_text(DAILY_LABEL@, "daily"@, backup_root)),
        FileOpView::Write("com.prometheas.zen-backup.weekly.plist"@, plist_text(WEEKLY_LABEL@, "weekly"@, backup_root)),
        FileOpView::Write(".zen-backup-loaded"@, "1"@),
        FileOpView::Remove(".disabled-com.prometheas.zen-backup.daily"@),
        FileOpView::Remove(".disabled-com.prometheas.zen-backup.weekly"@),
    ]
}

/// The file operations, in the user's LaunchAgents directory, that install
/// the daily and weekly agents and leave them active.
pub fn install(config: &AppConfig) -> (r: Vec<SchedulerFileOp>)
    ensures
        ops_view(r@) == install_ops(config.backup_local_path@),
{
    let root = config.backup_local_path.as_str();
    let r = vec![
        write_op("com.prometheas.zen-backup.daily.plist", plist_template(DAILY_LABEL, "daily", root).as_str()),
        write_op("com.prometheas.zen-backup.weekly.plist", plist_template(WEEKLY_LABEL, "weekly", root).as_str()),
        write_op(".zen-backup-loaded", "1"),
        remove_op(".disabled-com.prometheas.zen-backup.daily"),
        remove_op(".disabled-com.prometheas.zen-backup.weekly"),
    ];
    proof {
        assert(ops_view(r@) =~= install_ops(config.backup_local_path@));
    }
    r
}

/// Files removed to uninstall the agents.
pub open spec fn uninstall_ops() -> Seq<FileOpView> {
    seq![
        FileOpView::Remove("com.prometheas.zen-backup.daily.plist"@),
        FileOpView::Remove("com.prometheas.zen-backup.weekly.plist"@),
        FileOpView::Remove(".zen-backup-loaded"@),
        FileOpView::Remove(".disabled-com.prometheas.zen-backup.daily"@),
        FileOpView::Remove(".disabled-com.prometheas.zen-backup.weekly"@),
    ]
}

/// The file operations that remove every file the agents use.
pub fn uninstall() -> (r: Vec<SchedulerFileOp>)
    ensures
        ops_view(r@) == uninstall_ops(),
{
    let r = vec![
        remove_op("com.prometheas.zen-backup.daily.plist"),
        remove_op("com.prometheas.zen-backup.weekly.plist"),
        remove_op(".zen-backup-loaded"),
        remove_op(".disabled-com.prometheas.zen-backup.daily"),
        remove_op(".disabled-com.prometheas.zen-backup.weekly"),
    ];
    proof {
        assert(ops_view(r@) =~= uninstall_ops());
    }
    r
}

/// Files changed to resume the agents.
pub open spec fn start_ops() -> Seq<FileOpView> {
    seq![
        FileOpView::Remove(".disabled-com.prometheas.zen-backup.daily"@),
        FileOpView::Remove(".disabled-com.prometheas.zen-backup.weekly"@),
        FileOpView::Write(".zen-backup-loaded"@, "1"@),
    ]
}

/// The file operations that resume both agents; none unless both are
/// installed.
pub fn start(daily_installed: bool, weekly_installed: bool) -> (r: Vec<SchedulerFileOp>)
    ensures
        ops_view(r@) == if daily_installed && weekly_installed {
            start_ops()
        } else {
            Seq::empty()
        },
{
    if !daily_installed || !weekly_installed {
        let r: Vec<SchedulerFileOp> = Vec::new();
        proof {
            assert(ops_view(r@) =~= Seq::<FileOpView>::empty());
        }
        return r;
    }
    let r = vec![
        remove_op(".disabled-com.prometheas.zen-backup.daily"),
        remove_op(".disabled-com.prometheas.zen-backup.weekly"),
        write_op(".zen-backup-loaded", "1"),
    ];
    proof {
        assert(ops_view(r@) =~= start_ops());
    }
    r
}

/// Files changed to pause the agents.
pub open spec fn stop_ops() -> Seq<FileOpView> {
    seq![
        FileOpView::Write(".disabled-com.prometheas.zen-backup.daily"@, "1"@),
        FileOpView::Write(".disabled-com.prometheas.zen-backup.weekly"@, "1"@),
        FileOpView::Write(".zen-backup-loaded"@, "1"@),
    ]
}

/// The file operations that pause both agents; none unless both are
/// installed.
pub fn stop(daily_installed: bool, weekly_installed: bool) -> (r: Vec<SchedulerFileOp>)
    ensures
        ops_view(r@) == if daily_installed && weekly_installed {
            stop_ops()
        } else {
            Seq::empty()
        },
{
    if !daily_installed || !weekly_installed {
        let r: Vec<SchedulerFileOp> = Vec::new();
        proof {
            assert(ops_view(r@) =~= Seq::<FileOpView>::empty());
        }
        return r;
    }
    let r = vec![
        write_op(".disabled-com.prometheas.zen-backup.daily", "1"),
        write_op(".disabled-com.prometheas.zen-backup.weekly", "1"),
        write_op(".zen-backup-loaded", "1"),
    ];
    proof {
        assert(ops_view(r@) =~= stop_ops());
    }
    r
}

/// The state of the agents from which property lists and disabled markers
/// exist.
pub fn query(daily_installed: bool, weekly_installed: bool, daily_paused: bool, weekly_paused: bool) -> (r:
    SchedulerStatus)
    ensures
        r@ == status_of(DAILY_LABEL@, WEEKLY_LABEL@, daily_installed, weekly_installed, daily_paused, weekly_paused),
{
    status_from_markers(DAILY_LABEL, WEEKLY_LABEL, daily_installed, weekly_installed, daily_paused, weekly_paused)
}

} // verus!
