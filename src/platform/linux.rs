//! Scheduled jobs as systemd user timers.
use vstd::prelude::*;
use crate::config::AppConfig;
use crate::platform::{SchedulerFileOp, SchedulerStatus, FileOpView, ops_view, status_of, status_from_markers, write_op, remove_op, DAILY_TIMER, WEEKLY_TIMER};
use crate::text::concat3;

verus! {

/// The timer unit of one backup kind.
pub open spec fn timer_text(kind: Seq<char>, time: Seq<char>) -> Seq<char> {
    "[Unit]\nDescription=Zen Backup "@ + kind + "\n[Timer]\nOnCalendar="@ + time + "\n"@
}

/// Renders the timer unit of one backup kind.
pub fn timer_template(kind: &str, time: &str) -> (r: String)
    ensures
        r@ == timer_text(kind@, time@),
{
    let mut r = concat3("[Unit]\nDescription=Zen Backup ", kind, "\n[Timer]\nOnCalendar=");
    r.append(time);
    r.append("\n");
    r
}

/// Files written or removed to install the timers.
pub open spec fn install_ops(daily_time: Seq<char>, weekly_time: Seq<char>) -> Seq<FileOpView> {
    seq![
        FileOpView::Write("zen-backup-daily.service"@, "[Service]\nType=oneshot\n"@),
        FileOpView::Write("zen-backup-weekly.service"@, "[Service]\nType=oneshot\n"@),
        FileOpView::Write(DAILY_TIMER@, timer_text("daily"@, daily_time)),
        FileOpView::Write(WEEKLY_TIMER@, timer_text("weekly"@, weekly_time)),
        FileOpView::Write(".zen-backup-loaded"@, "1"@),
        FileOpView::Remove(".disabled-zen-backup-daily.timer"@),
        FileOpView::Remove(".disabled-zen-backup-weekly.timer"@),
    ]
}

/// The file operations, in the user's systemd directory, that install the
/// daily and weekly timers at the configured times and leave them active.
pub fn install(config: &AppConfig) -> (r: Vec<SchedulerFileOp>)
    ensures
        ops_view(r@) == install_ops(config.schedule_daily_time@, config.schedule_weekly_time@),
{
    let r = vec![
        write_op("zen-backup-daily.service", "[Service]\nType=oneshot\n"),
        write_op("zen-backup-weekly.service", "[Service]\nType=oneshot\n"),
        write_op(DAILY_TIMER, timer_template("daily", config.schedule_daily_time.as_str()).as_str()),
        write_op(WEEKLY_TIMER, timer_template("weekly", config.schedule_weekly_time.as_str()).as_str()),
        write_op(".zen-backup-loaded", "1"),
        remove_op(".disabled-zen-backup-daily.timer"),
        remove_op(".disabled-zen-backup-weekly.timer"),
    ];
    proof {
        assert(ops_view(r@) =~= install_ops(config.schedule_daily_time@, config.schedule_weekly_time@));
    }
    r
}

/// Files removed to uninstall the timers.
pub open spec fn uninstall_ops() -> Seq<FileOpView> {
    seq![
        FileOpView::Remove("zen-backup-daily.service"@),
        FileOpView::Remove("zen-backup-weekly.service"@),
        FileOpView::Remove(DAILY_TIMER@),
        FileOpView::Remove(WEEKLY_TIMER@),
        FileOpView::Remove(".zen-backup-loaded"@),
        FileOpView::Remove(".disabled-zen-backup-daily.timer"@),
        FileOpView::Remove(".disabled-zen-backup-weekly.timer"@),
    ]
}

/// The file operations that remove every file the timers use.
pub fn uninstall() -> (r: Vec<SchedulerFileOp>)
    ensures
        ops_view(r@) == uninstall_ops(),
{
    let r = vec![
        remove_op("zen-backup-daily.service"),
        remove_op("zen-backup-weekly.service"),
        remove_op(DAILY_TIMER),
        remove_op(WEEKLY_TIMER),
        remove_op(".zen-backup-loaded"),
        remove_op(".disabled-zen-backup-daily.timer"),
        remove_op(".disabled-zen-backup-weekly.timer"),
    ];
    proof {
        assert(ops_view(r@) =~= uninstall_ops());
    }
    r
}

/// Files changed to resume the timers.
pub open spec fn start_ops() -> Seq<FileOpView> {
    seq![
        FileOpView::Remove(".disabled-zen-backup-daily.timer"@),
        FileOpView::Remove(".disabled-zen-backup-weekly.timer"@),
        FileOpView::Write(".zen-backup-loaded"@, "1"@),
    ]
}

/// The file operations that resume both timers; none unless both are
/// installed.
pub fn start(daily_installed: bool, weekly_installed: bool) -> (r: Vec<SchedulerFileOp>)
    ensures
        ops_view(r@) == if daily_installed && weekly_installed {
            start_ops()
        } else {
            Seq::empty()
        },
{
    if !daily_installed || !weekly_installed {
        let r: Vec<SchedulerFileOp> = Vec::new();
        proof {
            assert(ops_view(r@) =~= Seq::<FileOpView>::empty());
        }
        return r;
    }
    let r = vec![
        remove_op(".disabled-zen-backup-daily.timer"),
        remove_op(".disabled-zen-backup-weekly.timer"),
        write_op(".zen-backup-loaded", "1"),
    ];
    proof {
        assert(ops_view(r@) =~= start_ops());
    }
    r
}

/// Files changed to pause the timers.
pub open spec fn stop_ops() -> Seq<FileOpView> {
    seq![
        FileOpView::Write(".disabled-zen-backup-daily.timer"@, "1"@),
        FileOpView::Write(".disabled-zen-backup-weekly.timer"@, "1"@),
        FileOpView::Write(".zen-backup-loaded"@, "1"@),
    ]
}

/// The file operations that pause both timers; none unless both are
/// installed.
pub fn stop(daily_installed: bool, weekly_installed: bool) -> (r: Vec<SchedulerFileOp>)
    ensures
        ops_view(r@) == if daily_installed && weekly_installed {
            stop_ops()
        } else {
            Seq::empty()
        },
{
    if !daily_installed || !weekly_installed {
        let r: Vec<SchedulerFileOp> = Vec::new();
        proof {
            assert(ops_view(r@) =~= Seq::<FileOpView>::empty());
        }
        return r;
    }
    let r = vec![
        write_op(".disabled-zen-backup-daily.timer", "1"),
        write_op(".disabled-zen-backup-weekly.timer", "1"),
        write_op(".zen-backup-loaded", "1"),
    ];
    proof {
        assert(ops_view(r@) =~= stop_ops());
    }
    r
}

/// The state of the timers from which unit files and disabled markers exist.
pub fn query(daily_installed: bool, weekly_installed: bool, daily_paused: bool, weekly_paused: bool) -> (r:
    SchedulerStatus)
    ensures
        r@ == status_of(DAILY_TIMER@, WEEKLY_TIMER@, daily_installed, weekly_installed, daily_paused, weekly_paused),
{
    status_from_markers(DAILY_TIMER, WEEKLY_TIMER, daily_installed, weekly_installed, daily_paused, weekly_paused)
}

} // verus!
