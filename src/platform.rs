//! Scheduled jobs: their state, and the file operations that install,
//! pause, resume and remove them on each platform.
use vstd::prelude::*;
use crate::text::{views, same_text, concat2};
use crate::config::AppConfig;

pub mod linux;
pub mod macos;
pub mod windows;

verus! {

/// Job label of the daily backup under launchd.
pub const DAILY_LABEL: &'static str = "com.prometheas.zen-backup.daily";

/// Job label of the weekly backup under launchd.
pub const WEEKLY_LABEL: &'static str = "com.prometheas.zen-backup.weekly";

/// Unit name of the daily timer under systemd.
pub const DAILY_TIMER: &'static str = "zen-backup-daily.timer";

/// Unit name of the weekly timer under systemd.
pub const WEEKLY_TIMER: &'static str = "zen-backup-weekly.timer";

/// Task name of the daily backup under the Task Scheduler.
pub const DAILY_TASK: &'static str = "ZenBackupDaily";

/// Task name of the weekly backup under the Task Scheduler.
pub const WEEKLY_TASK: &'static str = "ZenBackupWeekly";

/// State of one scheduled job.
#[derive(Debug, Clone, Copy, PartialEq, Eq, Structural)]
pub enum SchedulerState {
    Active,
    Paused,
    NotInstalled,
}

/// The jobs known to the scheduler and the state of each.
#[derive(Debug, Clone)]
pub struct SchedulerStatus {
    pub labels: Vec<String>,
    pub states: Vec<(String, SchedulerState)>,
}

/// The mathematical content of a `SchedulerStatus`.
pub struct StatusView {
    pub labels: Seq<Seq<char>>,
    pub states: Seq<(Seq<char>, SchedulerState)>,
}

impl View for SchedulerStatus {
    type V = StatusView;

    open spec fn view(&self) -> StatusView {
        StatusView {
            labels: views(self.labels@),
            states: self.states@.map_values(|p: (String, SchedulerState)| (p.0@, p.1)),
        }
    }
}

/// One change to a file in the scheduler's directory, by file name.
#[derive(Debug, Clone)]
pub enum SchedulerFileOp {
    /// Create or replace the file with `body`.
    Write { name: String, body: String },
    /// Remove the file if it exists.
    Remove { name: String },
}

/// The mathematical content of a `SchedulerFileOp`.
pub enum FileOpView {
    Write(Seq<char>, Seq<char>),
    Remove(Seq<char>),
}

impl View for SchedulerFileOp {
    type V = FileOpView;

    open spec fn view(&self) -> FileOpView {
        match self {
            SchedulerFileOp::Write { name, body } => FileOpView::Write(name@, body@),
            SchedulerFileOp::Remove { name } => FileOpView::Remove(name@),
        }
    }
}

/// The contents of a list of file operations.
pub open spec fn ops_view(ops: Seq<SchedulerFileOp>) -> Seq<FileOpView> {
    ops.map_values(|o: SchedulerFileOp| o@)
}

/// The state of a job from its marker files: paused when its disabled
/// marker exists, active otherwise.
pub open spec fn marker_state(paused: bool) -> SchedulerState {
    if paused {
        SchedulerState::Paused
    } else {
        SchedulerState::Active
    }
}

/// The status of two jobs: none known when neither is installed, else both
/// listed with their states.
pub open spec fn status_of(
    daily: Seq<char>,
    weekly: Seq<char>,
    daily_installed: bool,
    weekly_installed: bool,
    daily_paused: bool,
    weekly_paused: bool,
) -> StatusView {
    if !daily_installed && !weekly_installed {
        StatusView {
            labels: Seq::empty(),
            states: seq![(daily, SchedulerState::NotInstalled), (weekly, SchedulerState::NotInstalled)],
        }
    } else {
        StatusView {
            labels: seq![daily, weekly],
            states: seq![(daily, marker_state(daily_paused)), (weekly, marker_state(weekly_paused))],
        }
    }
}

/// The status of two jobs that are not installed.
pub open spec fn not_installed_view(daily: Seq<char>, weekly: Seq<char>) -> StatusView {
    StatusView {
        labels: Seq::empty(),
        states: seq![(daily, SchedulerState::NotInstalled), (weekly, SchedulerState::NotInstalled)],
    }
}

/// Two jobs reported as not installed.
pub fn not_installed(daily: &str, weekly: &str) -> (r: SchedulerStatus)
    ensures
        r@ == not_installed_view(daily@, weekly@),
{
    let r = SchedulerStatus {
        labels: Vec::new(),
        states: vec![
            (String::from_str(daily), SchedulerState::NotInstalled),
            (String::from_str(weekly), SchedulerState::NotInstalled),
        ],
    };
    proof {
        assert(r@.labels =~= Seq::<Seq<char>>::empty());
        assert(r@.states =~= not_installed_view(daily@, weekly@).states);
    }
    r
}

/// The status of the daily and weekly jobs from their marker files.
pub fn status_from_markers(
    daily: &str,
    weekly: &str,
    daily_installed: bool,
    weekly_installed: bool,
    daily_paused: bool,
    weekly_paused: bool,
) -> (r: SchedulerStatus)
    ensures
        r@ == status_of(daily@, weekly@, daily_installed, weekly_installed, daily_paused, weekly_paused),
{
    if !daily_installed && !weekly_installed {
        return not_installed(daily, weekly);
    }
    let ds = if daily_paused {
        SchedulerState::Paused
    } else {
        SchedulerState::Active
    };
    let ws = if weekly_paused {
        SchedulerState::Paused
    } else {
        SchedulerState::Active
    };
    let r = SchedulerStatus {
        labels: vec![String::from_str(daily), String::from_str(weekly)],
        states: vec![(String::from_str(daily), ds), (String::from_str(weekly), ws)],
    };
    proof {
        assert(r@.labels =~= seq![daily@, weekly@]);
        assert(r@.states =~= status_of(daily@, weekly@, daily_installed, weekly_installed, daily_paused, weekly_paused).states);
    }
    r
}

/// A write of `body` to `name`.
pub fn write_op(name: &str, body: &str) -> (r: SchedulerFileOp)
    ensures
        r@ == FileOpView::Write(name@, body@),
{
    SchedulerFileOp::Write { name: String::from_str(name), body: String::from_str(body) }
}

/// A removal of `name`.
pub fn remove_op(name: &str) -> (r: SchedulerFileOp)
    ensures
        r@ == FileOpView::Remove(name@),
{
    SchedulerFileOp::Remove { name: String::from_str(name) }
}

/// The error for an operating system without a scheduler integration.
pub open spec fn unsupported(os: Seq<char>) -> Seq<char> {
    "unsupported platform: "@ + os
}

/// The operating systems with a scheduler integration.
pub open spec fn supported_os(os: Seq<char>) -> bool {
    os == "darwin"@ || os == "linux"@ || os == "windows"@
}

/// An optional text's characters.
pub open spec fn opt_chars(o: Option<&str>) -> Option<Seq<char>> {
    match o {
        Some(p) => Some(p@),
        None => None,
    }
}

/// The daily and weekly job names on `os`.
pub open spec fn job_names_of(os: Seq<char>, task_prefix: Option<Seq<char>>) -> (Seq<char>, Seq<char>) {
    if os == "darwin"@ {
        (DAILY_LABEL@, WEEKLY_LABEL@)
    } else if os == "linux"@ {
        (DAILY_TIMER@, WEEKLY_TIMER@)
    } else {
        windows::task_names_of(task_prefix)
    }
}

fn unsupported_error(os: &str) -> (r: String)
    ensures
        r@ == unsupported(os@),
{
    concat2("unsupported platform: ", os)
}

/// The daily and weekly job names on `os`; the Task Scheduler's take the
/// optional prefix.
pub fn job_names(os: &str, task_prefix: Option<&str>) -> (r: Result<(String, String), String>)
    ensures
        match r {
            Ok(n) => supported_os(os@) && (n.0@, n.1@) == job_names_of(os@, opt_chars(task_prefix)),
            Err(m) => !supported_os(os@) && m@ == unsupported(os@),
        },
{
    if same_text(os, "darwin") {
        Ok((String::from_str(DAILY_LABEL), String::from_str(WEEKLY_LABEL)))
    } else if same_text(os, "linux") {
        Ok((String::from_str(DAILY_TIMER), String::from_str(WEEKLY_TIMER)))
    } else if same_text(os, "windows") {
        Ok(windows::task_names(task_prefix))
    } else {
        Err(unsupported_error(os))
    }
}

/// The file operations that install the scheduled jobs on `os`.
pub fn install_scheduler(os: &str, config: &AppConfig, task_prefix: Option<&str>) -> (r: Result<Vec<SchedulerFileOp>, String>)
    ensures
        match r {
            Ok(ops) => supported_os(os@) && ops_view(ops@) == if os@ == "darwin"@ {
                macos::install_ops(config.backup_local_path@)
            } else if os@ == "linux"@ {
                linux::install_ops(config.schedule_daily_time@, config.schedule_weekly_time@)
            } else {
                windows::install_ops(
                    windows::task_names_of(opt_chars(task_prefix)).0,
                    windows::task_names_of(opt_chars(task_prefix)).1,
                    config.schedule_daily_time@,
                    config.schedule_weekly_time@,
                )
            },
            Err(m) => !supported_os(os@) && m@ == unsupported(os@),
        },
{
    if same_text(os, "darwin") {
        Ok(macos::install(config))
    } else if same_text(os, "linux") {
        Ok(linux::install(config))
    } else if same_text(os, "windows") {
        let (daily, weekly) = windows::task_names(task_prefix);
        Ok(windows::install(config, daily.as_str(), weekly.as_str()))
    } else {
        Err(unsupported_error(os))
    }
}

/// The file operations that remove the scheduled jobs on `os`.
pub fn uninstall_scheduler(os: &str, task_prefix: Option<&str>) -> (r: Result<Vec<SchedulerFileOp>, String>)
    ensures
        match r {
            Ok(ops) => supported_os(os@) && ops_view(ops@) == if os@ == "darwin"@ {
                macos::uninstall_ops()
            } else if os@ == "linux"@ {
                linux::uninstall_ops()
            } else {
                windows::uninstall_ops(
                    windows::task_names_of(opt_chars(task_prefix)).0,
                    windows::task_names_of(opt_chars(task_prefix)).1,
                )
            },
            Err(m) => !supported_os(os@) && m@ == unsupported(os@),
        },
{
    if same_text(os, "darwin") {
        Ok(macos::uninstall())
    } else if same_text(os, "linux") {
        Ok(linux::uninstall())
    } else if same_text(os, "windows") {
        let (daily, weekly) = windows::task_names(task_prefix);
        Ok(windows::uninstall(daily.as_str(), weekly.as_str()))
    } else {
        Err(unsupported_error(os))
    }
}

/// The file operations that resume the scheduled jobs on `os`, given which
/// of them are installed.
pub fn start_scheduler(os: &str, task_prefix: Option<&str>, daily_installed: bool, weekly_installed: bool) -> (r:
    Result<Vec<SchedulerFileOp>, String>)
    ensures
        match r {
            Ok(ops) => supported_os(os@) && ops_view(ops@) == if !(daily_installed && weekly_installed) {
                Seq::empty()
            } else if os@ == "darwin"@ {
                macos::start_ops()
            } else if os@ == "linux"@ {
                linux::start_ops()
            } else {
                windows::start_ops(
                    windows::task_names_of(opt_chars(task_prefix)).0,
                    windows::task_names_of(opt_chars(task_prefix)).1,
                )
            },
            Err(m) => !supported_os(os@) && m@ == unsupported(os@),
        },
{
    if same_text(os, "darwin") {
        Ok(macos::start(daily_installed, weekly_installed))
    } else if same_text(os, "linux") {
        Ok(linux::start(daily_installed, weekly_installed))
    } else if same_text(os, "windows") {
        let (daily, weekly) = windows::task_names(task_prefix);
        Ok(windows::start(daily.as_str(), weekly.as_str(), daily_installed, weekly_installed))
    } else {
        Err(unsupported_error(os))
    }
}

/// The file operations that pause the scheduled jobs on `os`, given which
/// of them are installed.
pub fn stop_scheduler(os: &str, task_prefix: Option<&str>, daily_installed: bool, weekly_installed: bool) -> (r:
    Result<Vec<SchedulerFileOp>, String>)
    ensures
        match r {
            Ok(ops) => supported_os(os@) && ops_view(ops@) == if !(daily_installed && weekly_installed) {
                Seq::empty()
            } else if os@ == "darwin"@ {
                macos::stop_ops()
            } else if os@ == "linux"@ {
                linux::stop_ops()
            } else {
                windows::stop_ops(
                    windows::task_names_of(opt_chars(task_prefix)).0,
                    windows::task_names_of(opt_chars(task_prefix)).1,
                )
            },
            Err(m) => !supported_os(os@) && m@ == unsupported(os@),
        },
{
    if same_text(os, "darwin") {
        Ok(macos::stop(daily_installed, weekly_installed))
    } else if same_text(os, "linux") {
        Ok(linux::stop(daily_installed, weekly_installed))
    } else if same_text(os, "windows") {
        let (daily, weekly) = windows::task_names(task_prefix);
        Ok(windows::stop(daily.as_str(), weekly.as_str(), daily_installed, weekly_installed))
    } else {
        Err(unsupported_error(os))
    }
}

/// The status of the scheduled jobs on `os` from what was observed of them.
pub fn query_scheduler(os: &str, task_prefix: Option<&str>, observed: windows::TaskObservation) -> (r: Result<
    SchedulerStatus,
    String,
>)
    ensures
        match r {
            Ok(st) => supported_os(os@) && st@ == match observed {
                windows::TaskObservation::Native { daily, weekly } => windows::native_status(
                    job_names_of(os@, opt_chars(task_prefix)).0,
                    job_names_of(os@, opt_chars(task_prefix)).1,
                    daily,
                    weekly,
                ),
                windows::TaskObservation::Metadata {
                    daily_installed,
                    weekly_installed,
                    daily_paused,
                    weekly_paused,
                } => status_of(
                    job_names_of(os@, opt_chars(task_prefix)).0,
                    job_names_of(os@, opt_chars(task_prefix)).1,
                    daily_installed,
                    weekly_installed,
                    daily_paused,
                    weekly_paused,
                ),
            },
            Err(m) => !supported_os(os@) && m@ == unsupported(os@),
        },
{
    match job_names(os, task_prefix) {
        Ok((daily, weekly)) => Ok(windows::query(daily.as_str(), weekly.as_str(), observed)),
        Err(e) => Err(e),
    }
}

} // verus!
