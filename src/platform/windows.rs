//! Scheduled jobs as Task Scheduler tasks, with a metadata directory that
//! mirrors them.
use vstd::prelude::*;
use crate::config::AppConfig;
use crate::platform::{SchedulerFileOp, SchedulerStatus, SchedulerState, FileOpView, StatusView,
    ops_view, status_of, not_installed_view, status_from_markers, not_installed, write_op, remove_op,
    DAILY_TASK, WEEKLY_TASK};
use crate::text::{concat2, concat3, trimmed, trim_text, split_on, split_text, views, occurs_at_folded,
    has_infix_folded, same_folded, matches_at_folded, contains_folded, eq_folded, has_infix, contains};
use crate::restore::{text_lines, lines_of};

verus! {

/// The daily and weekly task names: `<prefix>Daily` and `<prefix>Weekly` for
/// a prefix that is not blank once trimmed, the default names otherwise.
pub open spec fn task_names_of(prefix: Option<Seq<char>>) -> (Seq<char>, Seq<char>) {
    match prefix {
        Some(p) => if trimmed(p).len() > 0 {
            (trimmed(p) + "Daily"@, trimmed(p) + "Weekly"@)
        } else {
            (DAILY_TASK@, WEEKLY_TASK@)
        },
        None => (DAILY_TASK@, WEEKLY_TASK@),
    }
}

/// The daily and weekly task names for an optional prefix.
pub fn task_names(prefix: Option<&str>) -> (r: (String, String))
    ensures
        (r.0@, r.1@) == task_names_of(
            match prefix {
                Some(p) => Some(p@),
                None => None,
            },
        ),
{
    if let Some(p) = prefix {
        let t = trim_text(p);
        if t.as_str().unicode_len() > 0 {
            return (concat2(t.as_str(), "Daily"), concat2(t.as_str(), "Weekly"));
        }
    }
    (String::from_str(DAILY_TASK), String::from_str(WEEKLY_TASK))
}

/// The metadata record of one task.
pub open spec fn task_text(task: Seq<char>, kind: Seq<char>, time: Seq<char>) -> Seq<char> {
    "{\"task\":\""@ + task + "\",\"kind\":\""@ + kind + "\",\"time\":\""@ + time + "\"}\n"@
}

/// Renders the metadata record of one task.
pub fn task_template(task: &str, kind: &str, time: &str) -> (r: String)
    ensures
        r@ == task_text(task@, kind@, time@),
{
    let mut r = concat3("{\"task\":\"", task, "\",\"kind\":\"");
    r.append(kind);
    r.append("\",\"time\":\"");
    r.append(time);
    r.append("\"}\n");
    r
}

/// The metadata file of a task.
pub open spec fn record_name(task: Seq<char>) -> Seq<char> {
    task + ".json"@
}

/// The marker file of a paused task.
pub open spec fn disabled_name(task: Seq<char>) -> Seq<char> {
    ".disabled-"@ + task
}

/// Files written or removed to install the tasks' metadata.
pub open spec fn install_ops(
    daily: Seq<char>,
    weekly: Seq<char>,
    daily_time: Seq<char>,
    weekly_time: Seq<char>,
) -> Seq<FileOpView> {
    seq![
        FileOpView::Write(record_name(daily), task_text(daily, "daily"@, daily_time)),
        FileOpView::Write(record_name(weekly), task_text(weekly, "weekly"@, weekly_time)),
        FileOpView::Write(".zen-backup-loaded"@, "1"@),
        FileOpView::Remove(disabled_name(daily)),
        FileOpView::Remove(disabled_name(weekly)),
    ]
}

/// The file operations, in the task metadata directory, that record the
/// daily and weekly tasks at the configured times and leave them active.
pub fn install(config: &AppConfig, daily_task: &str, weekly_task: &str) -> (r: Vec<SchedulerFileOp>)
    ensures
        ops_view(r@) == install_ops(
            daily_task@,
            weekly_task@,
            config.schedule_daily_time@,
            config.schedule_weekly_time@,
        ),
{
    let r = vec![
        write_op(
            concat2(daily_task, ".json").as_str(),
            task_template(daily_task, "daily", config.schedule_daily_time.as_str()).as_str(),
        ),
        write_op(
            concat2(weekly_task, ".json").as_str(),
            task_template(weekly_task, "weekly", config.schedule_weekly_time.as_str()).as_str(),
        ),
        write_op(".zen-backup-loaded", "1"),
        remove_op(concat2(".disabled-", daily_task).as_str()),
        remove_op(concat2(".disabled-", weekly_task).as_str()),
    ];
    proof {
        assert(ops_view(r@) =~= install_ops(
            daily_task@,
            weekly_task@,
            config.schedule_daily_time@,
            config.schedule_weekly_time@,
        ));
    }
    r
}

/// Files removed to uninstall the tasks' metadata.
pub open spec fn uninstall_ops(daily: Seq<char>, weekly: Seq<char>) -> Seq<FileOpView> {
    seq![
        FileOpView::Remove(record_name(daily)),
        FileOpView::Remove(record_name(weekly)),
        FileOpView::Remove(".zen-backup-loaded"@),
        FileOpView::Remove(disabled_name(daily)),
        FileOpView::Remove(disabled_name(weekly)),
    ]
}

/// The file operations that remove the tasks' metadata.
pub fn uninstall(daily_task: &str, weekly_task: &str) -> (r: Vec<SchedulerFileOp>)
    ensures
        ops_view(r@) == uninstall_ops(daily_task@, weekly_task@),
{
    let r = vec![
        remove_op(concat2(daily_task, ".json").as_str()),
        remove_op(concat2(weekly_task, ".json").as_str()),
        remove_op(".zen-backup-loaded"),
        remove_op(concat2(".disabled-", daily_task).as_str()),
        remove_op(concat2(".disabled-", weekly_task).as_str()),
    ];
    proof {
        assert(ops_view(r@) =~= uninstall_ops(daily_task@, weekly_task@));
    }
    r
}

/// Files changed to resume the tasks.
pub open spec fn start_ops(daily: Seq<char>, weekly: Seq<char>) -> Seq<FileOpView> {
    seq![
        FileOpView::Remove(disabled_name(daily)),
        FileOpView::Remove(disabled_name(weekly)),
        FileOpView::Write(".zen-backup-loaded"@, "1"@),
    ]
}

/// The file operations that resume both tasks; none unless both are
/// recorded.
pub fn start(daily_task: &str, weekly_task: &str, daily_installed: bool, weekly_installed: bool) -> (r: Vec<
    SchedulerFileOp,
>)
    ensures
        ops_view(r@) == if daily_installed && weekly_installed {
            start_ops(daily_task@, weekly_task@)
        } else {
            Seq::empty()
        },
{
    if !daily_installed || !weekly_installed {
        let r: Vec<SchedulerFileOp> = Vec::new();
        proof {
            assert(ops_view(r@) =~= Seq::<FileOpView>::empty());
        }
        return r;
    }
    let r = vec![
        remove_op(concat2(".disabled-", daily_task).as_str()),
        remove_op(concat2(".disabled-", weekly_task).as_str()),
        write_op(".zen-backup-loaded", "1"),
    ];
    proof {
        assert(ops_view(r@) =~= start_ops(daily_task@, weekly_task@));
    }
    r
}

/// Files changed to pause the tasks.
pub open spec fn stop_ops(daily: Seq<char>, weekly: Seq<char>) -> Seq<FileOpView> {
    seq![
        FileOpView::Write(disabled_name(daily), "1"@),
        FileOpView::Write(disabled_name(weekly), "1"@),
        FileOpView::Write(".zen-backup-loaded"@, "1"@),
    ]
}

/// The file operations that pause both tasks; none unless both are
/// recorded.
pub fn stop(daily_task: &str, weekly_task: &str, daily_installed: bool, weekly_installed: bool) -> (r: Vec<
    SchedulerFileOp,
>)
    ensures
        ops_view(r@) == if daily_installed && weekly_installed {
            stop_ops(daily_task@, weekly_task@)
        } else {
            Seq::empty()
        },
{
    if !daily_installed || !weekly_installed {
        let r: Vec<SchedulerFileOp> = Vec::new();
        proof {
            assert(ops_view(r@) =~= Seq::<FileOpView>::empty());
        }
        return r;
    }
    let r = vec![
        write_op(concat2(".disabled-", daily_task).as_str(), "1"),
        write_op(concat2(".disabled-", weekly_task).as_str(), "1"),
        write_op(".zen-backup-loaded", "1"),
    ];
    proof {
        assert(ops_view(r@) =~= stop_ops(daily_task@, weekly_task@));
    }
    r
}

/// What the Task Scheduler reports of one task.
#[derive(Debug, Clone, Copy, PartialEq, Eq, Structural)]
pub struct NativeTaskState {
    pub installed: bool,
    pub enabled: bool,
}

/// The state of one task as the Task Scheduler reports it.
pub open spec fn native_state(t: NativeTaskState) -> SchedulerState {
    if !t.installed {
        SchedulerState::NotInstalled
    } else if t.enabled {
        SchedulerState::Active
    } else {
        SchedulerState::Paused
    }
}

/// The status of both tasks as the Task Scheduler reports them.
pub open spec fn native_status(daily: Seq<char>, weekly: Seq<char>, d: NativeTaskState, w: NativeTaskState) -> StatusView {
    if !d.installed && !w.installed {
        not_installed_view(daily, weekly)
    } else {
        StatusView { labels: seq![daily, weekly], states: seq![(daily, native_state(d)), (weekly, native_state(w))] }
    }
}

fn state_of_native(t: NativeTaskState) -> (r: SchedulerState)
    ensures
        r == native_state(t),
{
    if !t.installed {
        SchedulerState::NotInstalled
    } else if t.enabled {
        SchedulerState::Active
    } else {
        SchedulerState::Paused
    }
}

/// The status of both tasks from what the Task Scheduler reports.
pub fn query_native(daily_task: &str, weekly_task: &str, daily: NativeTaskState, weekly: NativeTaskState) -> (r:
    SchedulerStatus)
    ensures
        r@ == native_status(daily_task@, weekly_task@, daily, weekly),
{
    if !daily.installed && !weekly.installed {
        return not_installed(daily_task, weekly_task);
    }
    let r = SchedulerStatus {
        labels: vec![String::from_str(daily_task), String::from_str(weekly_task)],
        states: vec![
            (String::from_str(daily_task), state_of_native(daily)),
            (String::from_str(weekly_task), state_of_native(weekly)),
        ],
    };
    proof {
        assert(r@.labels =~= seq![daily_task@, weekly_task@]);
        assert(r@.states =~= native_status(daily_task@, weekly_task@, daily, weekly).states);
    }
    r
}

/// The status of both tasks from their metadata and disabled markers.
pub fn query_metadata(
    daily_task: &str,
    weekly_task: &str,
    daily_installed: bool,
    weekly_installed: bool,
    daily_paused: bool,
    weekly_paused: bool,
) -> (r: SchedulerStatus)
    ensures
        r@ == status_of(daily_task@, weekly_task@, daily_installed, weekly_installed, daily_paused, weekly_paused),
{
    status_from_markers(daily_task, weekly_task, daily_installed, weekly_installed, daily_paused, weekly_paused)
}

/// What was found out about the tasks: from the Task Scheduler itself, or
/// from the metadata directory.
pub enum TaskObservation {
    Native { daily: NativeTaskState, weekly: NativeTaskState },
    Metadata { daily_installed: bool, weekly_installed: bool, daily_paused: bool, weekly_paused: bool },
}

/// The status of both tasks from what was observed.
pub fn query(daily_task: &str, weekly_task: &str, observed: TaskObservation) -> (r: SchedulerStatus)
    ensures
        r@ == match observed {
            TaskObservation::Native { daily, weekly } => native_status(daily_task@, weekly_task@, daily, weekly),
            TaskObservation::Metadata { daily_installed, weekly_installed, daily_paused, weekly_paused } => status_of(
                daily_task@,
                weekly_task@,
                daily_installed,
                weekly_installed,
                daily_paused,
                weekly_paused,
            ),
        },
{
    match observed {
        TaskObservation::Native { daily, weekly } => query_native(daily_task, weekly_task, daily, weekly),
        TaskObservation::Metadata { daily_installed, weekly_installed, daily_paused, weekly_paused } => query_metadata(
            daily_task,
            weekly_task,
            daily_installed,
            weekly_installed,
            daily_paused,
            weekly_paused,
        ),
    }
}

/// The Task Scheduler day code of a weekday name (any ASCII case); Sunday
/// for anything else.
pub open spec fn weekday_code(value: Seq<char>) -> Seq<char> {
    if same_folded(value, "monday"@) {
        "MON"@
    } else if same_folded(value, "tuesday"@) {
        "TUE"@
    } else if same_folded(value, "wednesday"@) {
        "WED"@
    } else if same_folded(value, "thursday"@) {
        "THU"@
    } else if same_folded(value, "friday"@) {
        "FRI"@
    } else if same_folded(value, "saturday"@) {
        "SAT"@
    } else {
        "SUN"@
    }
}

/// Maps a weekday name to its Task Scheduler day code.
pub fn map_weekday(value: &str) -> (r: String)
    ensures
        r@ == weekday_code(value@),
{
    let code = if eq_folded(value, "monday") {
        "MON"
    } else if eq_folded(value, "tuesday") {
        "TUE"
    } else if eq_folded(value, "wednesday") {
        "WED"
    } else if eq_folded(value, "thursday") {
        "THU"
    } else if eq_folded(value, "friday") {
        "FRI"
    } else if eq_folded(value, "saturday") {
        "SAT"
    } else {
        "SUN"
    };
    String::from_str(code)
}

/// The arguments of the task-creation command.
pub open spec fn create_task_args(
    task: Seq<char>,
    kind: Seq<char>,
    time: Seq<char>,
    weekly_day: Option<Seq<char>>,
) -> Seq<Seq<char>> {
    let head = seq!["/Create"@, "/TN"@, task, "/TR"@, "zen-backup backup "@ + kind, "/ST"@, time, "/F"@];
    match weekly_day {
        Some(day) => head + seq!["/SC"@, "WEEKLY"@, "/D"@, day],
        None => head + seq!["/SC"@, "DAILY"@],
    }
}

/// The arguments that create one native task, weekly on `weekly_day` when
/// given, daily otherwise.
pub fn create_native_task(task_name: &str, backup_kind: &str, time: &str, weekly_day: Option<&str>) -> (r: Vec<
    String,
>)
    ensures
        views(r@) == create_task_args(
            task_name@,
            backup_kind@,
            time@,
            match weekly_day {
                Some(d) => Some(d@),
                None => None,
            },
        ),
{
    let mut args = vec![
        String::from_str("/Create"),
        String::from_str("/TN"),
        String::from_str(task_name),
        String::from_str("/TR"),
        concat2("zen-backup backup ", backup_kind),
        String::from_str("/ST"),
        String::from_str(time),
        String::from_str("/F"),
    ];
    let ghost head = views(args@);
    match weekly_day {
        Some(day) => {
            args.push(String::from_str("/SC"));
            args.push(String::from_str("WEEKLY"));
            args.push(String::from_str("/D"));
            args.push(String::from_str(day));
        },
        None => {
            args.push(String::from_str("/SC"));
            args.push(String::from_str("DAILY"));
        },
    }
    proof {
        assert(head =~= seq!["/Create"@, "/TN"@, task_name@, "/TR"@, "zen-backup backup "@ + backup_kind@, "/ST"@, time@, "/F"@]);
        assert(views(args@) =~= create_task_args(
            task_name@,
            backup_kind@,
            time@,
            match weekly_day {
                Some(d) => Some(d@),
                None => None,
            },
        ));
    }
    args
}

/// Whether a task's XML definition says it is enabled.
pub open spec fn xml_enabled(xml: Seq<char>) -> Option<bool> {
    if has_infix(xml, "<Enabled>true</Enabled>"@) {
        Some(true)
    } else if has_infix(xml, "<Enabled>false</Enabled>"@) {
        Some(false)
    } else {
        None
    }
}

/// Reads whether a task is enabled from its XML definition.
pub fn parse_enabled_from_xml(xml: &str) -> (r: Option<bool>)
    ensures
        r == xml_enabled(xml@),
{
    if contains(xml, "<Enabled>true</Enabled>") {
        Some(true)
    } else if contains(xml, "<Enabled>false</Enabled>") {
        Some(false)
    } else {
        None
    }
}

/// Whether a task is enabled, from the lines of the verbose task listing
/// from `i` on: the first `Scheduled Task State:` line (any ASCII case)
/// whose value mentions `disabled` says no, one that mentions `enabled`,
/// `ready` or `running` says yes.
pub open spec fn listed_state_from(lines: Seq<Seq<char>>, i: int) -> Option<bool>
    decreases lines.len() - i,
{
    if i < 0 || i >= lines.len() {
        None
    } else {
        let line = trimmed(lines[i]);
        if !occurs_at_folded(line, "scheduled task state:"@, 0) {
            listed_state_from(lines, i + 1)
        } else if split_on(line, ':').len() < 2 {
            None
        } else {
            let state = trimmed(split_on(line, ':')[1]);
            if has_infix_folded(state, "disabled"@) {
                Some(false)
            } else if has_infix_folded(state, "enabled"@) || has_infix_folded(state, "ready"@)
                || has_infix_folded(state, "running"@) {
                Some(true)
            } else {
                listed_state_from(lines, i + 1)
            }
        }
    }
}

/// Reads whether a task is enabled from the verbose task listing.
pub fn parse_schtasks_enabled_from_list_output(output: &str) -> (r: Option<bool>)
    ensures
        r == listed_state_from(text_lines(output@), 0),
{
    let lines = lines_of(output);
    let ghost lv = text_lines(output@);
    proof {
        assert(views(lines@).len() == lines@.len());
    }
    let mut i: usize = 0;
    while i < lines.len()
        invariant
            i <= lines.len(),
            views(lines@) == lv,
            lv == text_lines(output@),
            lv.len() == lines@.len(),
            listed_state_from(lv, 0) == listed_state_from(lv, i as int),
        decreases lines.len() - i,
    {
        proof {
            assert(lines@[i as int]@ == lv[i as int]);
        }
        let line = trim_text(lines[i].as_str());
        proof {
            assert(line@ == trimmed(lv[i as int]));
        }
        if matches_at_folded(line.as_str(), "scheduled task state:", 0) {
            let pieces = split_text(line.as_str(), ':');
            proof {
                assert(views(pieces@).len() == pieces@.len());
            }
            if pieces.len() < 2 {
                return None;
            }
            proof {
                assert(pieces@[1]@ == split_on(line@, ':')[1]);
            }
            let state = trim_text(pieces[1].as_str());
            if contains_folded(state.as_str(), "disabled") {
                return Some(false);
            }
            if contains_folded(state.as_str(), "enabled") || contains_folded(state.as_str(), "ready")
                || contains_folded(state.as_str(), "running") {
                return Some(true);
            }
        }
        i += 1;
    }
    None
}

} // verus!
