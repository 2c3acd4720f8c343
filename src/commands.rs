//! Command results, and the decisions of the `backup` and `schedule`
//! commands that do not touch the disk.
use vstd::prelude::*;
use crate::config::AppConfig;
use crate::platform::{SchedulerState, SchedulerStatus, StatusView};
use crate::text::{concat3, joined, join_texts, same_text, views};

verus! {

/// What a command prints and the exit code it ends with.
pub struct CommandOutput {
    pub exit_code: i32,
    pub stdout: String,
    pub stderr: String,
}

/// A failed command: exit code 1, nothing on standard output.
pub fn failure(message: &str) -> (r: CommandOutput)
    ensures
        r.exit_code == 1,
        r.stdout@.len() == 0,
        r.stderr@ == message@,
{
    CommandOutput { exit_code: 1, stdout: String::new(), stderr: String::from_str(message) }
}

/// The kinds of snapshot.
pub open spec fn backup_kind(kind: Seq<char>) -> bool {
    kind == "daily"@ || kind == "weekly"@
}

/// Whether `kind` names a kind of snapshot.
pub fn is_backup_kind(kind: &str) -> (r: bool)
    ensures
        r == backup_kind(kind@),
{
    same_text(kind, "daily") || same_text(kind, "weekly")
}

/// The retention, in days, that applies to archives of `kind`.
pub fn retention_days_for(config: &AppConfig, kind: &str) -> (r: i64)
    ensures
        r == if kind@ == "daily"@ {
            config.retention_daily_days
        } else {
            config.retention_weekly_days
        },
{
    if same_text(kind, "daily") {
        config.retention_daily_days
    } else {
        config.retention_weekly_days
    }
}

/// The warning raised when the browser runs during a snapshot.
pub open spec fn browser_running_text() -> Seq<char> {
    "browser is running; SQLite databases are safely backed up, but session files may be mid-write"@
}

/// The warning raised when the browser runs during a snapshot: databases are
/// copied safely, session files may be caught mid-write.
pub fn browser_running_warning() -> (r: String)
    ensures
        r@ == browser_running_text(),
{
    String::from_str(
        "browser is running; SQLite databases are safely backed up, but session files may be mid-write",
    )
}

/// What `schedule` was asked to do.
#[derive(Debug, Clone, Copy, PartialEq, Eq, Structural)]
pub enum ScheduleAction {
    Start,
    Stop,
    Status,
}

/// The action named on the command line; `resume` is `start` and `pause`
/// is `stop`.
pub open spec fn schedule_action_of(action: Seq<char>) -> Option<ScheduleAction> {
    if action == "start"@ || action == "resume"@ {
        Some(ScheduleAction::Start)
    } else if action == "stop"@ || action == "pause"@ {
        Some(ScheduleAction::Stop)
    } else if action == "status"@ {
        Some(ScheduleAction::Status)
    } else {
        None
    }
}

/// Reads the action named on the command line.
pub fn schedule_action(action: &str) -> (r: Option<ScheduleAction>)
    ensures
        r == schedule_action_of(action@),
{
    if same_text(action, "start") || same_text(action, "resume") {
        Some(ScheduleAction::Start)
    } else if same_text(action, "stop") || same_text(action, "pause") {
        Some(ScheduleAction::Stop)
    } else if same_text(action, "status") {
        Some(ScheduleAction::Status)
    } else {
        None
    }
}

/// How a job state is printed.
pub open spec fn state_word(s: SchedulerState) -> Seq<char> {
    match s {
        SchedulerState::Active => "active"@,
        SchedulerState::Paused => "paused"@,
        SchedulerState::NotInstalled => "not_installed"@,
    }
}

/// One line per job: `<label>: <state>`.
pub open spec fn state_lines(states: Seq<(Seq<char>, SchedulerState)>) -> Seq<Seq<char>> {
    states.map_values(|p: (Seq<char>, SchedulerState)| p.0 + ": "@ + state_word(p.1))
}

/// The report of `schedule`: what was done, then the jobs and their states.
pub open spec fn schedule_lines(action: ScheduleAction, st: StatusView) -> Seq<Seq<char>> {
    let head: Seq<Seq<char>> = match action {
        ScheduleAction::Start => seq!["Scheduled backups started."@],
        ScheduleAction::Stop => seq!["Scheduled backups stopped."@],
        ScheduleAction::Status => Seq::empty(),
    };
    if st.labels.len() == 0 {
        head.push("No scheduled jobs."@)
    } else {
        head + state_lines(st.states)
    }
}

/// The usage error of `schedule`.
pub open spec fn schedule_usage() -> Seq<char> {
    "schedule action must be start|resume|stop|pause|status"@
}

fn state_text(s: SchedulerState) -> (r: &'static str)
    ensures
        r@ == state_word(s),
{
    match s {
        SchedulerState::Active => "active",
        SchedulerState::Paused => "paused",
        SchedulerState::NotInstalled => "not_installed",
    }
}

/// The output of `schedule <action>`, given what the scheduler reported
/// after the action was carried out (or the error it gave).
pub fn run_schedule(action: &str, outcome: Result<SchedulerStatus, String>) -> (r: CommandOutput)
    ensures
        match schedule_action_of(action@) {
            None => r.exit_code == 1 && r.stdout@.len() == 0 && r.stderr@ == schedule_usage(),
            Some(a) => match outcome {
                Ok(st) => r.exit_code == 0 && r.stderr@.len() == 0 && r.stdout@ == joined(
                    schedule_lines(a, st@),
                    "\n"@,
                ),
                Err(e) => r.exit_code == 1 && r.stdout@.len() == 0 && r.stderr@ == e@,
            },
        },
{
    let a = match schedule_action(action) {
        Some(a) => a,
        None => {
            return failure("schedule action must be start|resume|stop|pause|status");
        },
    };
    let st = match outcome {
        Ok(st) => st,
        Err(e) => {
            return CommandOutput { exit_code: 1, stdout: String::new(), stderr: e };
        },
    };
    let mut lines: Vec<String> = Vec::new();
    match a {
        ScheduleAction::Start => lines.push(String::from_str("Scheduled backups started.")),
        ScheduleAction::Stop => lines.push(String::from_str("Scheduled backups stopped.")),
        ScheduleAction::Status => {},
    }
    let ghost head = views(lines@);
    proof {
        assert(views(st.labels@).len() == st.labels@.len());
    }
    if st.labels.len() == 0 {
        lines.push(String::from_str("No scheduled jobs."));
        proof {
            assert(views(lines@) =~= schedule_lines(a, st@));
        }
    } else {
        let mut i: usize = 0;
        while i < st.states.len()
            invariant
                i <= st.states.len(),
                views(lines@) == head + state_lines(st@.states).take(i as int),
                st@.states.len() == st.states@.len(),
            decreases st.states.len() - i,
        {
            let (label, state) = &st.states[i];
            let line = concat3(label.as_str(), ": ", state_text(*state));
            let ghost before = views(lines@);
            lines.push(line);
            proof {
                assert(st@.states[i as int] == (label@, *state));
                assert(state_lines(st@.states)[i as int] == label@ + ": "@ + state_word(*state));
                assert(views(lines@) =~= before.push(line@));
                assert(state_lines(st@.states).take(i + 1) =~= state_lines(st@.states).take(i as int).push(
                    line@,
                ));
            }
            i += 1;
        }
        proof {
            assert(state_lines(st@.states).take(st.states.len() as int) =~= state_lines(st@.states));
            assert(views(lines@) =~= schedule_lines(a, st@));
        }
    }
    CommandOutput { exit_code: 0, stdout: join_texts(&lines, "\n"), stderr: String::new() }
}

} // verus!
