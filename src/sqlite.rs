//! Safe copy of one database file: the two-tier outcome (skip one file, or
//! abort the snapshot) and the procedure that leads to it.
use vstd::prelude::*;
use crate::text::{trim_end, trim_end_text, same_text};

verus! {

/// How copying one database file ended.
#[derive(Clone, Copy, Debug, PartialEq, Eq, Structural)]
pub enum SqliteCopyOutcome {
    /// Hot backup succeeded and the copy passed the integrity check.
    Clean,
    /// The checkpoint-and-copy fallback was used and its copy passed the check.
    FallbackUsed,
    /// The source is flagged corrupt, or the copy failed the check: skip this file.
    Corrupt,
    /// An I/O failure: the whole snapshot is abandoned.
    Fatal,
}

/// Where the copy of one database file stands.
#[derive(Clone, Copy, Debug, PartialEq, Eq, Structural)]
pub enum SqliteCopyState {
    Start,
    HotBackupRunning,
    HotChecking,
    FallbackCopying,
    FallbackChecking,
    Finished(SqliteCopyOutcome),
}

/// What was observed after the last action.
#[derive(Clone, Copy, Debug, PartialEq, Eq, Structural)]
pub enum SqliteCopyEvent {
    /// The copy begins; whether the source is flagged corrupt, and whether a
    /// hot backup is to be tried at all.
    Started { marked_corrupt: bool, hot_backup_wanted: bool },
    /// The database tool could not be run.
    ToolUnavailable,
    /// The hot backup ran and exited, successfully or not.
    HotBackupExited { success: bool },
    /// The byte copy of the main file (its log files are copied, folded in
    /// by a checkpoint and removed on a best-effort basis).
    FallbackCopied { success: bool },
    /// The integrity check ran and the copy passed it or not.
    IntegrityChecked { passed: bool },
}

/// What to do next.
#[derive(Clone, Copy, Debug, PartialEq, Eq, Structural)]
pub enum SqliteCopyAction {
    RunHotBackup,
    CopyAndCheckpoint,
    CheckIntegrity,
    /// Remove the copy that failed its check; the copy is over.
    DiscardCopy,
    Stop,
}

/// The copy procedure as a transition table. A copy that was written and
/// then failed its check is discarded. An event that does not belong
/// to the current state ends the copy as `Fatal`; a finished copy stays
/// finished.
pub open spec fn copy_next(state: SqliteCopyState, event: SqliteCopyEvent) -> (SqliteCopyState, SqliteCopyAction) {
    let fatal = (SqliteCopyState::Finished(SqliteCopyOutcome::Fatal), SqliteCopyAction::Stop);
    match state {
        SqliteCopyState::Start => match event {
            SqliteCopyEvent::Started { marked_corrupt, hot_backup_wanted } => if marked_corrupt {
                (SqliteCopyState::Finished(SqliteCopyOutcome::Corrupt), SqliteCopyAction::Stop)
            } else if hot_backup_wanted {
                (SqliteCopyState::HotBackupRunning, SqliteCopyAction::RunHotBackup)
            } else {
                (SqliteCopyState::FallbackCopying, SqliteCopyAction::CopyAndCheckpoint)
            },
            _ => fatal,
        },
        SqliteCopyState::HotBackupRunning => match event {
            SqliteCopyEvent::HotBackupExited { success } => if success {
                (SqliteCopyState::HotChecking, SqliteCopyAction::CheckIntegrity)
            } else {
                (SqliteCopyState::FallbackCopying, SqliteCopyAction::CopyAndCheckpoint)
            },
            _ => fatal,
        },
        SqliteCopyState::HotChecking => match event {
            SqliteCopyEvent::IntegrityChecked { passed } => if passed {
                (SqliteCopyState::Finished(SqliteCopyOutcome::Clean), SqliteCopyAction::Stop)
            } else {
                (SqliteCopyState::Finished(SqliteCopyOutcome::Corrupt), SqliteCopyAction::DiscardCopy)
            },
            _ => fatal,
        },
        SqliteCopyState::FallbackCopying => match event {
            SqliteCopyEvent::FallbackCopied { success } => if success {
                (SqliteCopyState::FallbackChecking, SqliteCopyAction::CheckIntegrity)
            } else {
                fatal
            },
            _ => fatal,
        },
        SqliteCopyState::FallbackChecking => match event {
            SqliteCopyEvent::IntegrityChecked { passed } => if passed {
                (SqliteCopyState::Finished(SqliteCopyOutcome::FallbackUsed), SqliteCopyAction::Stop)
            } else {
                (SqliteCopyState::Finished(SqliteCopyOutcome::Corrupt), SqliteCopyAction::DiscardCopy)
            },
            _ => fatal,
        },
        SqliteCopyState::Finished(o) => (SqliteCopyState::Finished(o), SqliteCopyAction::Stop),
    }
}

/// Advances the copy of one database file by one observed event.
pub fn sqlite_copy_step(state: SqliteCopyState, event: SqliteCopyEvent) -> (r: (SqliteCopyState, SqliteCopyAction))
    ensures
        r == copy_next(state, event),
{
    let fatal = (SqliteCopyState::Finished(SqliteCopyOutcome::Fatal), SqliteCopyAction::Stop);
    match state {
        SqliteCopyState::Start => match event {
            SqliteCopyEvent::Started { marked_corrupt, hot_backup_wanted } => if marked_corrupt {
                (SqliteCopyState::Finished(SqliteCopyOutcome::Corrupt), SqliteCopyAction::Stop)
            } else if hot_backup_wanted {
                (SqliteCopyState::HotBackupRunning, SqliteCopyAction::RunHotBackup)
            } else {
                (SqliteCopyState::FallbackCopying, SqliteCopyAction::CopyAndCheckpoint)
            },
            _ => fatal,
        },
        SqliteCopyState::HotBackupRunning => match event {
            SqliteCopyEvent::HotBackupExited { success } => if success {
                (SqliteCopyState::HotChecking, SqliteCopyAction::CheckIntegrity)
            } else {
                (SqliteCopyState::FallbackCopying, SqliteCopyAction::CopyAndCheckpoint)
            },
            _ => fatal,
        },
        SqliteCopyState::HotChecking => match event {
            SqliteCopyEvent::IntegrityChecked { passed } => if passed {
                (SqliteCopyState::Finished(SqliteCopyOutcome::Clean), SqliteCopyAction::Stop)
            } else {
                (SqliteCopyState::Finished(SqliteCopyOutcome::Corrupt), SqliteCopyAction::DiscardCopy)
            },
            _ => fatal,
        },
        SqliteCopyState::FallbackCopying => match event {
            SqliteCopyEvent::FallbackCopied { success } => if success {
                (SqliteCopyState::FallbackChecking, SqliteCopyAction::CheckIntegrity)
            } else {
                fatal
            },
            _ => fatal,
        },
        SqliteCopyState::FallbackChecking => match event {
            SqliteCopyEvent::IntegrityChecked { passed } => if passed {
                (SqliteCopyState::Finished(SqliteCopyOutcome::FallbackUsed), SqliteCopyAction::Stop)
            } else {
                (SqliteCopyState::Finished(SqliteCopyOutcome::Corrupt), SqliteCopyAction::DiscardCopy)
            },
            _ => fatal,
        },
        SqliteCopyState::Finished(o) => (SqliteCopyState::Finished(o), SqliteCopyAction::Stop),
    }
}

/// Whether the corruption marker names this source, by full path or by file
/// name; an empty marker names nothing.
pub fn sqlite_marked_corrupt(marker: &str, source_path: &str, file_name: &str) -> (r: bool)
    ensures
        r == (marker@.len() > 0 && (marker@ == source_path@ || marker@ == file_name@)),
{
    marker.unicode_len() > 0 && (same_text(marker, source_path) || same_text(marker, file_name))
}

/// What `str::to_lowercase` makes of a text.
pub uninterp spec fn lower_of(s: Seq<char>) -> Seq<char>;

/// Relies on `str::to_lowercase`: its result depends on the characters alone.
#[verifier::external_body]
fn lowercase(s: &str) -> (r: String)
    ensures
        r@ == lower_of(s@),
{
    s.to_lowercase()
}

/// Whether the already lower-cased report of an integrity check says the
/// database is sound: the report is the single word `ok`, apart from
/// trailing white space.
pub fn integrity_report_ok(lowered: &str) -> (r: bool)
    ensures
        r == (trim_end(lowered@) == "ok"@),
{
    let t = trim_end_text(lowered);
    same_text(t.as_str(), "ok")
}

/// The verdict on an integrity check that ran: it passed when the tool exited
/// successfully and its report, lower-cased, is `ok` and nothing else.
pub fn integrity_passed(exit_success: bool, report: &str) -> (r: bool)
    ensures
        r == (exit_success && trim_end(lower_of(report@)) == "ok"@),
{
    if !exit_success {
        return false;
    }
    let lowered = lowercase(report);
    integrity_report_ok(lowered.as_str())
}

/// A database file classified `Corrupt` after its copy was written ends with
/// that copy discarded; one flagged before anything was written just stops.
pub proof fn lemma_corrupt_copy_discarded(state: SqliteCopyState, event: SqliteCopyEvent)
    requires
        !(state is Finished),
        copy_next(state, event).0 == SqliteCopyState::Finished(SqliteCopyOutcome::Corrupt),
    ensures
        state == SqliteCopyState::Start ==> copy_next(state, event).1 == SqliteCopyAction::Stop,
        state != SqliteCopyState::Start ==> copy_next(state, event).1 == SqliteCopyAction::DiscardCopy,
{
}

} // verus!
