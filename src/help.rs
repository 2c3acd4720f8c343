//! Help texts of the command line.
use vstd::prelude::*;

verus! {

/// The help text of the program.
pub open spec fn root_help() -> Seq<char> {
    "Zen Profile Backup\n\nUsage\n  zen-backup <command> [options]\n\nGlobal Options\n  -h, --help\n  -v, --version\n  --debug\n  --log-file [path]\n\nCommands\n  backup <daily|weekly>\n  restore <archive>\n  list\n  status\n  install\n  uninstall [--purge-backups]\n  schedule <start|resume|stop|pause|status>\n  feedback <bug|request>"@
}

/// The help text of `schedule`.
pub open spec fn schedule_help() -> Seq<char> {
    "zen-backup schedule\n\nUsage\n  zen-backup schedule <start|resume|stop|pause|status>\n\nNotes\n  resume = start\n  pause = stop"@
}

/// The help text of `feedback`.
pub open spec fn feedback_help() -> Seq<char> {
    "zen-backup feedback\n\nUsage\n  zen-backup feedback <bug|request>"@
}

/// Renders the help text of the program.
pub fn render_root_help() -> (r: String)
    ensures
        r@ == root_help(),
{
    String::from_str(
        "Zen Profile Backup\n\nUsage\n  zen-backup <command> [options]\n\nGlobal Options\n  -h, --help\n  -v, --version\n  --debug\n  --log-file [path]\n\nCommands\n  backup <daily|weekly>\n  restore <archive>\n  list\n  status\n  install\n  uninstall [--purge-backups]\n  schedule <start|resume|stop|pause|status>\n  feedback <bug|request>",
    )
}

/// Renders the help text of `schedule`.
pub fn render_schedule_help() -> (r: String)
    ensures
        r@ == schedule_help(),
{
    String::from_str(
        "zen-backup schedule\n\nUsage\n  zen-backup schedule <start|resume|stop|pause|status>\n\nNotes\n  resume = start\n  pause = stop",
    )
}

/// Renders the help text of `feedback`.
pub fn render_feedback_help() -> (r: String)
    ensures
        r@ == feedback_help(),
{
    String::from_str("zen-backup feedback\n\nUsage\n  zen-backup feedback <bug|request>")
}

} // verus!
