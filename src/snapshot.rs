//! The snapshot builder's decisions: what to do with each entry of the
//! profile tree, and how copy outcomes add up to a snapshot.
use vstd::prelude::*;
use crate::filter::{included, sqlite_name, should_include, is_sqlite_file};
use crate::sqlite::SqliteCopyOutcome;
use crate::text::{concat2, views};

verus! {

/// What the builder does with one entry of the profile tree.
#[derive(Clone, Copy, Debug, PartialEq, Eq, Structural)]
pub enum EntryAction {
    /// Left out by the inclusion filter.
    Skip,
    /// A directory: create it in the staging tree and walk into it.
    Descend,
    /// A database file: stage it with the safe copy.
    CopyDatabase,
    /// Any other file: stage it with a plain copy.
    CopyFile,
}

/// The action for an entry.
pub open spec fn action_of(rel: Seq<char>, name: Seq<char>, is_dir: bool) -> EntryAction {
    if !included(rel, name, is_dir) {
        EntryAction::Skip
    } else if is_dir {
        EntryAction::Descend
    } else if sqlite_name(name) {
        EntryAction::CopyDatabase
    } else {
        EntryAction::CopyFile
    }
}

/// Decides what to do with the entry at `rel_path` named `file_name`.
pub fn entry_action(rel_path: &str, file_name: &str, is_directory: bool) -> (r: EntryAction)
    ensures
        r == action_of(rel_path@, file_name@, is_directory),
{
    if !should_include(rel_path, file_name, is_directory) {
        EntryAction::Skip
    } else if is_directory {
        EntryAction::Descend
    } else if is_sqlite_file(file_name) {
        EntryAction::CopyDatabase
    } else {
        EntryAction::CopyFile
    }
}

/// What a snapshot has gathered so far: the relative paths staged, the
/// warnings raised, and whether it failed.
pub struct SnapshotLog {
    pub captured: Vec<String>,
    pub warnings: Vec<String>,
    pub failed: bool,
}

/// The mathematical content of a `SnapshotLog`.
pub struct LogView {
    pub captured: Seq<Seq<char>>,
    pub warnings: Seq<Seq<char>>,
    pub failed: bool,
}

impl View for SnapshotLog {
    type V = LogView;

    open spec fn view(&self) -> LogView {
        LogView { captured: views(self.captured@), warnings: views(self.warnings@), failed: self.failed }
    }
}

/// The warning for a database staged through the fallback path.
pub open spec fn fallback_warning(rel: Seq<char>) -> Seq<char> {
    "fallback sqlite copy used for "@ + rel
}

/// The warning for a database skipped as corrupt.
pub open spec fn corrupt_warning(rel: Seq<char>) -> Seq<char> {
    "corrupt sqlite skipped: "@ + rel
}

/// One staged entry added to the log. A plain file counts as `Clean` when it
/// was copied and `Fatal` when it was not. Once failed, the log no longer
/// changes.
pub open spec fn log_step(l: LogView, rel: Seq<char>, outcome: SqliteCopyOutcome) -> LogView {
    if l.failed {
        l
    } else {
        match outcome {
            SqliteCopyOutcome::Clean => LogView { captured: l.captured.push(rel), ..l },
            SqliteCopyOutcome::FallbackUsed => LogView {
                captured: l.captured.push(rel),
                warnings: l.warnings.push(fallback_warning(rel)),
                ..l
            },
            SqliteCopyOutcome::Corrupt => LogView { warnings: l.warnings.push(corrupt_warning(rel)), ..l },
            SqliteCopyOutcome::Fatal => LogView { failed: true, ..l },
        }
    }
}

/// The log after a run of staged entries, from an empty one.
pub open spec fn log_after(events: Seq<(Seq<char>, SqliteCopyOutcome)>) -> LogView
    decreases events.len(),
{
    if events.len() == 0 {
        LogView { captured: Seq::empty(), warnings: Seq::empty(), failed: false }
    } else {
        log_step(log_after(events.drop_last()), events.last().0, events.last().1)
    }
}

impl SnapshotLog {
    /// An empty log.
    pub fn new() -> (r: SnapshotLog)
        ensures
            r@ == log_after(Seq::empty()),
    {
        let r = SnapshotLog { captured: Vec::new(), warnings: Vec::new(), failed: false };
        proof {
            assert(r@.captured =~= Seq::<Seq<char>>::empty());
            assert(r@.warnings =~= Seq::<Seq<char>>::empty());
        }
        r
    }

    /// Adds the outcome of staging the entry at `rel_path`.
    pub fn record(&mut self, rel_path: &str, outcome: SqliteCopyOutcome)
        ensures
            final(self)@ == log_step(old(self)@, rel_path@, outcome),
    {
        if self.failed {
            return;
        }
        proof {
            reveal_strlit("fallback sqlite copy used for ");
            reveal_strlit("corrupt sqlite skipped: ");
        }
        match outcome {
            SqliteCopyOutcome::Clean => {
                self.captured.push(String::from_str(rel_path));
            },
            SqliteCopyOutcome::FallbackUsed => {
                self.captured.push(String::from_str(rel_path));
                self.warnings.push(concat2("fallback sqlite copy used for ", rel_path));
            },
            SqliteCopyOutcome::Corrupt => {
                self.warnings.push(concat2("corrupt sqlite skipped: ", rel_path));
            },
            SqliteCopyOutcome::Fatal => {
                self.failed = true;
            },
        }
        proof {
            assert(final(self)@.captured =~= log_step(old(self)@, rel_path@, outcome).captured);
            assert(final(self)@.warnings =~= log_step(old(self)@, rel_path@, outcome).warnings);
        }
    }
}

/// A database file classified `Corrupt` does not keep anything else out of
/// the snapshot: as long as no entry is `Fatal`, the snapshot has not failed
/// and every entry that was not `Corrupt`, databases included, is captured.
pub proof fn lemma_corrupt_is_local(events: Seq<(Seq<char>, SqliteCopyOutcome)>)
    requires
        forall|i: int| 0 <= i < events.len() ==> (#[trigger] events[i]).1 != SqliteCopyOutcome::Fatal,
    ensures
        !log_after(events).failed,
        forall|i: int|
            0 <= i < events.len() && (#[trigger] events[i]).1 != SqliteCopyOutcome::Corrupt
                ==> log_after(events).captured.contains(events[i].0),
    decreases events.len(),
{
    if events.len() > 0 {
        let init = events.drop_last();
        assert forall|i: int| 0 <= i < init.len() implies (#[trigger] init[i]).1 != SqliteCopyOutcome::Fatal by {
            assert(init[i] == events[i]);
        }
        lemma_corrupt_is_local(init);
        let before = log_after(init);
        let after = log_after(events);
        assert forall|i: int|
            0 <= i < events.len() && (#[trigger] events[i]).1 != SqliteCopyOutcome::Corrupt implies after.captured.contains(
            events[i].0) by {
            if i < events.len() - 1 {
                assert(init[i] == events[i]);
                assert(before.captured.contains(events[i].0));
                let j = choose|j: int| 0 <= j < before.captured.len() && before.captured[j] == events[i].0;
                assert(after.captured[j] == events[i].0);
            } else {
                assert(after.captured[after.captured.len() - 1] == events[i].0);
            }
        }
    }
}

} // verus!
