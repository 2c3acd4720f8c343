//! The `backup` command as a procedure: which step comes next after each
//! observed outcome, and what the command reports where it stops.
use vstd::prelude::*;
use crate::commands::CommandOutput;
use crate::text::{concat2, concat3};

verus! {

/// Why a backup did not produce an archive.
#[derive(Clone, Copy, Debug, PartialEq, Eq, Structural)]
pub enum BackupFailure {
    InvalidKind,
    ConfigUnavailable,
    ProfileMissing,
    DirectoryFailed,
    ArchiveFailed,
}

/// What became of the copy to the cloud mirror.
#[derive(Clone, Copy, Debug, PartialEq, Eq, Structural)]
pub enum MirrorResult {
    NotConfigured,
    Copied,
    DirectoryFailed,
    CopyFailed,
}

/// Where a backup run stands.
#[derive(Clone, Copy, Debug, PartialEq, Eq, Structural)]
pub enum BackupStage {
    Start,
    LoadingConfig,
    CheckingProfile,
    CreatingDirectory,
    Building,
    Deleting,
    PruningLocal,
    Mirroring,
    PruningCloud,
    /// The archive exists locally; the mirror result says what became of
    /// its cloud copy.
    Succeeded(MirrorResult),
    Failed(BackupFailure),
}

/// What was observed after the last action.
#[derive(Clone, Copy, Debug, PartialEq, Eq, Structural)]
pub enum BackupEvent {
    /// The run begins; whether the kind named is `daily` or `weekly`.
    Begin { kind_valid: bool },
    /// The settings were loaded, or not.
    ConfigLoaded { ok: bool },
    /// Whether the profile directory exists.
    ProfileChecked { exists: bool },
    /// The directory of the kind's archives was created, or not.
    DirectoryCreated { ok: bool },
    /// The archive was staged and written, or not.
    ArchiveBuilt { ok: bool },
    /// A failed archive's partial file was removed.
    ArchiveDeleted,
    /// Expired archives were pruned.
    Pruned,
    /// The archive was mirrored to the cloud directory: whether a mirror is
    /// configured, whether its directory could be created, whether the copy
    /// was made.
    MirrorCopied { configured: bool, directory_ok: bool, copy_ok: bool },
}

/// What to do next.
#[derive(Clone, Copy, Debug, PartialEq, Eq, Structural)]
pub enum BackupAction {
    LoadConfig,
    CheckProfile,
    CreateKindDirectory,
    BuildArchive,
    DeleteArchive,
    PruneLocal,
    CopyToCloud,
    PruneCloud,
    Finish,
}

/// The backup procedure as a transition table. A failed build deletes the
/// partial archive and stops: nothing is pruned or mirrored. A failed
/// mirror keeps the local archive. An event that does not belong to the
/// stage fails the run before the build, deletes the archive during it,
/// and keeps the archive after it.
pub open spec fn backup_next(stage: BackupStage, event: BackupEvent) -> (BackupStage, BackupAction) {
    let fail = |f: BackupFailure| (BackupStage::Failed(f), BackupAction::Finish);
    match (stage, event) {
        (BackupStage::Start, BackupEvent::Begin { kind_valid }) => if kind_valid {
            (BackupStage::LoadingConfig, BackupAction::LoadConfig)
        } else {
            fail(BackupFailure::InvalidKind)
        },
        (BackupStage::LoadingConfig, BackupEvent::ConfigLoaded { ok }) => if ok {
            (BackupStage::CheckingProfile, BackupAction::CheckProfile)
        } else {
            fail(BackupFailure::ConfigUnavailable)
        },
        (BackupStage::CheckingProfile, BackupEvent::ProfileChecked { exists }) => if exists {
            (BackupStage::CreatingDirectory, BackupAction::CreateKindDirectory)
        } else {
            fail(BackupFailure::ProfileMissing)
        },
        (BackupStage::CreatingDirectory, BackupEvent::DirectoryCreated { ok }) => if ok {
            (BackupStage::Building, BackupAction::BuildArchive)
        } else {
            fail(BackupFailure::DirectoryFailed)
        },
        (BackupStage::Building, BackupEvent::ArchiveBuilt { ok }) => if ok {
            (BackupStage::PruningLocal, BackupAction::PruneLocal)
        } else {
            (BackupStage::Deleting, BackupAction::DeleteArchive)
        },
        (BackupStage::Building, _) => (BackupStage::Deleting, BackupAction::DeleteArchive),
        (BackupStage::Deleting, _) => fail(BackupFailure::ArchiveFailed),
        (BackupStage::PruningLocal, BackupEvent::Pruned) => (BackupStage::Mirroring, BackupAction::CopyToCloud),
        (BackupStage::Mirroring, BackupEvent::MirrorCopied { configured, directory_ok, copy_ok }) => if !configured {
            (BackupStage::Succeeded(MirrorResult::NotConfigured), BackupAction::Finish)
        } else if !directory_ok {
            (BackupStage::Succeeded(MirrorResult::DirectoryFailed), BackupAction::Finish)
        } else if !copy_ok {
            (BackupStage::Succeeded(MirrorResult::CopyFailed), BackupAction::Finish)
        } else {
            (BackupStage::PruningCloud, BackupAction::PruneCloud)
        },
        (BackupStage::PruningCloud, BackupEvent::Pruned) => (
            BackupStage::Succeeded(MirrorResult::Copied),
            BackupAction::Finish,
        ),
        (BackupStage::PruningLocal, _) => (BackupStage::Succeeded(MirrorResult::NotConfigured), BackupAction::Finish),
        (BackupStage::Mirroring, _) => (BackupStage::Succeeded(MirrorResult::CopyFailed), BackupAction::Finish),
        (BackupStage::PruningCloud, _) => (BackupStage::Succeeded(MirrorResult::Copied), BackupAction::Finish),
        (BackupStage::Succeeded(m), _) => (BackupStage::Succeeded(m), BackupAction::Finish),
        (BackupStage::Failed(f), _) => fail(f),
        _ => fail(BackupFailure::ArchiveFailed),
    }
}

/// Advances a backup run by one observed event.
pub fn backup_step(stage: BackupStage, event: &BackupEvent) -> (r: (BackupStage, BackupAction))
    ensures
        r == backup_next(stage, *event),
{
    let fail_archive = (BackupStage::Failed(BackupFailure::ArchiveFailed), BackupAction::Finish);
    match stage {
        BackupStage::Start => match *event {
            BackupEvent::Begin { kind_valid } => if kind_valid {
                (BackupStage::LoadingConfig, BackupAction::LoadConfig)
            } else {
                (BackupStage::Failed(BackupFailure::InvalidKind), BackupAction::Finish)
            },
            _ => fail_archive,
        },
        BackupStage::LoadingConfig => match *event {
            BackupEvent::ConfigLoaded { ok } => if ok {
                (BackupStage::CheckingProfile, BackupAction::CheckProfile)
            } else {
                (BackupStage::Failed(BackupFailure::ConfigUnavailable), BackupAction::Finish)
            },
            _ => fail_archive,
        },
        BackupStage::CheckingProfile => match *event {
            BackupEvent::ProfileChecked { exists } => if exists {
                (BackupStage::CreatingDirectory, BackupAction::CreateKindDirectory)
            } else {
                (BackupStage::Failed(BackupFailure::ProfileMissing), BackupAction::Finish)
            },
            _ => fail_archive,
        },
        BackupStage::CreatingDirectory => match *event {
            BackupEvent::DirectoryCreated { ok } => if ok {
                (BackupStage::Building, BackupAction::BuildArchive)
            } else {
                (BackupStage::Failed(BackupFailure::DirectoryFailed), BackupAction::Finish)
            },
            _ => fail_archive,
        },
        BackupStage::Building => match *event {
            BackupEvent::ArchiveBuilt { ok } => if ok {
                (BackupStage::PruningLocal, BackupAction::PruneLocal)
            } else {
                (BackupStage::Deleting, BackupAction::DeleteArchive)
            },
            _ => (BackupStage::Deleting, BackupAction::DeleteArchive),
        },
        BackupStage::Deleting => fail_archive,
        BackupStage::PruningLocal => match *event {
            BackupEvent::Pruned => (BackupStage::Mirroring, BackupAction::CopyToCloud),
            _ => (BackupStage::Succeeded(MirrorResult::NotConfigured), BackupAction::Finish),
        },
        BackupStage::Mirroring => match *event {
            BackupEvent::MirrorCopied { configured, directory_ok, copy_ok } => if !configured {
                (BackupStage::Succeeded(MirrorResult::NotConfigured), BackupAction::Finish)
            } else if !directory_ok {
                (BackupStage::Succeeded(MirrorResult::DirectoryFailed), BackupAction::Finish)
            } else if !copy_ok {
                (BackupStage::Succeeded(MirrorResult::CopyFailed), BackupAction::Finish)
            } else {
                (BackupStage::PruningCloud, BackupAction::PruneCloud)
            },
            _ => (BackupStage::Succeeded(MirrorResult::CopyFailed), BackupAction::Finish),
        },
        BackupStage::PruningCloud => (BackupStage::Succeeded(MirrorResult::Copied), BackupAction::Finish),
        BackupStage::Succeeded(m) => (BackupStage::Succeeded(m), BackupAction::Finish),
        BackupStage::Failed(f) => (BackupStage::Failed(f), BackupAction::Finish),
    }
}

/// The stage reached and the actions issued over a run of events, from
/// `Start`.
pub open spec fn backup_run(events: Seq<BackupEvent>) -> (BackupStage, Seq<BackupAction>)
    decreases events.len(),
{
    if events.len() == 0 {
        (BackupStage::Start, Seq::empty())
    } else {
        let prev = backup_run(events.drop_last());
        let next = backup_next(prev.0, events.last());
        (next.0, prev.1.push(next.1))
    }
}

/// One action per event.
pub proof fn lemma_backup_run_len(events: Seq<BackupEvent>)
    ensures
        backup_run(events).1.len() == events.len(),
    decreases events.len(),
{
    if events.len() > 0 {
        lemma_backup_run_len(events.drop_last());
    }
}

/// After a failed build the run only deletes the partial archive and
/// finishes: from that event on, no action prunes, mirrors or builds, and
/// the run ends failed.
pub proof fn lemma_failed_build_stops(events: Seq<BackupEvent>, k: int)
    requires
        0 <= k < events.len(),
        backup_run(events.take(k)).0 == BackupStage::Building,
        events[k] == (BackupEvent::ArchiveBuilt { ok: false }),
    ensures
        forall|m: int|
            k <= m < events.len() ==> #[trigger] backup_run(events).1[m] == BackupAction::DeleteArchive
                || backup_run(events).1[m] == BackupAction::Finish,
        backup_run(events).0 == BackupStage::Deleting || backup_run(events).0 == BackupStage::Failed(
            BackupFailure::ArchiveFailed,
        ),
    decreases events.len(),
{
    lemma_backup_run_len(events);
    let init = events.drop_last();
    lemma_backup_run_len(init);
    if events.len() == k + 1 {
        assert(init =~= events.take(k));
        assert(backup_run(events).1[k] == BackupAction::DeleteArchive);
        assert forall|m: int| k <= m < events.len() implies #[trigger] backup_run(events).1[m]
            == BackupAction::DeleteArchive || backup_run(events).1[m] == BackupAction::Finish by {
            assert(m == k);
        }
    } else {
        assert(init.take(k) =~= events.take(k));
        assert(init[k] == events[k]);
        lemma_failed_build_stops(init, k);
        assert forall|m: int| k <= m < events.len() implies #[trigger] backup_run(events).1[m]
            == BackupAction::DeleteArchive || backup_run(events).1[m] == BackupAction::Finish by {
            if m < events.len() - 1 {
                assert(backup_run(events).1[m] == backup_run(init).1[m]);
            }
        }
    }
}

/// The error message of a run that stopped in `stage` without an archive.
pub open spec fn backup_error(stage: BackupStage, profile_path: Seq<char>, detail: Seq<char>) -> Seq<char> {
    match stage {
        BackupStage::Failed(BackupFailure::InvalidKind) => "backup kind must be daily or weekly"@,
        BackupStage::Failed(BackupFailure::ConfigUnavailable) => detail,
        BackupStage::Failed(BackupFailure::ProfileMissing) => "profile path not found: "@ + profile_path,
        BackupStage::Failed(BackupFailure::DirectoryFailed) => "failed to create backup directory: "@ + detail,
        _ => "archive creation failed"@,
    }
}

/// The error of a mirror that failed, if it did.
pub open spec fn mirror_error(m: MirrorResult) -> Seq<char> {
    match m {
        MirrorResult::DirectoryFailed => "cloud sync failed: failed to create cloud backup directory"@,
        MirrorResult::CopyFailed => "cloud sync failed: failed to copy archive"@,
        _ => Seq::empty(),
    }
}

/// The output of `backup <kind>` once the procedure stopped in `stage`: the
/// archive's path when it was made (exit code 1 when its mirror failed),
/// else the reason it was not.
pub fn backup_report(stage: BackupStage, kind: &str, archive_path: &str, profile_path: &str, detail: &str) -> (r:
    CommandOutput)
    ensures
        match stage {
            BackupStage::Succeeded(m) => r.stdout@ == "Created "@ + kind@ + " backup: "@ + archive_path@
                && r.stderr@ == mirror_error(m) && r.exit_code == if m == MirrorResult::NotConfigured || m
                == MirrorResult::Copied {
                0i32
            } else {
                1i32
            },
            _ => r.exit_code == 1 && r.stdout@.len() == 0 && r.stderr@ == backup_error(stage, profile_path@, detail@),
        },
{
    match stage {
        BackupStage::Succeeded(m) => {
            let mut stdout = concat3("Created ", kind, " backup: ");
            stdout.append(archive_path);
            let (exit_code, stderr) = match m {
                MirrorResult::DirectoryFailed => (
                    1,
                    String::from_str("cloud sync failed: failed to create cloud backup directory"),
                ),
                MirrorResult::CopyFailed => (1, String::from_str("cloud sync failed: failed to copy archive")),
                _ => (0, String::new()),
            };
            CommandOutput { exit_code, stdout, stderr }
        },
        _ => {
            let stderr = match stage {
                BackupStage::Failed(BackupFailure::InvalidKind) => String::from_str(
                    "backup kind must be daily or weekly",
                ),
                BackupStage::Failed(BackupFailure::ConfigUnavailable) => String::from_str(detail),
                BackupStage::Failed(BackupFailure::ProfileMissing) => concat2("profile path not found: ", profile_path),
                BackupStage::Failed(BackupFailure::DirectoryFailed) => concat2(
                    "failed to create backup directory: ",
                    detail,
                ),
                _ => String::from_str("archive creation failed"),
            };
            CommandOutput { exit_code: 1, stdout: String::new(), stderr }
        },
    }
}

} // verus!
