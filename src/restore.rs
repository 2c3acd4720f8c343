//! Restore safety: the scan of an archive's entry listing, the name of the
//! pre-restore backup, and where an archive is looked for.
use vstd::prelude::*;
use crate::text::{trimmed, trim_text, split_on, split_text, views, push_char, concat2, concat3, same_text, lemma_split_nonempty};
use crate::commands::CommandOutput;
use crate::filter::{sqlite_name, is_sqlite_file};
use crate::naming::{first_free, first_free_name, taken, numbered, lemma_next_pick_is_numbered};

verus! {

/// `s` with every `\\` turned into `/`.
pub open spec fn forward_slashes(s: Seq<char>) -> Seq<char> {
    s.map_values(|c: char| if c == '\\' { '/' } else { c })
}

/// `s` without any leading `./` pieces.
pub open spec fn strip_dot_slashes(s: Seq<char>) -> Seq<char>
    decreases s.len(),
{
    if s.len() >= 2 && s[0] == '.' && s[1] == '/' {
        strip_dot_slashes(s.subrange(2, s.len() as int))
    } else {
        s
    }
}

/// `s` without any leading `/`.
pub open spec fn strip_slashes(s: Seq<char>) -> Seq<char>
    decreases s.len(),
{
    if s.len() > 0 && s[0] == '/' {
        strip_slashes(s.drop_first())
    } else {
        s
    }
}

/// A listed entry normalized: trimmed, separators written `/`, leading `./`
/// and then leading `/` removed.
pub open spec fn sanitized(entry: Seq<char>) -> Seq<char> {
    strip_slashes(strip_dot_slashes(forward_slashes(trimmed(entry))))
}

/// A drive-letter absolute path: a one-byte character, `:` and `/`, the
/// drive root itself included.
pub open spec fn drive_absolute(p: Seq<char>) -> bool {
    p.len() >= 3 && (p[0] as u32) < 128 && p[1] == ':' && p[2] == '/'
}

/// An entry that would escape the restore target: a rooted path, or, after
/// normalizing, one with a `..` segment or a drive-letter absolute path.
pub open spec fn escapes_target(entry: Seq<char>) -> bool {
    let e = sanitized(entry);
    rooted(entry) || (exists|i: int| 0 <= i < split_on(e, '/').len() && #[trigger] split_on(e, '/')[i] == ".."@)
        || drive_absolute(e)
}

/// A rooted path: once trimmed, it begins with a separator.
pub open spec fn rooted(entry: Seq<char>) -> bool {
    let t = trimmed(entry);
    t.len() > 0 && (t[0] == '/' || t[0] == '\\')
}

/// Normalizes one line of an archive listing: trims it, writes separators as
/// `/`, and removes leading `./` and then leading `/`.
pub fn sanitize_tar_entry(entry: &str) -> (r: String)
    ensures
        r@ == sanitized(entry@),
{
    let t = trim_text(entry);
    let n = t.unicode_len();
    let mut v = String::new();
    let mut i: usize = 0;
    while i < n
        invariant
            n == t@.len(),
            i <= n,
            v@ == forward_slashes(t@).take(i as int),
        decreases n - i,
    {
        let c = t.as_str().get_char(i);
        if c == '\\' {
            push_char(&mut v, '/');
        } else {
            push_char(&mut v, c);
        }
        proof {
            assert(v@ =~= forward_slashes(t@).take(i + 1));
        }
        i += 1;
    }
    proof {
        assert(forward_slashes(t@).take(n as int) =~= forward_slashes(t@));
    }
    let w = v.as_str();
    let m = w.unicode_len();
    let mut k: usize = 0;
    proof {
        assert(w@.subrange(0, m as int) =~= w@);
    }
    while m - k >= 2 && w.get_char(k) == '.' && w.get_char(k + 1) == '/'
        invariant
            m == w@.len(),
            k <= m,
            strip_dot_slashes(w@) == strip_dot_slashes(w@.subrange(k as int, m as int)),
        decreases m - k,
    {
        proof {
            assert(w@.subrange(k as int, m as int).subrange(2, m - k) =~= w@.subrange(k + 2, m as int));
        }
        k += 2;
    }
    proof {
        assert(strip_dot_slashes(w@) == w@.subrange(k as int, m as int));
    }
    let mut j: usize = k;
    while j < m && w.get_char(j) == '/'
        invariant
            m == w@.len(),
            k <= j <= m,
            strip_slashes(strip_dot_slashes(w@)) == strip_slashes(w@.subrange(j as int, m as int)),
        decreases m - j,
    {
        proof {
            assert(w@.subrange(j as int, m as int).drop_first() =~= w@.subrange(j + 1, m as int));
        }
        j += 1;
    }
    String::from_str(w.substring_char(j, m))
}

/// Whether a normalized entry is a drive-letter absolute path.
pub fn is_windows_abs(path: &str) -> (r: bool)
    ensures
        r == drive_absolute(path@),
{
    path.unicode_len() >= 3 && (path.get_char(0) as u32) < 128 && path.get_char(1) == ':'
        && path.get_char(2) == '/'
}

/// A line without the `\r` of a `\r\n` ending.
pub open spec fn strip_cr(l: Seq<char>) -> Seq<char> {
    if l.len() > 0 && l.last() == '\r' {
        l.drop_last()
    } else {
        l
    }
}

/// Each piece without the `\r` of a `\r\n` ending.
pub open spec fn without_cr(pieces: Seq<Seq<char>>) -> Seq<Seq<char>> {
    pieces.map_values(|l: Seq<char>| strip_cr(l))
}

/// The lines of a text as `str::lines` yields them: pieces between `\n`,
/// each without a `\r` in front of its `\n`, and no empty piece after a
/// final `\n`.
pub open spec fn text_lines(s: Seq<char>) -> Seq<Seq<char>> {
    let parts = split_on(s, '\n');
    let body = without_cr(parts.drop_last());
    if parts.last().len() == 0 {
        body
    } else {
        body.push(parts.last())
    }
}

/// Whether one listed entry would escape the restore target.
pub fn entry_escapes(line: &str) -> (r: bool)
    ensures
        r == escapes_target(line@),
{
    let t = trim_text(line);
    if t.as_str().unicode_len() > 0 {
        let first = t.as_str().get_char(0);
        if first == '/' || first == '\\' {
            return true;
        }
    }
    let e = sanitize_tar_entry(line);
    let segments = split_text(e.as_str(), '/');
    proof {
        assert(views(segments@).len() == segments@.len());
    }
    let mut i: usize = 0;
    while i < segments.len()
        invariant
            i <= segments.len(),
            views(segments@) == split_on(e@, '/'),
            e@ == sanitized(line@),
            forall|j: int| 0 <= j < i ==> split_on(e@, '/')[j] != ".."@,
        decreases segments.len() - i,
    {
        proof {
            assert(segments@[i as int]@ == split_on(e@, '/')[i as int]);
        }
        if same_text(segments[i].as_str(), "..") {
            proof {
                assert(0 <= i < split_on(e@, '/').len() && split_on(e@, '/')[i as int] == ".."@);
            }
            return true;
        }
        i += 1;
    }
    is_windows_abs(e.as_str())
}

fn line_without_cr(l: &str) -> (r: String)
    ensures
        r@ == strip_cr(l@),
{
    let n = l.unicode_len();
    if n > 0 && l.get_char(n - 1) == '\r' {
        String::from_str(l.substring_char(0, n - 1))
    } else {
        String::from_str(l)
    }
}

/// The lines of a text.
pub fn lines_of(text: &str) -> (r: Vec<String>)
    ensures
        views(r@) == text_lines(text@),
{
    let parts = split_text(text, '\n');
    let ghost pv = split_on(text@, '\n');
    proof {
        lemma_split_nonempty(text@, '\n');
        assert(views(parts@).len() == parts@.len());
    }
    let last = parts.len() - 1;
    let mut out: Vec<String> = Vec::new();
    let mut i: usize = 0;
    while i < last
        invariant
            last == parts.len() - 1,
            i <= last,
            views(parts@) == pv,
            pv.len() == parts.len(),
            views(out@) == without_cr(pv.drop_last()).take(i as int),
        decreases last - i,
    {
        proof {
            assert(parts@[i as int]@ == pv[i as int]);
            assert(without_cr(pv.drop_last())[i as int] == strip_cr(pv[i as int]));
        }
        let ghost prev = views(out@);
        let line = line_without_cr(parts[i].as_str());
        out.push(line);
        proof {
            assert(views(out@) =~= prev.push(strip_cr(pv[i as int])));
            assert(without_cr(pv.drop_last()).take(i + 1) =~= without_cr(pv.drop_last()).take(i as int).push(
                strip_cr(pv[i as int]),
            ));
        }
        i += 1;
    }
    proof {
        assert(parts@[last as int]@ == pv.last());
        assert(without_cr(pv.drop_last()).take(last as int) =~= without_cr(pv.drop_last()));
    }
    if parts[last].unicode_len() > 0 {
        out.push(parts[last].clone());
        proof {
            assert(views(out@) =~= text_lines(text@));
        }
    }
    out
}

/// The archive listing passes when no line escapes the restore target.
pub open spec fn listing_safe(listing: Seq<char>) -> bool {
    forall|i: int| 0 <= i < text_lines(listing).len() ==> !escapes_target(#[trigger] text_lines(listing)[i])
}

/// Scans an archive's entry listing before anything is extracted. Fails
/// with `invalid archive entry: <line>` on the first line that escapes the
/// restore target.
pub fn validate_listing(listing: &str) -> (r: Result<(), String>)
    ensures
        r is Ok <==> listing_safe(listing@),
        r matches Err(m) ==> exists|i: int|
            0 <= i < text_lines(listing@).len() && escapes_target(#[trigger] text_lines(listing@)[i])
                && (forall|j: int| 0 <= j < i ==> !escapes_target(text_lines(listing@)[j]))
                && m@ == "invalid archive entry: "@ + text_lines(listing@)[i],
{
    let lines = lines_of(listing);
    let ghost lv = text_lines(listing@);
    proof {
        assert(views(lines@).len() == lines@.len());
    }
    let mut i: usize = 0;
    while i < lines.len()
        invariant
            i <= lines.len(),
            views(lines@) == lv,
            lv == text_lines(listing@),
            forall|j: int| 0 <= j < i ==> !escapes_target(#[trigger] lv[j]),
        decreases lines.len() - i,
    {
        proof {
            assert(lines@[i as int]@ == lv[i as int]);
        }
        if entry_escapes(lines[i].as_str()) {
            let m = concat2("invalid archive entry: ", lines[i].as_str());
            proof {
                assert(!listing_safe(listing@));
            }
            return Err(m);
        }
        i += 1;
    }
    Ok(())
}

/// A listing with an entry that climbs out through `..`, or that names a
/// rooted or drive-letter absolute path, is rejected before anything is
/// extracted.
pub proof fn lemma_escaping_listing_rejected(listing: Seq<char>, i: int)
    requires
        0 <= i < text_lines(listing).len(),
        escapes_target(text_lines(listing)[i]),
    ensures
        !listing_safe(listing),
{
}

/// The path of the pre-restore backup without a number: the profile path,
/// then `.pre-restore-`, then the date.
pub open spec fn pre_restore_base(profile: Seq<char>, date: Seq<char>) -> Seq<char> {
    profile + ".pre-restore-"@ + date
}

/// Where the live profile is moved aside before a restore, given the paths
/// that already exist: `<profile>.pre-restore-<date>`, or, when that is
/// taken, the same with `-n` for the least free `n` from 2 up. An existing
/// pre-restore backup is never reused.
pub fn pre_restore_path(profile: &str, date: &str, existing: &Vec<String>) -> (r: String)
    ensures
        first_free(existing@, pre_restore_base(profile@, date@), Seq::empty(), r@),
        !taken(existing@, r@),
{
    let base = concat3(profile, ".pre-restore-", date);
    proof {
        reveal_strlit("");
        assert(""@ =~= Seq::<char>::empty());
    }
    first_free_name(existing, base.as_str(), "")
}

/// Two restores of one profile on one day: once the first pre-restore backup
/// exists, the second gets a numbered path of its own, so a prior safety
/// copy is never overwritten.
pub proof fn lemma_pre_restore_never_reused(
    existing: Seq<String>,
    later: Seq<String>,
    profile: Seq<char>,
    date: Seq<char>,
    first: Seq<char>,
    second: Seq<char>,
)
    requires
        first_free(existing, pre_restore_base(profile, date), Seq::empty(), first),
        taken(later, first),
        forall|s: Seq<char>| taken(existing, s) ==> taken(later, s),
        first_free(later, pre_restore_base(profile, date), Seq::empty(), second),
    ensures
        exists|n: nat| 2 <= n && second == numbered(pre_restore_base(profile, date), Seq::empty(), n),
        second != first,
        !taken(later, second),
{
    lemma_next_pick_is_numbered(existing, later, pre_restore_base(profile, date), Seq::empty(), first, second);
}

/// The first place, in the order tried, where the archive exists.
pub fn first_existing(exists: &Vec<bool>) -> (r: Option<usize>)
    ensures
        match r {
            Some(i) => i < exists@.len() && exists@[i as int] && forall|j: int| 0 <= j < i ==> !exists@[j],
            None => forall|j: int| 0 <= j < exists@.len() ==> !exists@[j],
        },
{
    let mut i: usize = 0;
    while i < exists.len()
        invariant
            i <= exists.len(),
            forall|j: int| 0 <= j < i ==> !exists@[j],
        decreases exists.len() - i,
    {
        if exists[i] {
            return Some(i);
        }
        i += 1;
    }
    None
}

/// Why a restore did not complete.
#[derive(Clone, Copy, Debug, PartialEq, Eq, Structural)]
pub enum RestoreFailure {
    BrowserRunning,
    ArchiveNotFound,
    InvalidArchive,
    UnsafeEntry,
    RotateFailed,
    InstallFailed,
    VerifyFailed,
}

/// Where a restore attempt stands.
#[derive(Clone, Copy, Debug, PartialEq, Eq, Structural)]
pub enum RestoreStage {
    Start,
    Resolving,
    Validating,
    Extracting,
    Rotating,
    Installing,
    Verifying,
    Succeeded,
    Failed(RestoreFailure),
}

/// What was observed after the last action.
pub enum RestoreEvent {
    /// The attempt begins; whether the browser owning the profile runs.
    Begin { browser_running: bool },
    /// The archive was looked for.
    Resolved { found: bool },
    /// The container tool listed the archive's entries, or failed to.
    Listed { tool_ok: bool, listing: String },
    /// The archive was extracted into staging, or not.
    Extracted { ok: bool },
    /// The live profile was moved aside to the pre-restore backup, or not.
    Rotated { ok: bool },
    /// The staged tree was copied into a fresh profile directory, or not.
    Installed { ok: bool },
    /// Every restored database passed its integrity check, or not.
    Verified { ok: bool },
}

/// What to do next.
#[derive(Clone, Copy, Debug, PartialEq, Eq, Structural)]
pub enum RestoreAction {
    FindArchive,
    ListEntries,
    ExtractToStaging,
    RotateLive,
    InstallStaged,
    VerifyDatabases,
    Finish,
}

/// The actions that touch the live profile.
pub open spec fn mutates_live(a: RestoreAction) -> bool {
    a == RestoreAction::RotateLive || a == RestoreAction::InstallStaged
}

/// An event that says the listing was read and is safe.
pub open spec fn safe_listing_event(e: RestoreEvent) -> bool {
    e matches RestoreEvent::Listed { tool_ok, listing } && tool_ok && listing_safe(listing@)
}

/// The restore procedure as a transition table. An event that does not
/// belong to the current stage fails the attempt as an invalid archive when
/// nothing has been touched yet; a finished attempt stays finished.
pub open spec fn restore_next(stage: RestoreStage, event: RestoreEvent) -> (RestoreStage, RestoreAction) {
    let fail = |f: RestoreFailure| (RestoreStage::Failed(f), RestoreAction::Finish);
    match (stage, event) {
        (RestoreStage::Start, RestoreEvent::Begin { browser_running }) => if browser_running {
            fail(RestoreFailure::BrowserRunning)
        } else {
            (RestoreStage::Resolving, RestoreAction::FindArchive)
        },
        (RestoreStage::Resolving, RestoreEvent::Resolved { found }) => if found {
            (RestoreStage::Validating, RestoreAction::ListEntries)
        } else {
            fail(RestoreFailure::ArchiveNotFound)
        },
        (RestoreStage::Validating, RestoreEvent::Listed { tool_ok, listing }) => if !tool_ok {
            fail(RestoreFailure::InvalidArchive)
        } else if !listing_safe(listing@) {
            fail(RestoreFailure::UnsafeEntry)
        } else {
            (RestoreStage::Extracting, RestoreAction::ExtractToStaging)
        },
        (RestoreStage::Extracting, RestoreEvent::Extracted { ok }) => if ok {
            (RestoreStage::Rotating, RestoreAction::RotateLive)
        } else {
            fail(RestoreFailure::InvalidArchive)
        },
        (RestoreStage::Rotating, RestoreEvent::Rotated { ok }) => if ok {
            (RestoreStage::Installing, RestoreAction::InstallStaged)
        } else {
            fail(RestoreFailure::RotateFailed)
        },
        (RestoreStage::Installing, RestoreEvent::Installed { ok }) => if ok {
            (RestoreStage::Verifying, RestoreAction::VerifyDatabases)
        } else {
            fail(RestoreFailure::InstallFailed)
        },
        (RestoreStage::Verifying, RestoreEvent::Verified { ok }) => if ok {
            (RestoreStage::Succeeded, RestoreAction::Finish)
        } else {
            fail(RestoreFailure::VerifyFailed)
        },
        (RestoreStage::Succeeded, _) => (RestoreStage::Succeeded, RestoreAction::Finish),
        (RestoreStage::Failed(f), _) => fail(f),
        (RestoreStage::Rotating, _) => fail(RestoreFailure::RotateFailed),
        (RestoreStage::Installing, _) => fail(RestoreFailure::InstallFailed),
        (RestoreStage::Verifying, _) => fail(RestoreFailure::VerifyFailed),
        _ => fail(RestoreFailure::InvalidArchive),
    }
}

/// Advances a restore attempt by one observed event.
pub fn restore_step(stage: RestoreStage, event: &RestoreEvent) -> (r: (RestoreStage, RestoreAction))
    ensures
        r == restore_next(stage, *event),
{
    let fail = (RestoreStage::Failed(RestoreFailure::InvalidArchive), RestoreAction::Finish);
    match stage {
        RestoreStage::Start => match event {
            RestoreEvent::Begin { browser_running } => if *browser_running {
                (RestoreStage::Failed(RestoreFailure::BrowserRunning), RestoreAction::Finish)
            } else {
                (RestoreStage::Resolving, RestoreAction::FindArchive)
            },
            _ => fail,
        },
        RestoreStage::Resolving => match event {
            RestoreEvent::Resolved { found } => if *found {
                (RestoreStage::Validating, RestoreAction::ListEntries)
            } else {
                (RestoreStage::Failed(RestoreFailure::ArchiveNotFound), RestoreAction::Finish)
            },
            _ => fail,
        },
        RestoreStage::Validating => match event {
            RestoreEvent::Listed { tool_ok, listing } => if !*tool_ok {
                fail
            } else if validate_listing(listing.as_str()).is_err() {
                (RestoreStage::Failed(RestoreFailure::UnsafeEntry), RestoreAction::Finish)
            } else {
                (RestoreStage::Extracting, RestoreAction::ExtractToStaging)
            },
            _ => fail,
        },
        RestoreStage::Extracting => match event {
            RestoreEvent::Extracted { ok } => if *ok {
                (RestoreStage::Rotating, RestoreAction::RotateLive)
            } else {
                fail
            },
            _ => fail,
        },
        RestoreStage::Rotating => match event {
            RestoreEvent::Rotated { ok } => if *ok {
                (RestoreStage::Installing, RestoreAction::InstallStaged)
            } else {
                (RestoreStage::Failed(RestoreFailure::RotateFailed), RestoreAction::Finish)
            },
            _ => (RestoreStage::Failed(RestoreFailure::RotateFailed), RestoreAction::Finish),
        },
        RestoreStage::Installing => match event {
            RestoreEvent::Installed { ok } => if *ok {
                (RestoreStage::Verifying, RestoreAction::VerifyDatabases)
            } else {
                (RestoreStage::Failed(RestoreFailure::InstallFailed), RestoreAction::Finish)
            },
            _ => (RestoreStage::Failed(RestoreFailure::InstallFailed), RestoreAction::Finish),
        },
        RestoreStage::Verifying => match event {
            RestoreEvent::Verified { ok } => if *ok {
                (RestoreStage::Succeeded, RestoreAction::Finish)
            } else {
                (RestoreStage::Failed(RestoreFailure::VerifyFailed), RestoreAction::Finish)
            },
            _ => (RestoreStage::Failed(RestoreFailure::VerifyFailed), RestoreAction::Finish),
        },
        RestoreStage::Succeeded => (RestoreStage::Succeeded, RestoreAction::Finish),
        RestoreStage::Failed(f) => (RestoreStage::Failed(f), RestoreAction::Finish),
    }
}

/// The stage reached and the actions issued over a run of events, from
/// `Start`.
pub open spec fn restore_run(events: Seq<RestoreEvent>) -> (RestoreStage, Seq<RestoreAction>)
    decreases events.len(),
{
    if events.len() == 0 {
        (RestoreStage::Start, Seq::empty())
    } else {
        let prev = restore_run(events.drop_last());
        let next = restore_next(prev.0, events.last());
        (next.0, prev.1.push(next.1))
    }
}

/// Stages that come only after the listing was found safe.
pub open spec fn past_validation(stage: RestoreStage) -> bool {
    ||| stage == RestoreStage::Extracting
    ||| stage == RestoreStage::Rotating
    ||| stage == RestoreStage::Installing
    ||| stage == RestoreStage::Verifying
    ||| stage == RestoreStage::Succeeded
}

/// A restore touches the live profile only after the archive's listing was
/// read and found safe: whatever the events, every action that moves or
/// replaces the live profile comes after an event that reported a safe
/// listing. An archive whose listing holds an escaping entry therefore
/// leaves the live profile untouched.
pub proof fn lemma_live_profile_untouched_until_validated(events: Seq<RestoreEvent>)
    ensures
        restore_run(events).1.len() == events.len(),
        past_validation(restore_run(events).0) ==> exists|j: int|
            0 <= j < events.len() && safe_listing_event(#[trigger] events[j]),
        forall|k: int|
            0 <= k < events.len() && mutates_live(#[trigger] restore_run(events).1[k]) ==> exists|j: int|
                0 <= j <= k && safe_listing_event(#[trigger] events[j]),
    decreases events.len(),
{
    if events.len() > 0 {
        let init = events.drop_last();
        lemma_live_profile_untouched_until_validated(init);
        let prev = restore_run(init);
        let n = events.len() - 1;
        assert forall|j: int| 0 <= j < init.len() implies #[trigger] init[j] == events[j] by {}
        if past_validation(prev.0) {
            let j = choose|j: int| 0 <= j < init.len() && safe_listing_event(#[trigger] init[j]);
            assert(safe_listing_event(events[j]));
        }
        let next = restore_next(prev.0, events.last());
        if past_validation(next.0) && !past_validation(prev.0) {
            assert(safe_listing_event(events[n]));
        }
        assert forall|k: int|
            0 <= k < events.len() && mutates_live(#[trigger] restore_run(events).1[k]) implies exists|j: int|
            0 <= j <= k && safe_listing_event(#[trigger] events[j]) by {
            if k < n {
                assert(restore_run(events).1[k] == prev.1[k]);
                let j = choose|j: int| 0 <= j <= k && safe_listing_event(#[trigger] init[j]);
                assert(safe_listing_event(events[j]));
            } else {
                assert(restore_run(events).1[k] == next.1);
                assert(past_validation(prev.0));
                let j = choose|j: int| 0 <= j < init.len() && safe_listing_event(#[trigger] init[j]);
                assert(safe_listing_event(events[j]));
            }
        }
    }
}

/// The error printed for a restore that ended in `stage`: the detail the
/// failing step gave, when it gave one, for any failure after the archive
/// was found but before verification; otherwise a fixed message per failure.
pub open spec fn restore_error(stage: RestoreStage, archive_arg: Seq<char>, archive_name: Seq<char>, detail: Seq<char>) -> Seq<char> {
    match stage {
        RestoreStage::Failed(RestoreFailure::BrowserRunning) => "Zen browser must be closed before restoring"@,
        RestoreStage::Failed(RestoreFailure::ArchiveNotFound) => "archive not found: "@ + archive_arg,
        RestoreStage::Failed(f) => if detail.len() > 0 && f != RestoreFailure::VerifyFailed {
            detail
        } else {
            "invalid or corrupted archive: "@ + archive_name
        },
        _ => "invalid or corrupted archive: "@ + archive_name,
    }
}

/// The output of `restore` once the procedure stopped in `stage`.
pub fn restore_report(
    stage: RestoreStage,
    archive_arg: &str,
    archive_path: &str,
    archive_name: &str,
    pre_restore: &str,
    detail: &str,
) -> (r: CommandOutput)
    ensures
        stage == RestoreStage::Succeeded ==> r.exit_code == 0 && r.stderr@.len() == 0 && r.stdout@
            == "Restored from archive: "@ + archive_path@ + "\nPre-restore backup: "@ + pre_restore@,
        stage != RestoreStage::Succeeded ==> r.exit_code == 1 && r.stdout@.len() == 0 && r.stderr@
            == restore_error(stage, archive_arg@, archive_name@, detail@),
{
    let stderr = match stage {
        RestoreStage::Succeeded => {
            let mut out = concat3("Restored from archive: ", archive_path, "\nPre-restore backup: ");
            out.append(pre_restore);
            return CommandOutput { exit_code: 0, stdout: out, stderr: String::new() };
        },
        RestoreStage::Failed(RestoreFailure::BrowserRunning) => String::from_str(
            "Zen browser must be closed before restoring",
        ),
        RestoreStage::Failed(RestoreFailure::ArchiveNotFound) => concat2("archive not found: ", archive_arg),
        RestoreStage::Failed(f) => if detail.unicode_len() > 0 && f != RestoreFailure::VerifyFailed {
            String::from_str(detail)
        } else {
            concat2("invalid or corrupted archive: ", archive_name)
        },
        _ => concat2("invalid or corrupted archive: ", archive_name),
    };
    CommandOutput { exit_code: 1, stdout: String::new(), stderr }
}

/// Picks, among the restored files (by path), the databases whose
/// integrity is checked: every file named like a database, in order.
pub fn databases_to_verify(paths: &Vec<String>) -> (r: Vec<String>)
    ensures
        views(r@) == views(paths@).filter(|p: Seq<char>| sqlite_name(p)),
{
    let ghost keep = |p: Seq<char>| sqlite_name(p);
    let mut r: Vec<String> = Vec::new();
    proof {
        reveal(Seq::filter);
        assert(views(paths@).take(0).filter(keep) =~= Seq::<Seq<char>>::empty());
        assert(views(r@) =~= Seq::<Seq<char>>::empty());
    }
    let mut i: usize = 0;
    while i < paths.len()
        invariant
            i <= paths.len(),
            keep == (|p: Seq<char>| sqlite_name(p)),
            views(r@) == views(paths@).take(i as int).filter(keep),
        decreases paths.len() - i,
    {
        let ghost t = views(paths@).take(i as int + 1);
        proof {
            assert(views(paths@).len() == paths@.len());
            assert(t.drop_last() =~= views(paths@).take(i as int));
            assert(t.last() == paths@[i as int]@);
            reveal(Seq::filter);
            assert(t.filter(keep) == (if keep(t.last()) {
                t.drop_last().filter(keep).push(t.last())
            } else {
                t.drop_last().filter(keep)
            }));
        }
        if is_sqlite_file(paths[i].as_str()) {
            r.push(paths[i].clone());
            proof {
                assert(views(r@) =~= t.filter(keep));
            }
        }
        i += 1;
    }
    proof {
        assert(views(paths@).take(paths.len() as int) =~= views(paths@));
    }
    r
}

} // verus!
