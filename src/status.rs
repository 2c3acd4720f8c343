//! What `status` and `list` report about the archives on disk.
use vstd::prelude::*;
use chrono::Datelike;
use crate::commands::CommandOutput;
use crate::text::{joined, join_texts, decimal, push_decimal, push_char, concat2};
use crate::config::AppConfig;
use crate::platform::{SchedulerState, SchedulerStatus, StatusView};
use crate::text::{has_prefix, has_suffix, starts_with, ends_with, concat3, same_text, split_on,
    split_text, views, lemma_split_nonempty};

verus! {

/// An archive file found in the backup directory.
#[derive(Clone, Debug)]
pub struct ArchiveEntry {
    pub kind: String,
    pub name: String,
    pub size_bytes: u64,
}

/// A file listed as an archive of `kind`: `zen-backup-<kind>-` up front and
/// `.tar.gz` at the end.
pub open spec fn listed_as(name: Seq<char>, kind: Seq<char>) -> bool {
    has_prefix(name, "zen-backup-"@ + kind + "-"@) && has_suffix(name, ".tar.gz"@)
}

/// Whether the file `name` is listed as an archive of `kind`.
pub fn is_listed_archive(name: &str, kind: &str) -> (r: bool)
    ensures
        r == listed_as(name@, kind@),
{
    let prefix = concat3("zen-backup-", kind, "-");
    starts_with(name, prefix.as_str()) && ends_with(name, ".tar.gz")
}

/// `a` sorts strictly before `b`, character by character.
pub open spec fn text_lt(a: Seq<char>, b: Seq<char>) -> bool
    decreases a.len(),
{
    if a.len() == 0 {
        b.len() > 0
    } else if b.len() == 0 {
        false
    } else if (a[0] as u32) != (b[0] as u32) {
        (a[0] as u32) < (b[0] as u32)
    } else {
        text_lt(a.drop_first(), b.drop_first())
    }
}

/// Whether `a` sorts strictly before `b`.
pub fn sorts_before(a: &str, b: &str) -> (r: bool)
    ensures
        r == text_lt(a@, b@),
{
    let n = a.unicode_len();
    let m = b.unicode_len();
    let mut i: usize = 0;
    proof {
        assert(a@.subrange(0, n as int) =~= a@);
        assert(b@.subrange(0, m as int) =~= b@);
    }
    while i < n && i < m
        invariant
            n == a@.len(),
            m == b@.len(),
            i <= n,
            i <= m,
            text_lt(a@, b@) == text_lt(a@.subrange(i as int, n as int), b@.subrange(i as int, m as int)),
        decreases n - i,
    {
        let x = a.get_char(i) as u32;
        let y = b.get_char(i) as u32;
        proof {
            assert(a@.subrange(i as int, n as int).drop_first() =~= a@.subrange(i + 1, n as int));
            assert(b@.subrange(i as int, m as int).drop_first() =~= b@.subrange(i + 1, m as int));
        }
        if x != y {
            return x < y;
        }
        i += 1;
    }
    i == n && i < m
}

/// Entry `i` is the newest archive of `kind`: of that kind, no other of that
/// kind sorts after it, and every later one of that kind sorts before it.
pub open spec fn newest_at(entries: Seq<ArchiveEntry>, kind: Seq<char>, i: int) -> bool {
    &&& 0 <= i < entries.len()
    &&& entries[i].kind@ == kind
    &&& forall|j: int|
        0 <= j < entries.len() && (#[trigger] entries[j]).kind@ == kind ==> !text_lt(entries[i].name@, entries[j].name@)
    &&& forall|j: int|
        i < j < entries.len() && (#[trigger] entries[j]).kind@ == kind ==> text_lt(entries[j].name@, entries[i].name@)
}

/// The archive of `kind` whose name sorts last (the last such when names
/// repeat), if there is one.
pub fn newest_archive(entries: &Vec<ArchiveEntry>, kind: &str) -> (r: Option<usize>)
    ensures
        match r {
            Some(i) => newest_at(entries@, kind@, i as int),
            None => forall|j: int| 0 <= j < entries@.len() ==> (#[trigger] entries@[j]).kind@ != kind@,
        },
{
    let mut best: Option<usize> = None;
    let mut i: usize = 0;
    while i < entries.len()
        invariant
            i <= entries.len(),
            match best {
                Some(b) => b < i && newest_at(entries@.take(i as int), kind@, b as int),
                None => forall|j: int| 0 <= j < i ==> (#[trigger] entries@[j]).kind@ != kind@,
            },
        decreases entries.len() - i,
    {
        let ghost prefix = entries@.take(i as int + 1);
        proof {
            assert(prefix[i as int] == entries@[i as int]);
            assert forall|j: int| 0 <= j < i implies #[trigger] prefix[j] == entries@.take(i as int)[j] by {}
        }
        if same_text(entries[i].kind.as_str(), kind) {
            let replace = match best {
                None => true,
                Some(b) => !sorts_before(entries[i].name.as_str(), entries[b].name.as_str()),
            };
            if replace {
                proof {
                    match best {
                        Some(b) => {
                            assert forall|j: int| 0 <= j < prefix.len() && (#[trigger] prefix[j]).kind@ == kind@ implies !text_lt(
                                prefix[i as int].name@,
                                prefix[j].name@,
                            ) by {
                                if j < i {
                                    assert(!text_lt(entries@[b as int].name@, entries@[j].name@));
                                    lemma_text_order(entries@[i as int].name@, entries@[b as int].name@, entries@[j].name@);
                                }
                                lemma_text_lt_irreflexive(prefix[i as int].name@);
                            }
                        },
                        None => {
                            assert forall|j: int| 0 <= j < prefix.len() && (#[trigger] prefix[j]).kind@ == kind@ implies !text_lt(
                                prefix[i as int].name@,
                                prefix[j].name@,
                            ) by {
                                lemma_text_lt_irreflexive(prefix[i as int].name@);
                            }
                        },
                    }
                }
                best = Some(i);
            } else {
                proof {
                    let b = best->0;
                    assert(text_lt(entries@[i as int].name@, entries@[b as int].name@));
                    assert forall|j: int| 0 <= j < prefix.len() && (#[trigger] prefix[j]).kind@ == kind@ implies !text_lt(
                        prefix[b as int].name@,
                        prefix[j].name@,
                    ) by {
                        if j == i {
                            lemma_text_lt_asymmetric(entries@[i as int].name@, entries@[b as int].name@);
                        } else {
                            assert(prefix[j] == entries@.take(i as int)[j]);
                        }
                    }
                    assert forall|j: int| b < j < prefix.len() && (#[trigger] prefix[j]).kind@ == kind@ implies text_lt(
                        prefix[j].name@,
                        prefix[b as int].name@,
                    ) by {
                        if j < i {
                            assert(prefix[j] == entries@.take(i as int)[j]);
                        }
                    }
                }
            }
        } else {
            proof {
                match best {
                    Some(b) => {
                        assert forall|j: int| 0 <= j < prefix.len() && (#[trigger] prefix[j]).kind@ == kind@ implies !text_lt(
                            prefix[b as int].name@,
                            prefix[j].name@,
                        ) by {
                            if j < i {
                                assert(prefix[j] == entries@.take(i as int)[j]);
                            }
                        }
                        assert forall|j: int| b < j < prefix.len() && (#[trigger] prefix[j]).kind@ == kind@ implies text_lt(
                            prefix[j].name@,
                            prefix[b as int].name@,
                        ) by {
                            if j < i {
                                assert(prefix[j] == entries@.take(i as int)[j]);
                            }
                        }
                    },
                    None => {},
                }
            }
        }
        i += 1;
    }
    proof {
        assert(entries@.take(entries@.len() as int) =~= entries@);
    }
    best
}

proof fn lemma_text_lt_irreflexive(a: Seq<char>)
    ensures
        !text_lt(a, a),
    decreases a.len(),
{
    if a.len() > 0 {
        lemma_text_lt_irreflexive(a.drop_first());
    }
}

proof fn lemma_text_lt_asymmetric(a: Seq<char>, b: Seq<char>)
    requires
        text_lt(a, b),
    ensures
        !text_lt(b, a),
    decreases a.len(),
{
    if a.len() > 0 && b.len() > 0 && (a[0] as u32) == (b[0] as u32) {
        lemma_text_lt_asymmetric(a.drop_first(), b.drop_first());
    }
}

/// If `a` does not sort before `b` and `b` does not sort before `c`, then
/// `a` does not sort before `c`.
proof fn lemma_text_order(a: Seq<char>, b: Seq<char>, c: Seq<char>)
    requires
        !text_lt(a, b),
        !text_lt(b, c),
    ensures
        !text_lt(a, c),
    decreases a.len(),
{
    if a.len() > 0 && b.len() > 0 && c.len() > 0 && (a[0] as u32) == (b[0] as u32) && (b[0] as u32) == (c[0]
        as u32) {
        lemma_text_order(a.drop_first(), b.drop_first(), c.drop_first());
    }
}

/// What chrono reads from a `%Y-%m-%d` date: its day number counted from
/// 1 January of year 1, when the text is a valid date.
pub uninterp spec fn ce_day_of(s: Seq<char>) -> Option<int>;

/// Relies on chrono's `NaiveDate::parse_from_str` with `%Y-%m-%d` and on
/// `Datelike::num_days_from_ce`: the day number depends on the text alone.
#[verifier::external_body]
fn calendar_day(text: &str) -> (r: Option<i32>)
    ensures
        r is None <==> ce_day_of(text@) is None,
        r matches Some(v) ==> ce_day_of(text@) == Some(v as int),
{
    chrono::NaiveDate::parse_from_str(text, "%Y-%m-%d").ok().map(|d| d.num_days_from_ce())
}

/// The date text inside an archive name that `status` reads: the name must
/// start with `zen-backup-`, end with `.tar.gz` and have six `-`-separated
/// pieces or more; the date is the fourth, fifth and sixth (cut at its
/// first `.`).
pub open spec fn status_date_text(name: Seq<char>) -> Option<Seq<char>> {
    let parts = split_on(name, '-');
    if !has_prefix(name, "zen-backup-"@) || !has_suffix(name, ".tar.gz"@) || parts.len() < 6 {
        None
    } else {
        Some(parts[3] + "-"@ + parts[4] + "-"@ + split_on(parts[5], '.')[0])
    }
}

/// The health line for a newest daily archive dated on day `day`, seen on
/// day `now`: stale when more than three days old.
pub open spec fn health_line(day: int, now: int) -> Seq<char> {
    if now - day > 3 {
        "Warning: latest daily backup is stale."@
    } else {
        "Health: recent daily backup exists."@
    }
}

/// The health line of `status` for the newest daily archive, `today` being
/// a `%Y-%m-%d` date.
pub open spec fn staleness_of(name: Seq<char>, today: Seq<char>) -> Option<Seq<char>> {
    match status_date_text(name) {
        None => None,
        Some(d) => match (ce_day_of(d), ce_day_of(today)) {
            (Some(day), Some(now)) => Some(health_line(day, now)),
            _ => None,
        },
    }
}

/// The health line for a newest daily archive dated on day number `day`,
/// seen on day number `now`.
pub fn staleness_from_days(day: i32, now: i32) -> (r: String)
    ensures
        r@ == health_line(day as int, now as int),
{
    if (now as i64) - (day as i64) > 3 {
        String::from_str("Warning: latest daily backup is stale.")
    } else {
        String::from_str("Health: recent daily backup exists.")
    }
}

/// Reads the date text out of an archive name as `status` does.
pub fn status_date(name: &str) -> (r: Option<String>)
    ensures
        match status_date_text(name@) {
            Some(d) => r is Some && r->0@ == d,
            None => r is None,
        },
{
    if !starts_with(name, "zen-backup-") || !ends_with(name, ".tar.gz") {
        return None;
    }
    let parts = split_text(name, '-');
    proof {
        assert(views(parts@).len() == parts@.len());
    }
    if parts.len() < 6 {
        return None;
    }
    let day = split_text(parts[5].as_str(), '.');
    proof {
        assert(parts@[3]@ == split_on(name@, '-')[3]);
        assert(parts@[4]@ == split_on(name@, '-')[4]);
        assert(parts@[5]@ == split_on(name@, '-')[5]);
        lemma_split_nonempty(parts@[5]@, '.');
        assert(views(day@).len() == day@.len());
        assert(day@[0]@ == split_on(parts@[5]@, '.')[0]);
    }
    let mut r = concat3(parts[3].as_str(), "-", parts[4].as_str());
    r.append("-");
    r.append(day[0].as_str());
    Some(r)
}

/// The health line for the newest daily archive `archive_name` on the day
/// `today` (`%Y-%m-%d`); none when either date cannot be read.
pub fn daily_staleness_message(archive_name: &str, today: &str) -> (r: Option<String>)
    ensures
        match staleness_of(archive_name@, today@) {
            Some(m) => r is Some && r->0@ == m,
            None => r is None,
        },
{
    let date = match status_date(archive_name) {
        Some(d) => d,
        None => return None,
    };
    let day = calendar_day(date.as_str());
    let now = calendar_day(today);
    match (day, now) {
        (Some(day), Some(now)) => Some(staleness_from_days(day, now)),
        _ => None,
    }
}

/// One listed archive: its name and its size as shown.
pub open spec fn entry_line(e: (String, String)) -> Seq<char> {
    "  "@ + e.0@ + " ("@ + e.1@ + ")"@
}

/// The lines of `list`: the daily archives under `daily:`, then the weekly
/// ones under `weekly:`.
pub open spec fn list_lines(daily: Seq<(String, String)>, weekly: Seq<(String, String)>) -> Seq<Seq<char>> {
    seq!["daily:"@] + daily.map_values(|e: (String, String)| entry_line(e)) + seq!["weekly:"@]
        + weekly.map_values(|e: (String, String)| entry_line(e))
}

fn push_entry_lines(lines: &mut Vec<String>, entries: &Vec<(String, String)>)
    ensures
        views(final(lines)@) == views(old(lines)@) + entries@.map_values(|e: (String, String)| entry_line(e)),
{
    let ghost start = views(lines@);
    let mut i: usize = 0;
    while i < entries.len()
        invariant
            i <= entries.len(),
            views(lines@) == start + entries@.map_values(|e: (String, String)| entry_line(e)).take(i as int),
        decreases entries.len() - i,
    {
        let ghost before = views(lines@);
        let mut line = concat3("  ", entries[i].0.as_str(), " (");
        line.append(entries[i].1.as_str());
        line.append(")");
        lines.push(line);
        proof {
            assert(views(lines@) =~= before.push(entry_line(entries@[i as int])));
            assert(entries@.map_values(|e: (String, String)| entry_line(e)).take(i + 1) =~= entries@.map_values(
                |e: (String, String)| entry_line(e),
            ).take(i as int).push(entry_line(entries@[i as int])));
        }
        i += 1;
    }
    proof {
        assert(entries@.map_values(|e: (String, String)| entry_line(e)).take(entries.len() as int)
            =~= entries@.map_values(|e: (String, String)| entry_line(e)));
    }
}

/// The output of `list` for the daily and weekly archives found (each a
/// name and its size as shown), in the order given.
pub fn list_report(daily: &Vec<(String, String)>, weekly: &Vec<(String, String)>) -> (r: CommandOutput)
    ensures
        r.exit_code == 0,
        r.stderr@.len() == 0,
        r.stdout@ == if daily@.len() == 0 && weekly@.len() == 0 {
            "No backups found (empty backup directory)."@
        } else {
            joined(list_lines(daily@, weekly@), "\n"@)
        },
{
    if daily.len() == 0 && weekly.len() == 0 {
        return CommandOutput {
            exit_code: 0,
            stdout: String::from_str("No backups found (empty backup directory)."),
            stderr: String::new(),
        };
    }
    let mut lines: Vec<String> = vec![String::from_str("daily:")];
    proof {
        assert(views(lines@) =~= seq!["daily:"@]);
    }
    push_entry_lines(&mut lines, daily);
    let ghost first = views(lines@);
    lines.push(String::from_str("weekly:"));
    proof {
        assert(views(lines@) =~= first + seq!["weekly:"@]);
    }
    push_entry_lines(&mut lines, weekly);
    proof {
        assert(views(lines@) =~= list_lines(daily@, weekly@));
    }
    CommandOutput { exit_code: 0, stdout: join_texts(&lines, "\n"), stderr: String::new() }
}

/// A whole number in decimal, with a `-` when negative.
pub open spec fn signed_decimal(n: int) -> Seq<char> {
    if n < 0 {
        seq!['-'] + decimal((-n) as nat)
    } else {
        decimal(n as nat)
    }
}

fn push_signed(out: &mut String, n: i64)
    ensures
        final(out)@ == old(out)@ + signed_decimal(n as int),
{
    if n < 0 {
        push_char(out, '-');
        let ghost mid = out@;
        push_decimal(out, (0i128 - n as i128) as u128);
        proof {
            assert(out@ =~= old(out)@ + signed_decimal(n as int));
        }
    } else {
        push_decimal(out, n as u128);
    }
}

/// What `status` found on disk and from the scheduler, in plain values.
pub struct StatusFacts {
    pub backup_dir_exists: bool,
    pub readable: bool,
    /// The newest daily and weekly archives: name and size as shown.
    pub latest_daily: Option<(String, String)>,
    pub latest_weekly: Option<(String, String)>,
    /// Disk usage as shown: all archives, daily ones, weekly ones.
    pub usage_total: String,
    pub usage_daily: String,
    pub usage_weekly: String,
    /// The health line of the newest daily archive, when its date reads.
    pub health: Option<String>,
    pub scheduler: Result<SchedulerStatus, String>,
}

/// The settings part of the status report.
pub open spec fn header_lines(c: AppConfig) -> Seq<Seq<char>> {
    seq![
        "Zen Profile Backup Status"@,
        "Profile path: "@ + c.profile_path@,
        "Backup directory: "@ + c.backup_local_path@,
        match c.backup_cloud_path {
            Some(p) => "Cloud sync: enabled ("@ + p@ + ")"@,
            None => "Cloud sync: local only"@,
        },
        "Retention: daily "@ + signed_decimal(c.retention_daily_days as int) + " days, weekly "@ + signed_decimal(
            c.retention_weekly_days as int,
        ) + " days"@,
    ]
}

/// The line for the newest archive of a kind.
pub open spec fn latest_line(label: Seq<char>, e: Option<(String, String)>, none: Seq<char>) -> Seq<char> {
    match e {
        Some(e) => "Latest "@ + label + ": "@ + e.0@ + " ("@ + e.1@ + ")"@,
        None => none,
    }
}

/// The archive part of the status report.
pub open spec fn archive_lines(f: StatusFacts) -> Seq<Seq<char>> {
    seq![
        latest_line("daily"@, f.latest_daily, "No daily backups yet"@),
        latest_line("weekly"@, f.latest_weekly, "No weekly backups yet"@),
        "Disk usage total: "@ + f.usage_total@,
        "Disk usage daily: "@ + f.usage_daily@,
        "Disk usage weekly: "@ + f.usage_weekly@,
        match f.health {
            Some(h) => h@,
            None => "No backups yet. Run a backup."@,
        },
    ]
}

/// Every job is active.
pub open spec fn all_active(states: Seq<(Seq<char>, SchedulerState)>) -> bool {
    forall|i: int| 0 <= i < states.len() ==> (#[trigger] states[i]).1 == SchedulerState::Active
}

/// The scheduler part of the status report.
pub open spec fn scheduler_lines(st: StatusView) -> Seq<Seq<char>> {
    if st.labels.len() == 0 {
        seq!["Scheduled jobs: not installed (not loaded)"@]
    } else {
        seq![
            if all_active(st.states) {
                "Scheduled jobs: active"@
            } else {
                "Scheduled jobs: paused"@
            },
        ] + st.labels.map_values(|l: Seq<char>| "- "@ + l)
    }
}

fn push_line(lines: &mut Vec<String>, line: String)
    ensures
        views(final(lines)@) == views(old(lines)@).push(line@),
{
    lines.push(line);
    proof {
        assert(views(final(lines)@) =~= views(old(lines)@).push(line@));
    }
}

fn latest_text(label: &str, e: &Option<(String, String)>, none: &str) -> (r: String)
    ensures
        r@ == latest_line(label@, *e, none@),
{
    match e {
        Some(e) => {
            let mut r = concat2("Latest ", label);
            r.append(": ");
            r.append(e.0.as_str());
            r.append(" (");
            r.append(e.1.as_str());
            r.append(")");
            r
        },
        None => String::from_str(none),
    }
}

/// The output of `status` for the loaded settings and what was found.
pub fn status_report(config: &AppConfig, facts: StatusFacts) -> (r: CommandOutput)
    ensures
        if !facts.backup_dir_exists {
            r.exit_code == 0 && r.stderr@.len() == 0 && r.stdout@ == joined(
                header_lines(*config).push("Backup directory not found. Run a backup or check configuration."@),
                "\n"@,
            )
        } else if !facts.readable {
            r.exit_code == 1 && r.stderr@ == "Backup directory is not readable."@ && r.stdout@ == joined(
                header_lines(*config).push("Backup directory permission error."@),
                "\n"@,
            )
        } else {
            match facts.scheduler {
                Ok(st) => r.exit_code == 0 && r.stderr@.len() == 0 && r.stdout@ == joined(
                    header_lines(*config) + archive_lines(facts) + scheduler_lines(st@),
                    "\n"@,
                ),
                Err(e) => r.exit_code == 1 && r.stderr@ == e@ && r.stdout@ == joined(
                    header_lines(*config) + archive_lines(facts),
                    "\n"@,
                ),
            }
        },
{
    let mut lines: Vec<String> = Vec::new();
    proof {
        assert(views(lines@) =~= Seq::<Seq<char>>::empty());
    }
    push_line(&mut lines, String::from_str("Zen Profile Backup Status"));
    push_line(&mut lines, concat2("Profile path: ", config.profile_path.as_str()));
    push_line(&mut lines, concat2("Backup directory: ", config.backup_local_path.as_str()));
    let cloud = match &config.backup_cloud_path {
        Some(p) => {
            let mut c = concat2("Cloud sync: enabled (", p.as_str());
            c.append(")");
            c
        },
        None => String::from_str("Cloud sync: local only"),
    };
    push_line(&mut lines, cloud);
    let mut retention = String::from_str("Retention: daily ");
    push_signed(&mut retention, config.retention_daily_days);
    retention.append(" days, weekly ");
    push_signed(&mut retention, config.retention_weekly_days);
    retention.append(" days");
    push_line(&mut lines, retention);
    proof {
        assert(views(lines@) =~= header_lines(*config));
    }
    let ghost header = views(lines@);
    if !facts.backup_dir_exists {
        push_line(&mut lines, String::from_str("Backup directory not found. Run a backup or check configuration."));
        return CommandOutput { exit_code: 0, stdout: join_texts(&lines, "\n"), stderr: String::new() };
    }
    if !facts.readable {
        push_line(&mut lines, String::from_str("Backup directory permission error."));
        return CommandOutput {
            exit_code: 1,
            stdout: join_texts(&lines, "\n"),
            stderr: String::from_str("Backup directory is not readable."),
        };
    }
    push_line(&mut lines, latest_text("daily", &facts.latest_daily, "No daily backups yet"));
    push_line(&mut lines, latest_text("weekly", &facts.latest_weekly, "No weekly backups yet"));
    push_line(&mut lines, concat2("Disk usage total: ", facts.usage_total.as_str()));
    push_line(&mut lines, concat2("Disk usage daily: ", facts.usage_daily.as_str()));
    push_line(&mut lines, concat2("Disk usage weekly: ", facts.usage_weekly.as_str()));
    let health = match &facts.health {
        Some(h) => h.clone(),
        None => String::from_str("No backups yet. Run a backup."),
    };
    push_line(&mut lines, health);
    proof {
        assert(views(lines@) =~= header + archive_lines(facts));
    }
    let ghost body = views(lines@);
    let st = match facts.scheduler {
        Ok(st) => st,
        Err(e) => {
            return CommandOutput { exit_code: 1, stdout: join_texts(&lines, "\n"), stderr: e };
        },
    };
    proof {
        assert(views(st.labels@).len() == st.labels@.len());
        assert(st@.states.len() == st.states@.len());
    }
    if st.labels.len() == 0 {
        push_line(&mut lines, String::from_str("Scheduled jobs: not installed (not loaded)"));
        proof {
            assert(views(lines@) =~= body + scheduler_lines(st@));
        }
    } else {
        let mut active = true;
        let mut i: usize = 0;
        while i < st.states.len()
            invariant
                i <= st.states.len(),
                st@.states.len() == st.states@.len(),
                active == (forall|j: int| 0 <= j < i ==> (#[trigger] st@.states[j]).1 == SchedulerState::Active),
            decreases st.states.len() - i,
        {
            proof {
                assert(st@.states[i as int].1 == st.states@[i as int].1);
            }
            if st.states[i].1 != SchedulerState::Active {
                active = false;
            }
            i += 1;
        }
        push_line(
            &mut lines,
            String::from_str(
                if active {
                    "Scheduled jobs: active"
                } else {
                    "Scheduled jobs: paused"
                },
            ),
        );
        let ghost start = views(lines@);
        let mut k: usize = 0;
        while k < st.labels.len()
            invariant
                k <= st.labels.len(),
                views(st.labels@).len() == st.labels@.len(),
                views(lines@) == start + views(st.labels@).map_values(|l: Seq<char>| "- "@ + l).take(k as int),
            decreases st.labels.len() - k,
        {
            let ghost before = views(lines@);
            let line = concat2("- ", st.labels[k].as_str());
            push_line(&mut lines, line);
            proof {
                assert(views(st.labels@)[k as int] == st.labels@[k as int]@);
                assert(views(st.labels@).map_values(|l: Seq<char>| "- "@ + l).take(k + 1) =~= views(st.labels@).map_values(
                    |l: Seq<char>| "- "@ + l,
                ).take(k as int).push(line@));
            }
            k += 1;
        }
        proof {
            assert(views(st.labels@).map_values(|l: Seq<char>| "- "@ + l).take(st.labels.len() as int) =~= views(
                st.labels@,
            ).map_values(|l: Seq<char>| "- "@ + l));
            assert(views(lines@) =~= body + scheduler_lines(st@));
        }
    }
    CommandOutput { exit_code: 0, stdout: join_texts(&lines, "\n"), stderr: String::new() }
}

} // verus!
