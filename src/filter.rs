//! The inclusion filter: which entries of a profile tree are captured.
use vstd::prelude::*;
use crate::text::{has_prefix, has_suffix, starts_with, ends_with, same_text};

verus! {

/// Credential stores, session stores and lock files that are never captured.
pub open spec fn denied_name(name: Seq<char>) -> bool {
    ||| name == "cookies.sqlite"@
    ||| name == "key4.db"@
    ||| name == "logins.json"@
    ||| name == "cert9.db"@
    ||| name == ".parentlock"@
}

/// Write-ahead-log and shared-memory companions of a database file.
pub open spec fn transient_db_name(name: Seq<char>) -> bool {
    has_suffix(name, ".sqlite-wal"@) || has_suffix(name, ".sqlite-shm"@)
}

/// `rel` is the directory `dir` itself or lies beneath it.
pub open spec fn at_or_under(rel: Seq<char>, dir: Seq<char>) -> bool {
    rel == dir || has_prefix(rel, dir + seq!['/'])
}

/// Cache, telemetry and crash-report directories that are never captured.
pub open spec fn in_excluded_dir(rel: Seq<char>) -> bool {
    ||| at_or_under(rel, "cache2"@)
    ||| at_or_under(rel, "crashes"@)
    ||| at_or_under(rel, "datareporting"@)
    ||| at_or_under(rel, "saved-telemetry-pings"@)
    ||| at_or_under(rel, "minidumps"@)
    ||| at_or_under(rel, "storage/temporary"@)
    ||| at_or_under(rel, "storage/default/chrome"@)
}

/// The decision of the inclusion filter, rule by rule in priority order.
pub open spec fn included(rel: Seq<char>, name: Seq<char>, is_dir: bool) -> bool {
    if denied_name(name) {
        false
    } else if transient_db_name(name) {
        false
    } else if in_excluded_dir(rel) {
        false
    } else if rel == "storage/default"@ && is_dir {
        true
    } else if has_prefix(rel, "storage/default/http"@) {
        false
    } else {
        true
    }
}

/// A database file, by its name.
pub open spec fn sqlite_name(name: Seq<char>) -> bool {
    has_suffix(name, ".sqlite"@) || has_suffix(name, ".db"@)
}

fn is_denied_name(name: &str) -> (r: bool)
    ensures
        r == denied_name(name@),
{
    same_text(name, "cookies.sqlite") || same_text(name, "key4.db") || same_text(name, "logins.json")
        || same_text(name, "cert9.db") || same_text(name, ".parentlock")
}

fn is_at_or_under(rel: &str, dir: &str) -> (r: bool)
    ensures
        r == at_or_under(rel@, dir@),
{
    if same_text(rel, dir) {
        return true;
    }
    let n = dir.unicode_len();
    let r = starts_with(rel, dir) && n < rel.unicode_len() && rel.get_char(n) == '/';
    proof {
        let d = dir@ + seq!['/'];
        if r {
            assert(rel@.subrange(0, d.len() as int) =~= d);
        } else if has_prefix(rel@, d) {
            assert(rel@.subrange(0, n as int) =~= d.subrange(0, n as int));
            assert(d.subrange(0, n as int) =~= dir@);
            assert(rel@[n as int] == rel@.subrange(0, d.len() as int)[n as int]);
        }
    }
    r
}

fn is_in_excluded_dir(rel: &str) -> (r: bool)
    ensures
        r == in_excluded_dir(rel@),
{
    is_at_or_under(rel, "cache2") || is_at_or_under(rel, "crashes") || is_at_or_under(
        rel,
        "datareporting",
    ) || is_at_or_under(rel, "saved-telemetry-pings") || is_at_or_under(rel, "minidumps")
        || is_at_or_under(rel, "storage/temporary") || is_at_or_under(
        rel,
        "storage/default/chrome",
    )
}

/// Decides whether the entry at relative path `rel_path` (separators written
/// `/`), whose own name is `file_name`, is captured in a snapshot.
pub fn should_include(rel_path: &str, file_name: &str, is_directory: bool) -> (r: bool)
    ensures
        r == included(rel_path@, file_name@, is_directory),
{
    if is_denied_name(file_name) {
        return false;
    }
    if ends_with(file_name, ".sqlite-wal") || ends_with(file_name, ".sqlite-shm") {
        return false;
    }
    if is_in_excluded_dir(rel_path) {
        return false;
    }
    if same_text(rel_path, "storage/default") && is_directory {
        return true;
    }
    if starts_with(rel_path, "storage/default/http") {
        return false;
    }
    true
}

/// Whether a file is a database file, by its name.
pub fn is_sqlite_file(file_name: &str) -> (r: bool)
    ensures
        r == sqlite_name(file_name@),
{
    ends_with(file_name, ".sqlite") || ends_with(file_name, ".db")
}

/// Every path at or under one of the excluded directories is left out,
/// whatever its name and kind; the default-storage directory entry itself is
/// kept, while every path beneath its HTTP-origin subtree is left out.
pub proof fn lemma_excluded_directories(rel: Seq<char>, name: Seq<char>, is_dir: bool)
    ensures
        in_excluded_dir(rel) ==> !included(rel, name, is_dir),
        has_prefix(rel, "storage/default/http"@) ==> !included(rel, name, is_dir),
        included("storage/default"@, "default"@, true),
{
    reveal_strlit("storage/default");
    reveal_strlit("default");
    reveal_strlit("cookies.sqlite");
    reveal_strlit("key4.db");
    reveal_strlit("logins.json");
    reveal_strlit("cert9.db");
    reveal_strlit(".parentlock");
    reveal_strlit(".sqlite-wal");
    reveal_strlit(".sqlite-shm");
    reveal_strlit("cache2");
    reveal_strlit("crashes");
    reveal_strlit("datareporting");
    reveal_strlit("saved-telemetry-pings");
    reveal_strlit("minidumps");
    reveal_strlit("storage/temporary");
    reveal_strlit("storage/default/chrome");
    reveal_strlit("storage/default/http");
    let sd = "storage/default"@;
    assert(sd.len() == 15);
    assert("storage/default/http"@.len() == 20);
    assert(sd[0] == 's');
    assert(sd[7] == '/');
    assert(sd[8] == 'd');
    assert(!has_prefix(sd, "storage/temporary"@ + seq!['/']));
    assert(!has_prefix(sd, "storage/default/chrome"@ + seq!['/']));
    assert(!has_prefix(sd, "cache2"@ + seq!['/']) && sd != "cache2"@) by {
        assert(sd.subrange(0, 7)[0] != ("cache2"@ + seq!['/'])[0]);
    }
    assert(!has_prefix(sd, "crashes"@ + seq!['/']) && sd != "crashes"@) by {
        assert(sd.subrange(0, 8)[0] != ("crashes"@ + seq!['/'])[0]);
    }
    assert(!has_prefix(sd, "datareporting"@ + seq!['/']) && sd != "datareporting"@) by {
        assert(sd.subrange(0, 14)[0] != ("datareporting"@ + seq!['/'])[0]);
    }
    assert(!has_prefix(sd, "minidumps"@ + seq!['/']) && sd != "minidumps"@) by {
        assert(sd.subrange(0, 10)[0] != ("minidumps"@ + seq!['/'])[0]);
    }
    assert(!has_prefix(sd, "saved-telemetry-pings"@ + seq!['/']));
    assert(sd != "saved-telemetry-pings"@) by {
        assert(sd[1] != "saved-telemetry-pings"@[1]);
    }
    assert(sd != "storage/temporary"@);
    assert(sd != "storage/default/chrome"@);
    let d = "default"@;
    assert(d.len() == 7);
    assert(!has_suffix(d, ".sqlite-wal"@));
    assert(!has_suffix(d, ".sqlite-shm"@));
    assert(d != ".parentlock"@);
    assert(d != "cookies.sqlite"@);
    assert(d != "logins.json"@);
    assert(d != "key4.db"@) by {
        assert(d[0] != "key4.db"@[0]);
    }
    assert(d != "cert9.db"@);
}

} // verus!
