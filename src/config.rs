//! The settings the engine runs with.
use vstd::prelude::*;
use crate::text::{push_char, concat2, find_from, same_text, occurs_at, matches_at};

verus! {

/// Settings, with paths already expanded.
#[derive(Debug, Clone)]
pub struct AppConfig {
    pub profile_path: String,
    pub backup_local_path: String,
    pub backup_cloud_path: Option<String>,
    pub retention_daily_days: i64,
    pub retention_weekly_days: i64,
    pub schedule_daily_time: String,
    pub schedule_weekly_day: String,
    pub schedule_weekly_time: String,
    pub notifications_enabled: bool,
    pub config_path: String,
}

/// Why the settings could not be loaded.
#[derive(Debug)]
pub enum ConfigError {
    NotFound(String),
    Parse(String),
}

/// Overrides of the operating system, the current time and the version,
/// for tests.
#[derive(Debug, Clone, Default, PartialEq, Eq)]
pub struct TestMode {
    pub os: Option<String>,
    pub now: Option<String>,
    pub version: Option<String>,
}

/// How one character is written inside a TOML basic string.
pub open spec fn toml_char(c: char) -> Seq<char> {
    if c == '\\' {
        seq!['\\', '\\']
    } else if c == '"' {
        seq!['\\', '"']
    } else {
        seq![c]
    }
}

/// `s` written inside a TOML basic string: `\\` and `"` escaped.
pub open spec fn toml_escaped(s: Seq<char>) -> Seq<char>
    decreases s.len(),
{
    if s.len() == 0 {
        Seq::empty()
    } else {
        toml_escaped(s.drop_last()) + toml_char(s.last())
    }
}

/// Escapes `\\` and `"` for a TOML basic string.
pub fn toml_escape(s: &str) -> (r: String)
    ensures
        r@ == toml_escaped(s@),
{
    let n = s.unicode_len();
    let mut r = String::new();
    let mut i: usize = 0;
    proof {
        assert(s@.take(0) =~= Seq::<char>::empty());
    }
    while i < n
        invariant
            n == s@.len(),
            i <= n,
            r@ == toml_escaped(s@.take(i as int)),
        decreases n - i,
    {
        let c = s.get_char(i);
        proof {
            assert(s@.take(i + 1).drop_last() =~= s@.take(i as int));
        }
        if c == '\\' {
            push_char(&mut r, '\\');
            push_char(&mut r, '\\');
        } else if c == '"' {
            push_char(&mut r, '\\');
            push_char(&mut r, '"');
        } else {
            push_char(&mut r, c);
        }
        proof {
            assert(r@ =~= toml_escaped(s@.take(i + 1)));
        }
        i += 1;
    }
    proof {
        assert(s@.take(n as int) =~= s@);
    }
    r
}

/// The settings file written by `install`.
pub open spec fn settings_text(
    profile: Seq<char>,
    backup_local: Seq<char>,
    cloud: Option<Seq<char>>,
    config_path: Seq<char>,
) -> Seq<char> {
    "[profile]\npath = \""@ + toml_escaped(profile) + "\"\n\n[backup]\nlocal_path = \""@ + toml_escaped(
        backup_local,
    ) + "\"\n"@ + match cloud {
        Some(c) => "cloud_path = \""@ + toml_escaped(c) + "\"\n"@,
        None => Seq::empty(),
    }
        + "[retention]\ndaily_days = 30\nweekly_days = 84\n\n[schedule]\ndaily_time = \"12:30\"\nweekly_day = \"Sunday\"\nweekly_time = \"02:00\"\n\n[notifications]\nenabled = true\n\n[_meta]\nconfig_path = \""@
        + toml_escaped(config_path) + "\"\n"@
}

/// Renders the settings file written by `install`, with the default
/// retention, schedule and notification settings.
pub fn to_toml(profile_path: &str, backup_local: &str, cloud_path: Option<&str>, config_path: &str) -> (r: String)
    ensures
        r@ == settings_text(
            profile_path@,
            backup_local@,
            match cloud_path {
                Some(c) => Some(c@),
                None => None,
            },
            config_path@,
        ),
{
    let mut r = concat2("[profile]\npath = \"", toml_escape(profile_path).as_str());
    r.append("\"\n\n[backup]\nlocal_path = \"");
    r.append(toml_escape(backup_local).as_str());
    r.append("\"\n");
    let ghost head = r@;
    if let Some(c) = cloud_path {
        r.append("cloud_path = \"");
        r.append(toml_escape(c).as_str());
        r.append("\"\n");
    }
    let ghost mid = r@;
    r.append(
        "[retention]\ndaily_days = 30\nweekly_days = 84\n\n[schedule]\ndaily_time = \"12:30\"\nweekly_day = \"Sunday\"\nweekly_time = \"02:00\"\n\n[notifications]\nenabled = true\n\n[_meta]\nconfig_path = \"",
    );
    r.append(toml_escape(config_path).as_str());
    r.append("\"\n");
    proof {
        match cloud_path {
            Some(c) => assert(mid =~= head + ("cloud_path = \""@ + toml_escaped(c@) + "\"\n"@)),
            None => assert(mid =~= head + Seq::<char>::empty()),
        }
    }
    r
}

/// A character that may continue a bare `$NAME` reference.
pub open spec fn is_name_char(c: char) -> bool {
    let u = c as u32;
    (48 <= u <= 57) || (65 <= u <= 90) || (97 <= u <= 122) || u == 95
}

/// Where a bare variable name starting at `k` ends.
pub open spec fn name_end(s: Seq<char>, k: int) -> int
    decreases s.len() - k,
{
    if k < 0 || k >= s.len() || !is_name_char(s[k]) {
        k
    } else {
        name_end(s, k + 1)
    }
}

/// Where the `}` closing a `${...}` reference opened before `k` stands, or
/// -1 when there is none.
pub open spec fn brace_close(s: Seq<char>, k: int) -> int {
    match find_from(s, seq!['}'], k) {
        Some(j) => j,
        None => -1,
    }
}

/// The value of `key` among the environment's pairs (the first pair with
/// that name), or nothing when it is not set.
pub open spec fn env_value(env: Seq<(String, String)>, key: Seq<char>) -> Seq<char>
    decreases env.len(),
{
    if env.len() == 0 {
        Seq::empty()
    } else if env[0].0@ == key {
        env[0].1@
    } else {
        env_value(env.drop_first(), key)
    }
}

/// `s` from position `i` on with `${NAME}` and `$NAME` replaced by the
/// variable's value (empty when unset); a `$` that starts no reference is
/// kept, and `${` without a closing `}` is read as text.
pub open spec fn expanded_from(s: Seq<char>, env: Seq<(String, String)>, i: int) -> Seq<char>
    decreases s.len() - i,
{
    if i < 0 || i >= s.len() {
        Seq::empty()
    } else if s[i] != '$' {
        seq![s[i]] + expanded_from(s, env, i + 1)
    } else if i + 1 < s.len() && s[i + 1] == '{' && i + 2 <= brace_close(s, i + 2) < s.len() {
        env_value(env, s.subrange(i + 2, brace_close(s, i + 2))) + expanded_from(
            s,
            env,
            brace_close(s, i + 2) + 1,
        )
    } else if name_end(s, i + 1) <= i + 1 || name_end(s, i + 1) > s.len() {
        seq!['$'] + expanded_from(s, env, i + 1)
    } else {
        env_value(env, s.subrange(i + 1, name_end(s, i + 1))) + expanded_from(s, env, name_end(s, i + 1))
    }
}

fn env_lookup(env: &Vec<(String, String)>, key: &str) -> (r: String)
    ensures
        r@ == env_value(env@, key@),
{
    let mut i: usize = 0;
    proof {
        assert(env@.subrange(0, env@.len() as int) =~= env@);
    }
    while i < env.len()
        invariant
            i <= env.len(),
            env_value(env@, key@) == env_value(env@.subrange(i as int, env@.len() as int), key@),
        decreases env.len() - i,
    {
        proof {
            let rest = env@.subrange(i as int, env@.len() as int);
            assert(rest.drop_first() =~= env@.subrange(i + 1, env@.len() as int));
            assert(rest[0] == env@[i as int]);
        }
        if same_text(env[i].0.as_str(), key) {
            return env[i].1.clone();
        }
        i += 1;
    }
    proof {
        assert(env@.subrange(i as int, env@.len() as int) =~= Seq::<(String, String)>::empty());
    }
    String::new()
}

fn is_name_character(c: char) -> (r: bool)
    ensures
        r == is_name_char(c),
{
    let u = c as u32;
    (48 <= u && u <= 57) || (65 <= u && u <= 90) || (97 <= u && u <= 122) || u == 95
}

fn find_close_brace(s: &str, start: usize) -> (r: Option<usize>)
    requires
        start <= s@.len(),
    ensures
        match r {
            Some(j) => brace_close(s@, start as int) == j as int && start <= j < s@.len(),
            None => brace_close(s@, start as int) == -1,
        },
{
    let n = s.unicode_len();
    proof {
        reveal_strlit("}");
        assert("}"@ =~= seq!['}']);
    }
    let mut j: usize = start;
    while j < n
        invariant
            n == s@.len(),
            start <= j <= n,
            "}"@ == seq!['}'],
            find_from(s@, seq!['}'], start as int) == find_from(s@, seq!['}'], j as int),
        decreases n - j,
    {
        if matches_at(s, "}", j) {
            return Some(j);
        }
        j += 1;
    }
    None
}

/// Replaces `${NAME}` and `$NAME` in `path` by the values in `env`.
pub fn expand_env_vars(path: &str, env: &Vec<(String, String)>) -> (r: String)
    ensures
        r@ == expanded_from(path@, env@, 0),
{
    let n = path.unicode_len();
    let mut out = String::new();
    let mut i: usize = 0;
    while i < n
        invariant
            n == path@.len(),
            i <= n,
            out@ + expanded_from(path@, env@, i as int) == expanded_from(path@, env@, 0),
        decreases n - i,
    {
        let ghost before = out@;
        let c = path.get_char(i);
        if c != '$' {
            push_char(&mut out, c);
            proof {
                assert(out@ + expanded_from(path@, env@, i + 1) =~= before + expanded_from(path@, env@, i as int));
            }
            i += 1;
            continue;
        }
        if i + 1 < n && path.get_char(i + 1) == '{' {
            match find_close_brace(path, i + 2) {
                Some(j) => {
                    let key = path.substring_char(i + 2, j);
                    out.append(env_lookup(env, key).as_str());
                    proof {
                        assert(out@ + expanded_from(path@, env@, j + 1) =~= before + expanded_from(
                            path@,
                            env@,
                            i as int,
                        ));
                    }
                    i = j + 1;
                    continue;
                },
                None => {},
            }
        }
        let mut j: usize = i + 1;
        while j < n && is_name_character(path.get_char(j))
            invariant
                n == path@.len(),
                i + 1 <= j <= n,
                name_end(path@, i + 1) == name_end(path@, j as int),
            decreases n - j,
        {
            j += 1;
        }
        if j == i + 1 {
            push_char(&mut out, '$');
            proof {
                assert(out@ + expanded_from(path@, env@, i + 1) =~= before + expanded_from(path@, env@, i as int));
            }
            i += 1;
        } else {
            let key = path.substring_char(i + 1, j);
            out.append(env_lookup(env, key).as_str());
            proof {
                assert(out@ + expanded_from(path@, env@, j as int) =~= before + expanded_from(path@, env@, i as int));
            }
            i = j;
        }
    }
    proof {
        assert(out@ =~= out@ + expanded_from(path@, env@, n as int));
    }
    out
}

} // verus!
