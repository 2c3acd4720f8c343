//! Version strings: production releases, alpha and beta previews, and
//! anything else, and how each is shown.
use vstd::prelude::*;
use crate::text::{trimmed, trim_text, strip_leading, trim_start_char, split_on, split_text, views, find_from, find_text, split_first, split_first_text, same_text, concat3};
use crate::retention::is_digit;

verus! {

/// What a version string denotes.
#[derive(Debug, PartialEq, Eq)]
pub enum VersionKind {
    /// A release: three dot-separated numbers.
    Production(String),
    /// A preview of the `alpha` or `beta` channel, maybe ahead of its tag.
    Preview {
        semver: String,
        channel: String,
        channel_iteration: String,
        ahead_count: Option<String>,
        hash: Option<String>,
    },
    /// Anything else, as given.
    Raw(String),
}

/// The mathematical content of a `VersionKind`.
pub enum VersionView {
    Production(Seq<char>),
    Preview {
        semver: Seq<char>,
        channel: Seq<char>,
        channel_iteration: Seq<char>,
        ahead_count: Option<Seq<char>>,
        hash: Option<Seq<char>>,
    },
    Raw(Seq<char>),
}

/// The characters of an optional text.
pub open spec fn opt_view(o: Option<String>) -> Option<Seq<char>> {
    match o {
        Some(s) => Some(s@),
        None => None,
    }
}

impl View for VersionKind {
    type V = VersionView;

    open spec fn view(&self) -> VersionView {
        match self {
            VersionKind::Production(s) => VersionView::Production(s@),
            VersionKind::Preview { semver, channel, channel_iteration, ahead_count, hash } => VersionView::Preview {
                semver: semver@,
                channel: channel@,
                channel_iteration: channel_iteration@,
                ahead_count: opt_view(*ahead_count),
                hash: opt_view(*hash),
            },
            VersionKind::Raw(s) => VersionView::Raw(s@),
        }
    }
}

/// Three dot-separated pieces made of digits only.
pub open spec fn release_number(v: Seq<char>) -> bool {
    split_on(v, '.').len() == 3 && forall|i: int| 0 <= i < v.len() ==> is_digit(#[trigger] v[i]) || v[i] == '.'
}

/// `h` without one leading `g`.
pub open spec fn strip_g(h: Seq<char>) -> Seq<char> {
    if h.len() > 0 && h[0] == 'g' {
        h.drop_first()
    } else {
        h
    }
}

/// A preview of `channel` when `marker` (`-<channel>.`) occurs in `value`:
/// the part in front is the release, then come the iteration, the number of
/// commits ahead and the commit hash (without its `g`), `-`-separated.
pub open spec fn preview_of(value: Seq<char>, marker: Seq<char>, channel: Seq<char>) -> Option<VersionView> {
    match find_from(value, marker, 0) {
        None => None,
        Some(idx) => {
            let rest = value.subrange(idx + marker.len(), value.len() as int);
            let first = split_first(rest, '-');
            Some(
                VersionView::Preview {
                    semver: value.take(idx),
                    channel,
                    channel_iteration: first.0,
                    ahead_count: match first.1 {
                        Some(r) => Some(split_first(r, '-').0),
                        None => None,
                    },
                    hash: match first.1 {
                        Some(r) => match split_first(r, '-').1 {
                            Some(h) => Some(strip_g(h)),
                            None => None,
                        },
                        None => None,
                    },
                },
            )
        },
    }
}

/// What a version string denotes, once trimmed and stripped of leading `v`s.
pub open spec fn version_of(version: Seq<char>) -> VersionView {
    let value = strip_leading(trimmed(version), 'v');
    if release_number(value) {
        VersionView::Production(value)
    } else {
        match preview_of(value, "-alpha."@, "alpha"@) {
            Some(p) => p,
            None => match preview_of(value, "-beta."@, "beta"@) {
                Some(p) => p,
                None => VersionView::Raw(value),
            },
        }
    }
}

fn is_release_number(v: &str) -> (r: bool)
    ensures
        r == release_number(v@),
{
    let pieces = split_text(v, '.');
    proof {
        assert(views(pieces@).len() == pieces@.len());
    }
    if pieces.len() != 3 {
        return false;
    }
    let n = v.unicode_len();
    let mut i: usize = 0;
    while i < n
        invariant
            n == v@.len(),
            i <= n,
            forall|j: int| 0 <= j < i ==> is_digit(#[trigger] v@[j]) || v@[j] == '.',
        decreases n - i,
    {
        let c = v.get_char(i);
        if !((48 <= (c as u32) && (c as u32) <= 57) || c == '.') {
            return false;
        }
        i += 1;
    }
    true
}

fn without_g(h: String) -> (r: String)
    ensures
        r@ == strip_g(h@),
{
    let n = h.as_str().unicode_len();
    if n > 0 && h.as_str().get_char(0) == 'g' {
        String::from_str(h.as_str().substring_char(1, n))
    } else {
        h
    }
}

fn parse_preview(value: &str, marker: &str, channel: &str) -> (r: Option<VersionKind>)
    ensures
        match preview_of(value@, marker@, channel@) {
            Some(p) => r is Some && r->0@ == p,
            None => r is None,
        },
{
    match find_text(value, marker) {
        None => None,
        Some(idx) => {
            let n = value.unicode_len();
            let m = marker.unicode_len();
            proof {
                crate::text::lemma_find_from_in_bounds(value@, marker@);
            }
            let semver = String::from_str(value.substring_char(0, idx));
            let rest = value.substring_char(idx + m, n);
            let (channel_iteration, tail) = split_first_text(rest, '-');
            let (ahead_count, hash) = match tail {
                Some(r) => {
                    let (a, h) = split_first_text(r.as_str(), '-');
                    let hash = match h {
                        Some(h) => Some(without_g(h)),
                        None => None,
                    };
                    (Some(a), hash)
                },
                None => (None, None),
            };
            let r = VersionKind::Preview {
                semver,
                channel: String::from_str(channel),
                channel_iteration,
                ahead_count,
                hash,
            };
            Some(r)
        },
    }
}

/// Reads a version string.
pub fn parse_version(version: &str) -> (r: VersionKind)
    ensures
        r@ == version_of(version@),
{
    let trimmed_text = trim_text(version);
    let value = trim_start_char(trimmed_text.as_str(), 'v');
    if is_release_number(value.as_str()) {
        return VersionKind::Production(value);
    }
    match parse_preview(value.as_str(), "-alpha.", "alpha") {
        Some(p) => p,
        None => match parse_preview(value.as_str(), "-beta.", "beta") {
            Some(p) => p,
            None => VersionKind::Raw(value),
        },
    }
}

/// The colour code of a preview channel: red for `alpha`, yellow otherwise.
pub open spec fn channel_color(channel: Seq<char>) -> Seq<char> {
    if channel == "alpha"@ {
        "31"@
    } else {
        "33"@
    }
}

/// How a version is shown. A preview shown without colour is the string as
/// given, without leading `v`s; with colour, its channel is highlighted and
/// its hash dimmed.
pub open spec fn shown_version(version: Seq<char>, color: bool) -> Seq<char> {
    match version_of(version) {
        VersionView::Production(s) => s,
        VersionView::Preview { semver, channel, channel_iteration, ahead_count, hash } => if !color {
            strip_leading(version, 'v')
        } else {
            semver + "-\u{1b}[1;"@ + channel_color(channel) + "m"@ + channel + "\u{1b}[0m."@
                + channel_iteration + if ahead_count is Some && hash is Some {
                "-"@ + ahead_count->0 + "-\u{1b}[90mg"@ + hash->0 + "\u{1b}[0m"@
            } else {
                Seq::empty()
            }
        },
        VersionView::Raw(r) => r,
    }
}

/// Formats a version for display, with colours when `color` is set.
pub fn format_version(version: &str, color: bool) -> (r: String)
    ensures
        r@ == shown_version(version@, color),
{
    match parse_version(version) {
        VersionKind::Production(semver) => semver,
        VersionKind::Preview { semver, channel, channel_iteration, ahead_count, hash } => {
            if !color {
                return trim_start_char(version, 'v');
            }
            let code = if same_text(channel.as_str(), "alpha") {
                "31"
            } else {
                "33"
            };
            let mut out = concat3(semver.as_str(), "-\u{1b}[1;", code);
            out.append("m");
            out.append(channel.as_str());
            out.append("\u{1b}[0m.");
            out.append(channel_iteration.as_str());
            let ghost head = out@;
            match (ahead_count, hash) {
                (Some(a), Some(h)) => {
                    out.append("-");
                    out.append(a.as_str());
                    out.append("-\u{1b}[90mg");
                    out.append(h.as_str());
                    out.append("\u{1b}[0m");
                    proof {
                        assert(out@ =~= head + ("-"@ + a@ + "-\u{1b}[90mg"@ + h@ + "\u{1b}[0m"@));
                    }
                },
                _ => {
                    proof {
                        assert(out@ =~= head + Seq::<char>::empty());
                    }
                },
            }
            proof {
                assert(head =~= semver@ + "-\u{1b}[1;"@ + channel_color(channel@) + "m"@ + channel@
                    + "\u{1b}[0m."@ + channel_iteration@);
            }
            out
        },
        VersionKind::Raw(raw) => raw,
    }
}

} // verus!
