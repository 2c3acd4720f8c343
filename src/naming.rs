//! Archive names, and collision-free numbering of names already taken.
use vstd::prelude::*;
use vstd::set_lib::*;
use vstd::relations::injective_on;
use crate::text::{decimal, digit_char, push_decimal, same_text, concat3};

verus! {

/// Some entry of `existing` is exactly `name`.
pub open spec fn taken(existing: Seq<String>, name: Seq<char>) -> bool {
    exists|i: int| 0 <= i < existing.len() && #[trigger] existing[i]@ == name
}

/// `base`, then `-n`, then `tail`.
pub open spec fn numbered(base: Seq<char>, tail: Seq<char>, n: nat) -> Seq<char> {
    base + seq!['-'] + decimal(n) + tail
}

/// The name picked for `base` + `tail` among `existing`: the plain name when
/// it is free, else the numbered name with the least number from 2 up that is
/// free.
pub open spec fn first_free(existing: Seq<String>, base: Seq<char>, tail: Seq<char>, r: Seq<char>) -> bool {
    if !taken(existing, base + tail) {
        r == base + tail
    } else {
        exists|n: nat|
            #![trigger numbered(base, tail, n)]
            2 <= n && r == numbered(base, tail, n) && !taken(existing, r) && forall|k: nat|
                2 <= k < n ==> taken(existing, #[trigger] numbered(base, tail, k))
    }
}

/// File name of an archive of `kind` dated `date`, without a number.
pub open spec fn archive_name(kind: Seq<char>, date: Seq<char>) -> Seq<char> {
    "zen-backup-"@ + kind + seq!['-'] + date + ".tar.gz"@
}

/// The part of an archive name in front of its optional number.
pub open spec fn archive_stem(kind: Seq<char>, date: Seq<char>) -> Seq<char> {
    "zen-backup-"@ + kind + seq!['-'] + date
}

proof fn lemma_digit_char_injective(a: nat, b: nat)
    requires
        a < 10,
        b < 10,
        digit_char(a) == digit_char(b),
    ensures
        a == b,
{
}

/// A number takes at least one digit, and two from 10 on.
pub proof fn lemma_decimal_len(n: nat)
    ensures
        decimal(n).len() >= 1,
        n >= 10 ==> decimal(n).len() >= 2,
    decreases n,
{
    if n >= 10 {
        lemma_decimal_len(n / 10);
    }
}

/// Different numbers are written differently.
pub proof fn lemma_decimal_injective(a: nat, b: nat)
    requires
        decimal(a) == decimal(b),
    ensures
        a == b,
    decreases a,
{
    lemma_decimal_len(a);
    lemma_decimal_len(b);
    if a < 10 && b < 10 {
        assert(decimal(a) =~= seq![digit_char(a)]);
        assert(decimal(b) =~= seq![digit_char(b)]);
        assert(decimal(a)[0] == digit_char(a));
        assert(decimal(b)[0] == digit_char(b));
        lemma_digit_char_injective(a, b);
    } else if a >= 10 && b >= 10 {
        let da = decimal(a);
        let db = decimal(b);
        assert(da.last() == db.last());
        lemma_digit_char_injective(a % 10, b % 10);
        assert(da.drop_last() =~= decimal(a / 10));
        assert(db.drop_last() =~= decimal(b / 10));
        lemma_decimal_injective(a / 10, b / 10);
    } else {
        assert(decimal(a).len() != decimal(b).len());
    }
}

proof fn lemma_numbered_injective(base: Seq<char>, tail: Seq<char>, a: nat, b: nat)
    requires
        numbered(base, tail, a) == numbered(base, tail, b),
    ensures
        a == b,
{
    let sa = numbered(base, tail, a);
    let sb = numbered(base, tail, b);
    let p: int = base.len() + 1int;
    assert(sa.len() == sb.len());
    assert(decimal(a).len() == decimal(b).len());
    assert(sa.subrange(p, p + decimal(a).len() as int) =~= decimal(a));
    assert(sb.subrange(p, p + decimal(b).len() as int) =~= decimal(b));
    lemma_decimal_injective(a, b);
}

/// Among `m + 1` numbers from 2 up, one names a free slot when only `m` names
/// are taken.
proof fn lemma_some_number_free(existing: Seq<String>, base: Seq<char>, tail: Seq<char>)
    ensures
        exists|k: nat| 2 <= k <= existing.len() + 2 && !taken(existing, #[trigger] numbered(base, tail, k)),
{
    let m = existing.len();
    if forall|k: nat| 2 <= k <= m + 2 ==> taken(existing, #[trigger] numbered(base, tail, k)) {
        let names = Set::new(|s: Seq<char>| taken(existing, s));
        let idx = set_int_range(0, m as int);
        let back = |s: Seq<char>| choose|i: int| 0 <= i < existing.len() && existing[i]@ == s;
        lemma_int_range(0, m as int);
        assert(names.subset_of(idx.map(|i: int| existing[i]@))) by {
            assert forall|s: Seq<char>| names.contains(s) implies idx.map(|i: int| existing[i]@).contains(s) by {
                let i = back(s);
                assert(idx.contains(i));
            }
        }
        lemma_map_size_bound(idx, idx.map(|i: int| existing[i]@), |i: int| existing[i]@);
        lemma_len_subset(names, idx.map(|i: int| existing[i]@));
        let ks = set_int_range(2, m + 3int);
        lemma_int_range(2, m + 3int);
        let f = |k: int| numbered(base, tail, k as nat);
        assert(injective_on(f, ks)) by {
            assert forall|x: int, y: int| ks.contains(x) && ks.contains(y) && #[trigger] f(x) == #[trigger] f(y) implies x == y by {
                lemma_numbered_injective(base, tail, x as nat, y as nat);
            }
        }
        lemma_map_size(ks, ks.map(f), f);
        assert(ks.map(f).subset_of(names)) by {
            assert forall|s: Seq<char>| ks.map(f).contains(s) implies names.contains(s) by {
                let k = choose|k: int| ks.contains(k) && f(k) == s;
                assert(taken(existing, numbered(base, tail, k as nat)));
            }
        }
        lemma_len_subset(ks.map(f), names);
        assert(false);
    }
}

/// Whether some entry of `existing` is exactly `name`.
pub fn is_taken(existing: &Vec<String>, name: &str) -> (r: bool)
    ensures
        r == taken(existing@, name@),
{
    let mut i: usize = 0;
    while i < existing.len()
        invariant
            i <= existing.len(),
            forall|j: int| 0 <= j < i ==> existing@[j]@ != name@,
        decreases existing.len() - i,
    {
        if same_text(existing[i].as_str(), name) {
            return true;
        }
        i += 1;
    }
    false
}

fn numbered_name(base: &str, tail: &str, n: u128) -> (r: String)
    ensures
        r@ == numbered(base@, tail@, n as nat),
{
    let mut r = String::from_str(base);
    r.append("-");
    proof {
        reveal_strlit("-");
    }
    push_decimal(&mut r, n);
    r.append(tail);
    r
}

/// Picks `base` + `tail` if no entry of `existing` holds it, else
/// `base-n` + `tail` with the least `n` from 2 up that none holds.
pub fn first_free_name(existing: &Vec<String>, base: &str, tail: &str) -> (r: String)
    ensures
        first_free(existing@, base@, tail@, r@),
        !taken(existing@, r@),
{
    let plain = crate::text::concat2(base, tail);
    if !is_taken(existing, plain.as_str()) {
        return plain;
    }
    let m = existing.len() as u128;
    proof {
        lemma_some_number_free(existing@, base@, tail@);
    }
    let mut k: u128 = 2;
    loop
        invariant
            m == existing@.len(),
            m <= usize::MAX,
            2 <= k <= m + 2,
            taken(existing@, base@ + tail@),
            forall|j: nat| 2 <= j < k ==> taken(existing@, #[trigger] numbered(base@, tail@, j)),
            exists|j: nat| 2 <= j <= m + 2 && !taken(existing@, #[trigger] numbered(base@, tail@, j)),
        decreases m + 2 - k,
    {
        let candidate = numbered_name(base, tail, k);
        if !is_taken(existing, candidate.as_str()) {
            assert(first_free(existing@, base@, tail@, candidate@)) by {
                assert(2 <= k && candidate@ == numbered(base@, tail@, k as nat));
            }
            return candidate;
        }
        if k == m + 2 {
            assert(forall|j: nat| 2 <= j <= m + 2 ==> taken(existing@, #[trigger] numbered(base@, tail@, j)));
            assert(false);
        }
        k += 1;
    }
}

/// The file name of an archive: `zen-backup-<kind>-<date>.tar.gz`.
pub fn build_archive_name(kind: &str, date_part: &str) -> (r: String)
    ensures
        r@ == archive_name(kind@, date_part@),
{
    let stem = archive_stem_text(kind, date_part);
    let r = crate::text::concat2(stem.as_str(), ".tar.gz");
    r
}

fn archive_stem_text(kind: &str, date_part: &str) -> (r: String)
    ensures
        r@ == archive_stem(kind@, date_part@),
{
    let mut r = concat3("zen-backup-", kind, "-");
    proof {
        reveal_strlit("-");
    }
    r.append(date_part);
    proof {
        assert(r@ =~= archive_stem(kind@, date_part@));
    }
    r
}

/// The name a new archive of `kind` dated `date_part` takes in a directory
/// that already holds `existing`: the plain name when it is free, else the
/// name numbered with the least free number from 2 up, placed before the
/// extension.
pub fn next_archive_name(existing: &Vec<String>, kind: &str, date_part: &str) -> (r: String)
    ensures
        first_free(existing@, archive_stem(kind@, date_part@), ".tar.gz"@, r@),
        !taken(existing@, r@),
{
    let stem = archive_stem_text(kind, date_part);
    first_free_name(existing, stem.as_str(), ".tar.gz")
}

/// Once a picked name is taken, picking again among the names now taken
/// (all earlier ones included) gives a numbered name that differs from the
/// first pick and is free.
pub proof fn lemma_next_pick_is_numbered(
    existing: Seq<String>,
    later: Seq<String>,
    base: Seq<char>,
    tail: Seq<char>,
    first: Seq<char>,
    second: Seq<char>,
)
    requires
        first_free(existing, base, tail, first),
        taken(later, first),
        forall|s: Seq<char>| taken(existing, s) ==> taken(later, s),
        first_free(later, base, tail, second),
    ensures
        exists|n: nat| 2 <= n && second == numbered(base, tail, n),
        second != first,
        !taken(later, second),
{
    assert(taken(later, base + tail));
    let n = choose|n: nat|
        #![trigger numbered(base, tail, n)]
        2 <= n && second == numbered(base, tail, n) && !taken(later, second) && forall|k: nat|
            2 <= k < n ==> taken(later, #[trigger] numbered(base, tail, k));
    assert(second == numbered(base, tail, n));
}

/// Two builds of one kind on one day: when the first build's archive is
/// among the names the second build sees (with every name the first saw),
/// the second archive is the first name numbered before its extension, it
/// differs from the first one, and it overwrites nothing that exists.
pub proof fn lemma_second_build_same_day(
    existing: Seq<String>,
    later: Seq<String>,
    kind: Seq<char>,
    date: Seq<char>,
    first: Seq<char>,
    second: Seq<char>,
)
    requires
        first_free(existing, archive_stem(kind, date), ".tar.gz"@, first),
        taken(later, first),
        forall|s: Seq<char>| taken(existing, s) ==> taken(later, s),
        first_free(later, archive_stem(kind, date), ".tar.gz"@, second),
    ensures
        exists|n: nat| 2 <= n && second == numbered(archive_stem(kind, date), ".tar.gz"@, n),
        second != first,
        !taken(later, second),
{
    lemma_next_pick_is_numbered(existing, later, archive_stem(kind, date), ".tar.gz"@, first, second);
}

} // verus!
