//! Dates embedded in archive names, and the age-based retention rule.
use vstd::prelude::*;
use crate::text::{decimal, same_text, split_on, split_text, views, has_prefix, has_suffix, starts_with, ends_with,
    concat3, lemma_split_nonempty};
use crate::naming::{archive_name, archive_stem, numbered, lemma_decimal_len};

verus! {

/// A decimal digit character.
pub open spec fn is_digit(c: char) -> bool {
    48 <= (c as u32) <= 57
}

/// The value of the decimal digits `s`.
pub open spec fn digits_value(s: Seq<char>) -> nat
    decreases s.len(),
{
    if s.len() == 0 {
        0
    } else {
        digits_value(s.drop_last()) * 10 + ((s.last() as u32) - 48) as nat
    }
}

/// A date part: one or more decimal digits whose value is at most 10^15.
pub open spec fn number_of(s: Seq<char>) -> Option<nat> {
    if s.len() > 0 && (forall|i: int| 0 <= i < s.len() ==> is_digit(#[trigger] s[i])) && digits_value(s)
        <= 1000000000000000 {
        Some(digits_value(s))
    } else {
        None
    }
}

proof fn lemma_digits_grow(s: Seq<char>, i: int)
    requires
        0 <= i <= s.len(),
        forall|j: int| 0 <= j < s.len() ==> is_digit(#[trigger] s[j]),
    ensures
        digits_value(s.take(i)) <= digits_value(s),
    decreases s.len() - i,
{
    if i < s.len() {
        lemma_digits_grow(s, i + 1);
        assert(s.take(i + 1).drop_last() =~= s.take(i));
    } else {
        assert(s.take(i) =~= s);
    }
}

/// Reads a date part.
pub fn parse_number(s: &str) -> (r: Option<u64>)
    ensures
        match number_of(s@) {
            Some(v) => r == Some(v as u64),
            None => r is None,
        },
{
    let n = s.unicode_len();
    if n == 0 {
        return None;
    }
    let mut value: u64 = 0;
    let mut i: usize = 0;
    while i < n
        invariant
            n == s@.len(),
            i <= n,
            forall|j: int| 0 <= j < i ==> is_digit(#[trigger] s@[j]),
            value == digits_value(s@.take(i as int)),
            value <= 1000000000000000,
        decreases n - i,
    {
        let c = s.get_char(i);
        if !(48 <= (c as u32) && (c as u32) <= 57) {
            return None;
        }
        proof {
            assert(s@.take(i as int + 1).drop_last() =~= s@.take(i as int));
        }
        value = value * 10 + ((c as u32) - 48) as u64;
        if value > 1000000000000000 {
            proof {
                assert(s@.take(i as int + 1).drop_last() =~= s@.take(i as int));
                if forall|j: int| 0 <= j < s@.len() ==> is_digit(#[trigger] s@[j]) {
                    lemma_digits_grow(s@, i as int + 1);
                }
            }
            return None;
        }
        i += 1;
    }
    proof {
        assert(s@.take(n as int) =~= s@);
    }
    Some(value)
}

/// The date embedded in an archive name, written `YYYY-MM-DD`: the fourth,
/// fifth and sixth `-`-separated pieces of the name (the last one cut at its
/// first `.`), when they are four, two and two characters long.
pub open spec fn archive_date(name: Seq<char>) -> Option<Seq<char>> {
    let parts = split_on(name, '-');
    if parts.len() < 6 {
        None
    } else {
        let day = split_on(parts[5], '.')[0];
        if parts[3].len() == 4 && parts[4].len() == 2 && day.len() == 2 {
            Some(parts[3] + seq!['-'] + parts[4] + seq!['-'] + day)
        } else {
            None
        }
    }
}

/// A day number for a `Y-M-D` date: `Y * 372 + M * 31 + D`. Any date that
/// compares later gets a larger number, which is all retention needs.
pub open spec fn date_days(date: Seq<char>) -> Option<int> {
    let parts = split_on(date, '-');
    if parts.len() >= 3 && number_of(parts[0]) is Some && number_of(parts[1]) is Some && number_of(
        parts[2],
    ) is Some {
        Some(
            (number_of(parts[0])->0 * 372 + number_of(parts[1])->0 * 31 + number_of(parts[2])->0) as int,
        )
    } else {
        None
    }
}

/// Reads the date out of an archive name.
pub fn parse_archive_date(name: &str) -> (r: Option<String>)
    ensures
        match archive_date(name@) {
            Some(d) => r is Some && r->0@ == d,
            None => r is None,
        },
{
    let parts = split_text(name, '-');
    proof {
        assert(views(parts@).len() == parts@.len());
    }
    if parts.len() < 6 {
        return None;
    }
    let day_pieces = split_text(parts[5].as_str(), '.');
    proof {
        assert(parts@[5]@ == split_on(name@, '-')[5]);
        lemma_split_nonempty(parts@[5]@, '.');
        assert(views(day_pieces@).len() == day_pieces@.len());
        assert(day_pieces@[0]@ == split_on(parts@[5]@, '.')[0]);
        assert(parts@[3]@ == split_on(name@, '-')[3]);
        assert(parts@[4]@ == split_on(name@, '-')[4]);
    }
    let year = parts[3].as_str();
    let month = parts[4].as_str();
    let day = day_pieces[0].as_str();
    if year.unicode_len() == 4 && month.unicode_len() == 2 && day.unicode_len() == 2 {
        let mut r = concat3(year, "-", month);
        r.append("-");
        r.append(day);
        proof {
            reveal_strlit("-");
            assert(r@ =~= year@ + seq!['-'] + month@ + seq!['-'] + day@);
        }
        Some(r)
    } else {
        None
    }
}

/// The day number of a `Y-M-D` date, or `None` when it is not one.
pub fn date_to_days(date: &str) -> (r: Option<i64>)
    ensures
        match date_days(date@) {
            Some(v) => r == Some(v as i64),
            None => r is None,
        },
{
    let parts = split_text(date, '-');
    proof {
        assert(views(parts@).len() == parts@.len());
    }
    if parts.len() < 3 {
        return None;
    }
    proof {
        assert(parts@[0]@ == split_on(date@, '-')[0]);
        assert(parts@[1]@ == split_on(date@, '-')[1]);
        assert(parts@[2]@ == split_on(date@, '-')[2]);
    }
    let y = match parse_number(parts[0].as_str()) {
        Some(v) => v,
        None => return None,
    };
    let m = match parse_number(parts[1].as_str()) {
        Some(v) => v,
        None => return None,
    };
    let d = match parse_number(parts[2].as_str()) {
        Some(v) => v,
        None => return None,
    };
    Some((y * 372 + m * 31 + d) as i64)
}

/// Age, in days, of the archive dated `date` relative to `now_days`; a date
/// that cannot be read counts as today.
pub open spec fn age_days(date: Seq<char>, now_days: int) -> int {
    match date_days(date) {
        Some(v) => now_days - v,
        None => 0,
    }
}

/// The day number of the reference date; one that cannot be read counts as 0.
pub open spec fn reference_days(now_date: Seq<char>) -> int {
    match date_days(now_date) {
        Some(v) => v,
        None => 0,
    }
}

/// The front of every archive name of `kind`: `zen-backup-<kind>-`.
pub open spec fn kind_prefix(kind: Seq<char>) -> Seq<char> {
    "zen-backup-"@ + kind + seq!['-']
}

/// A date written `YYYY-MM-DD`: ten characters, digits but for `-` at
/// positions 4 and 7.
pub open spec fn date_form(d: Seq<char>) -> bool {
    d.len() == 10 && forall|i: int|
        0 <= i < 10 ==> if i == 4 || i == 7 {
            d[i] == '-'
        } else {
            is_digit(#[trigger] d[i])
        }
}

/// What follows the date in an archive name: `.tar.gz`, or a `-`, one or
/// more digits and `.tar.gz`.
pub open spec fn archive_tail(t: Seq<char>) -> bool {
    ||| t == ".tar.gz"@
    ||| t.len() > 8 && t[0] == '-' && has_suffix(t, ".tar.gz"@) && forall|i: int|
        1 <= i < t.len() - 7 ==> is_digit(#[trigger] t[i])
}

/// The date inside an archive name of `kind`.
pub open spec fn name_date(name: Seq<char>, kind: Seq<char>) -> Seq<char> {
    let p = kind_prefix(kind).len() as int;
    name.subrange(p, p + 10)
}

/// Names that follow the naming convention for `kind`:
/// `zen-backup-<kind>-YYYY-MM-DD.tar.gz`, or the same with `-<digits>`
/// before `.tar.gz`.
pub open spec fn archive_of_kind(name: Seq<char>, kind: Seq<char>) -> bool {
    let p = kind_prefix(kind).len() as int;
    &&& has_prefix(name, kind_prefix(kind))
    &&& name.len() >= p + 10
    &&& date_form(name.subrange(p, p + 10))
    &&& archive_tail(name.subrange(p + 10, name.len() as int))
}

/// The retention rule: an archive of `kind` is deleted when its age is
/// strictly above `max_age_days`; any other name is left alone.
pub open spec fn prunable(name: Seq<char>, kind: Seq<char>, max_age_days: int, now_date: Seq<char>) -> bool {
    archive_of_kind(name, kind) && age_days(name_date(name, kind), reference_days(now_date)) > max_age_days
}

fn is_date_form(d: &str) -> (r: bool)
    ensures
        r == date_form(d@),
{
    if d.unicode_len() != 10 {
        return false;
    }
    let mut i: usize = 0;
    while i < 10
        invariant
            d@.len() == 10,
            i <= 10,
            forall|j: int|
                0 <= j < i ==> if j == 4 || j == 7 {
                    d@[j] == '-'
                } else {
                    is_digit(#[trigger] d@[j])
                },
        decreases 10 - i,
    {
        let c = d.get_char(i);
        let ok = if i == 4 || i == 7 {
            c == '-'
        } else {
            48 <= (c as u32) && (c as u32) <= 57
        };
        if !ok {
            return false;
        }
        i += 1;
    }
    true
}

fn is_archive_tail(t: &str) -> (r: bool)
    ensures
        r == archive_tail(t@),
{
    if same_text(t, ".tar.gz") {
        return true;
    }
    let n = t.unicode_len();
    if n <= 8 || t.get_char(0) != '-' || !ends_with(t, ".tar.gz") {
        return false;
    }
    proof {
        reveal_strlit(".tar.gz");
    }
    let mut i: usize = 1;
    while i < n - 7
        invariant
            n == t@.len(),
            n > 8,
            1 <= i <= n - 7,
            t@ != ".tar.gz"@,
            t@[0] == '-',
            has_suffix(t@, ".tar.gz"@),
            forall|j: int| 1 <= j < i ==> is_digit(#[trigger] t@[j]),
        decreases n - 7 - i,
    {
        let c = t.get_char(i);
        if !(48 <= (c as u32) && (c as u32) <= 57) {
            proof {
                assert(!is_digit(t@[i as int]));
            }
            return false;
        }
        i += 1;
    }
    true
}

/// Whether the file `name`, found among archives of `kind`, is an archive
/// of that kind past retention on the reference date `now_date`.
pub fn should_prune(name: &str, kind: &str, max_age_days: i64, now_date: &str) -> (r: bool)
    ensures
        r == prunable(name@, kind@, max_age_days as int, now_date@),
{
    let prefix = concat3("zen-backup-", kind, "-");
    proof {
        reveal_strlit("-");
        assert(prefix@ =~= kind_prefix(kind@));
    }
    if !starts_with(name, prefix.as_str()) {
        return false;
    }
    let p = prefix.as_str().unicode_len();
    let n = name.unicode_len();
    if n - p < 10 {
        return false;
    }
    let date = name.substring_char(p, p + 10);
    if !is_date_form(date) {
        return false;
    }
    if !is_archive_tail(name.substring_char(p + 10, n)) {
        return false;
    }
    let now_days: i64 = match date_to_days(now_date) {
        Some(v) => v,
        None => 0,
    };
    let age: i64 = match date_to_days(date) {
        Some(v) => now_days - v,
        None => 0,
    };
    age > max_age_days
}

/// The entries of `names` that retention deletes, in their order.
pub fn select_expired(names: &Vec<String>, kind: &str, max_age_days: i64, now_date: &str) -> (r: Vec<
    String,
>)
    ensures
        views(r@) == views(names@).filter(|n: Seq<char>| prunable(n, kind@, max_age_days as int, now_date@)),
{
    let ghost keep = |n: Seq<char>| prunable(n, kind@, max_age_days as int, now_date@);
    let mut r: Vec<String> = Vec::new();
    proof {
        reveal(Seq::filter);
        assert(views(names@).take(0).filter(keep) =~= Seq::<Seq<char>>::empty());
        assert(views(r@) =~= Seq::<Seq<char>>::empty());
    }
    let mut i: usize = 0;
    while i < names.len()
        invariant
            i <= names.len(),
            keep == (|n: Seq<char>| prunable(n, kind@, max_age_days as int, now_date@)),
            views(r@) == views(names@).take(i as int).filter(keep),
        decreases names.len() - i,
    {
        let ghost t = views(names@).take(i as int + 1);
        proof {
            assert(views(names@).len() == names@.len());
            assert(t.len() == i + 1);
            assert(t.drop_last() =~= views(names@).take(i as int));
            assert(t.last() == names@[i as int]@);
            reveal(Seq::filter);
            assert(t.filter(keep) == (if keep(t.last()) {
                t.drop_last().filter(keep).push(t.last())
            } else {
                t.drop_last().filter(keep)
            }));
        }
        if should_prune(names[i].as_str(), kind, max_age_days, now_date) {
            r.push(names[i].clone());
            proof {
                assert(views(r@) =~= t.filter(keep));
            }
        }
        i += 1;
    }
    proof {
        assert(views(names@).take(names.len() as int) =~= views(names@));
    }
    r
}

/// The archive of `kind` dated `d`: plain, or numbered with `m`.
pub open spec fn dated_archive(kind: Seq<char>, d: Seq<char>, number: Option<nat>) -> Seq<char> {
    match number {
        None => archive_name(kind, d),
        Some(m) => numbered(archive_stem(kind, d), ".tar.gz"@, m),
    }
}

proof fn lemma_decimal_digits(m: nat)
    ensures
        forall|i: int| 0 <= i < decimal(m).len() ==> is_digit(#[trigger] decimal(m)[i]),
    decreases m,
{
    if m >= 10 {
        lemma_decimal_digits(m / 10);
        assert forall|i: int| 0 <= i < decimal(m).len() implies is_digit(#[trigger] decimal(m)[i]) by {
            if i < decimal(m).len() - 1 {
                assert(decimal(m)[i] == decimal(m / 10)[i]);
            }
        }
    }
}

/// Every archive name the namer gives for `kind` and a date `d` follows the
/// naming convention, and its date reads back as `d`.
pub proof fn lemma_dated_archive_follows_convention(kind: Seq<char>, d: Seq<char>, number: Option<nat>)
    requires
        date_form(d),
    ensures
        archive_of_kind(dated_archive(kind, d, number), kind),
        name_date(dated_archive(kind, d, number), kind) == d,
{
    reveal_strlit(".tar.gz");
    let pre = kind_prefix(kind);
    let p = pre.len() as int;
    let tail: Seq<char> = match number {
        None => ".tar.gz"@,
        Some(m) => seq!['-'] + decimal(m) + ".tar.gz"@,
    };
    let name = dated_archive(kind, d, number);
    assert(name =~= pre + d + tail);
    assert(name.subrange(0, p) =~= pre);
    assert(name.subrange(p, p + 10) =~= d);
    assert(name.subrange(p + 10, name.len() as int) =~= tail);
    if let Some(m) = number {
        lemma_decimal_len(m);
        lemma_decimal_digits(m);
        assert(tail.subrange(tail.len() - 7, tail.len() as int) =~= ".tar.gz"@);
        assert forall|i: int| 1 <= i < tail.len() - 7 implies is_digit(#[trigger] tail[i]) by {
            assert(tail[i] == decimal(m)[i - 1]);
        }
    }
}

/// With `max_age_days = n`: an archive of `kind` dated `d` (plain or
/// numbered) is kept when `d` lies exactly `n` days before the reference
/// date, and deleted when it lies `n + 1` days before.
pub proof fn lemma_retention_boundary(kind: Seq<char>, d: Seq<char>, number: Option<nat>, n: int, now_date: Seq<char>)
    requires
        date_form(d),
        date_days(now_date) is Some,
    ensures
        date_days(d)->0 == date_days(now_date)->0 - n ==> !prunable(dated_archive(kind, d, number), kind, n, now_date),
        date_days(d)->0 == date_days(now_date)->0 - (n + 1) ==> prunable(
            dated_archive(kind, d, number),
            kind,
            n,
            now_date,
        ),
{
    lemma_dated_archive_follows_convention(kind, d, number);
    lemma_date_form_reads(d);
}

/// A name that is not an archive of `kind` is never deleted, whatever its
/// age and the retention.
pub proof fn lemma_foreign_names_kept(name: Seq<char>, kind: Seq<char>, n: int, now_date: Seq<char>)
    requires
        !archive_of_kind(name, kind),
    ensures
        !prunable(name, kind, n, now_date),
{
}

proof fn lemma_split_without_separator(s: Seq<char>, c: char)
    requires
        forall|i: int| 0 <= i < s.len() ==> s[i] != c,
    ensures
        split_on(s, c) == seq![s],
    decreases s.len(),
{
    if s.len() > 0 {
        lemma_split_without_separator(s.drop_last(), c);
        assert(s.drop_last().push(s.last()) =~= s);
        assert(seq![s.drop_last()].update(0, s) =~= seq![s]);
    } else {
        assert(s =~= Seq::<char>::empty());
    }
}

proof fn lemma_split_around_separator(a: Seq<char>, b: Seq<char>, c: char)
    ensures
        split_on(a + seq![c] + b, c) == split_on(a, c) + split_on(b, c),
    decreases b.len(),
{
    let whole = a + seq![c] + b;
    lemma_split_nonempty(a, c);
    if b.len() == 0 {
        assert(whole.drop_last() =~= a);
        assert(split_on(b, c) =~= seq![Seq::<char>::empty()]);
        assert(split_on(a, c).push(Seq::empty()) =~= split_on(a, c) + split_on(b, c));
    } else {
        let b0 = b.drop_last();
        lemma_split_around_separator(a, b0, c);
        lemma_split_nonempty(b0, c);
        assert(whole.drop_last() =~= a + seq![c] + b0);
        assert(whole.last() == b.last());
        let left = split_on(a, c);
        let right = split_on(b0, c);
        if b.last() == c {
            assert((left + right).push(Seq::empty()) =~= left + right.push(Seq::empty()));
        } else {
            let r = left + right;
            assert(r.update(r.len() - 1, r.last().push(b.last())) =~= left + right.update(
                right.len() - 1,
                right.last().push(b.last()),
            ));
        }
    }
}

/// `10` raised to `n`.
pub open spec fn pow10(n: nat) -> nat
    decreases n,
{
    if n == 0 {
        1
    } else {
        10 * pow10((n - 1) as nat)
    }
}

proof fn lemma_digits_below(s: Seq<char>)
    requires
        forall|i: int| 0 <= i < s.len() ==> is_digit(#[trigger] s[i]),
    ensures
        digits_value(s) < pow10(s.len()),
    decreases s.len(),
{
    if s.len() > 0 {
        let t = s.drop_last();
        assert forall|i: int| 0 <= i < t.len() implies is_digit(#[trigger] t[i]) by {
            assert(t[i] == s[i]);
        }
        lemma_digits_below(t);
        let v = digits_value(t);
        let p = pow10(t.len());
        let d = ((s.last() as u32) - 48) as nat;
        assert(d <= 9);
        assert(v * 10 + d < p * 10) by (nonlinear_arith)
            requires
                v < p,
                d <= 9,
        ;
    }
}

proof fn lemma_small_number(s: Seq<char>)
    requires
        0 < s.len() <= 4,
        forall|i: int| 0 <= i < s.len() ==> is_digit(#[trigger] s[i]),
    ensures
        number_of(s) == Some(digits_value(s)),
{
    lemma_digits_below(s);
    assert(pow10(4) == 10000) by {
        reveal_with_fuel(pow10, 5);
    }
    if s.len() < 4 {
        assert(pow10(s.len()) <= 1000) by {
            reveal_with_fuel(pow10, 4);
        }
    }
}

/// A date written `YYYY-MM-DD` always reads as a day number.
pub proof fn lemma_date_form_reads(d: Seq<char>)
    requires
        date_form(d),
    ensures
        date_days(d) is Some,
{
    let y = d.subrange(0, 4);
    let m = d.subrange(5, 7);
    let dd = d.subrange(8, 10);
    assert(d =~= y + seq!['-'] + (m + seq!['-'] + dd));
    assert(forall|i: int| 0 <= i < 4 ==> is_digit(#[trigger] y[i]) && y[i] == d[i]);
    assert(forall|i: int| 0 <= i < 2 ==> is_digit(#[trigger] m[i]) && m[i] == d[i + 5]);
    assert(forall|i: int| 0 <= i < 2 ==> is_digit(#[trigger] dd[i]) && dd[i] == d[i + 8]);
    assert forall|i: int| 0 <= i < y.len() implies y[i] != '-' by {
        assert(is_digit(d[i]));
    }
    assert forall|i: int| 0 <= i < m.len() implies m[i] != '-' by {
        assert(is_digit(d[i + 5]));
    }
    assert forall|i: int| 0 <= i < dd.len() implies dd[i] != '-' by {
        assert(is_digit(d[i + 8]));
    }
    lemma_split_without_separator(y, '-');
    lemma_split_without_separator(m, '-');
    lemma_split_without_separator(dd, '-');
    lemma_split_around_separator(m, dd, '-');
    lemma_split_around_separator(y, m + seq!['-'] + dd, '-');
    let parts = split_on(d, '-');
    assert(parts =~= seq![y, m, dd]);
    lemma_small_number(y);
    lemma_small_number(m);
    lemma_small_number(dd);
}

} // verus!
