//! Upstream timestamps: naive ISO-8601 strings ("YYYY-MM-DDTHH:MM:SS") that are
//! in fact UTC, turned into unix seconds.
use vstd::prelude::*;
use crate::text::{
    all_digits, digits_value, is_digit, lemma_zero_padded, zero_padded, chars_of, find_char, lemma_find_char, lemma_find_char_at, parse_i32_at, parse_u32_at, spec_find_char, spec_parse_i32,
    spec_parse_u32,
};

verus! {

/// Days from 1970-01-01 to the proleptic Gregorian date `y`-`m`-`d`, counting
/// years from March so that February comes last; `d` may run past the end of its
/// month (the 31st of February is the 3rd of March, or the 2nd in a leap year).
pub open spec fn civil_days(y: int, m: int, d: int) -> int {
    let ya = if m <= 2 { y - 1 } else { y };
    let mp = if m > 2 { m - 3 } else { m + 9 };
    365 * ya + ya / 4 - ya / 100 + ya / 400 + (153 * mp + 2) / 5 + d - 1 - 719468
}

/// The computation of a day count for year `y` and month `m` stays within `i32`
/// (it does not for the 399 or so earliest years that `i32` can hold).
pub open spec fn civil_in_range(y: int, m: int) -> bool {
    (if m <= 2 { y - 1 } else { y }) >= i32::MIN + 399
}

/// Days since the unix epoch of `y`-`m`-`d`, or `None` unless `1 <= m <= 12` and
/// `1 <= d <= 31`.
pub open spec fn spec_days_since_epoch(y: int, m: int, d: int) -> Option<int> {
    if 1 <= m <= 12 && 1 <= d <= 31 {
        Some(civil_days(y, m, d))
    } else {
        None
    }
}

/// Days since 1970-01-01 of the date `y`-`m`-`d`; `None` for a month outside
/// 1..=12 or a day outside 1..=31.
pub fn days_since_epoch(y: i32, m: u32, d: u32) -> (r: Option<i64>)
    requires
        1 <= m <= 12 && 1 <= d <= 31 ==> civil_in_range(y as int, m as int),
    ensures
        r matches Some(v) ==> spec_days_since_epoch(y as int, m as int, d as int) == Some(v as int)
            && -800_000_000_000 <= v <= 800_000_000_000,
        r is None ==> spec_days_since_epoch(y as int, m as int, d as int) is None,
{
    if !(1 <= m && m <= 12) || !(1 <= d && d <= 31) {
        return None;
    }
    let y = if m <= 2 { y - 1 } else { y };
    let era = (if y >= 0 { y } else { y - 399 }) / 400;
    let yoe = (y - era * 400) as u32;
    let doy = (153 * (if m > 2 { m - 3 } else { m + 9 }) + 2) / 5 + d - 1;
    let doe = yoe * 365 + yoe / 4 - yoe / 100 + doy;
    proof {
        let ya = y as int;
        assert(ya == era * 400 + yoe) by (nonlinear_arith)
            requires
                era == ya / 400,
                yoe == ya - era * 400,
        ;
        assert(ya / 4 == era * 100 + yoe / 4) by (nonlinear_arith)
            requires
                ya == era * 400 + yoe,
                0 <= yoe < 400,
        ;
        assert(ya / 100 == era * 4 + yoe / 100) by (nonlinear_arith)
            requires
                ya == era * 400 + yoe,
                0 <= yoe < 400,
        ;
        assert(365 * ya == era * 146000 + yoe * 365) by (nonlinear_arith)
            requires
                ya == era * 400 + yoe,
        ;
        assert(-6_000_000 <= era <= 6_000_000);
    }
    Some(era as i64 * 146097 + doe as i64 - 719468)
}

/// `s` up to its first `c` (all of `s` when there is none): the first item of
/// `s.split(c)`.
pub open spec fn upto_char(s: Seq<char>, c: char) -> Seq<char> {
    match spec_find_char(s, c) {
        Some(i) => s.take(i),
        None => s,
    }
}

/// What follows the first `c` of `s`, if there is one.
pub open spec fn after_char(s: Seq<char>, c: char) -> Option<Seq<char>> {
    match spec_find_char(s, c) {
        Some(i) => Some(s.skip(i + 1)),
        None => None,
    }
}

/// Item `n` (from 0) of `s.split(c)`, if there is one.
pub open spec fn piece(s: Seq<char>, c: char, n: nat) -> Option<Seq<char>>
    decreases n,
{
    if n == 0 {
        Some(upto_char(s, c))
    } else {
        match after_char(s, c) {
            Some(rest) => piece(rest, c, (n - 1) as nat),
            None => None,
        }
    }
}

/// `s` without its trailing `Z`s.
pub open spec fn trim_end_z(s: Seq<char>) -> Seq<char>
    decreases s.len(),
{
    if s.len() > 0 && s.last() == 'Z' {
        trim_end_z(s.drop_last())
    } else {
        s
    }
}

/// The six numbers of a timestamp: `s` is cut at its first `.`, stripped of
/// trailing `Z`s and split at its first `T`; the date part's first three `-`
/// separated items are year (`i32`), month and day (`u32`), the time part's first
/// three `:` separated items are hours, minutes and seconds (`u32`).
pub open spec fn spec_iso_fields(s: Seq<char>) -> Option<(int, int, int, int, int, int)> {
    let a = trim_end_z(upto_char(s, '.'));
    match spec_find_char(a, 'T') {
        None => None,
        Some(t) => {
            let date = a.take(t);
            let time = a.skip(t + 1);
            match (
                piece(date, '-', 0),
                piece(date, '-', 1),
                piece(date, '-', 2),
                piece(time, ':', 0),
                piece(time, ':', 1),
                piece(time, ':', 2),
            ) {
                (Some(ys), Some(mos), Some(ds), Some(hs), Some(mis), Some(ss)) => match (
                    spec_parse_i32(ys),
                    spec_parse_u32(mos),
                    spec_parse_u32(ds),
                    spec_parse_u32(hs),
                    spec_parse_u32(mis),
                    spec_parse_u32(ss),
                ) {
                    (Some(y), Some(mo), Some(d), Some(h), Some(mi), Some(se)) => Some(
                        (y, mo, d, h, mi, se),
                    ),
                    _ => None,
                },
                _ => None,
            }
        },
    }
}

/// The numbers read from a timestamp.
pub struct IsoFields {
    pub year: i32,
    pub month: u32,
    pub day: u32,
    pub hour: u32,
    pub minute: u32,
    pub second: u32,
}

impl IsoFields {
    /// The six numbers, in order.
    pub open spec fn as_tuple(self) -> (int, int, int, int, int, int) {
        (
            self.year as int,
            self.month as int,
            self.day as int,
            self.hour as int,
            self.minute as int,
            self.second as int,
        )
    }
}

/// The range of item `n` of `v[lo..hi].split(c)`.
fn piece_range(v: &Vec<char>, lo: usize, hi: usize, c: char, n: usize) -> (r: Option<(usize, usize)>)
    requires
        lo <= hi <= v.len(),
    ensures
        r matches Some((a, b)) ==> lo <= a <= b <= hi && piece(
            v@.subrange(lo as int, hi as int),
            c,
            n as nat,
        ) == Some(v@.subrange(a as int, b as int)),
        r is None ==> piece(v@.subrange(lo as int, hi as int), c, n as nat) is None,
    decreases n,
{
    let ghost sub = v@.subrange(lo as int, hi as int);
    let found = find_char(v, lo, hi, c);
    if n == 0 {
        match found {
            Some(i) => {
                assert(sub.take(i - lo) == v@.subrange(lo as int, i as int));
                Some((lo, i))
            },
            None => Some((lo, hi)),
        }
    } else {
        match found {
            Some(i) => {
                assert(sub.skip(i - lo + 1) == v@.subrange(i + 1, hi as int));
                piece_range(v, i + 1, hi, c, n - 1)
            },
            None => None,
        }
    }
}

/// The six numbers of the timestamp `s` (see `spec_iso_fields`).
pub fn parse_iso_fields(s: &str) -> (r: Option<IsoFields>)
    ensures
        r matches Some(f) ==> spec_iso_fields(s@) == Some(f.as_tuple()),
        r is None ==> spec_iso_fields(s@) is None,
{
    let v = chars_of(s);
    let n = v.len();
    assert(v@.subrange(0, n as int) == s@);
    let e1 = match find_char(&v, 0, n, '.') {
        Some(i) => i,
        None => n,
    };
    assert(upto_char(s@, '.') == v@.subrange(0, e1 as int));
    let mut e2 = e1;
    while e2 > 0 && v[e2 - 1] == 'Z'
        invariant
            e2 <= e1 <= n == v.len(),
            trim_end_z(v@.subrange(0, e1 as int)) == trim_end_z(v@.subrange(0, e2 as int)),
        decreases e2,
    {
        assert(v@.subrange(0, e2 as int).drop_last() == v@.subrange(0, e2 - 1));
        e2 = e2 - 1;
    }
    let ghost a = v@.subrange(0, e2 as int);
    assert(trim_end_z(a) == a);
    let t = match find_char(&v, 0, e2, 'T') {
        Some(t) => t,
        None => return None,
    };
    assert(a.take(t as int) == v@.subrange(0, t as int));
    assert(a.skip(t + 1) == v@.subrange(t + 1, e2 as int));
    let yr = piece_range(&v, 0, t, '-', 0);
    let mr = piece_range(&v, 0, t, '-', 1);
    let dr = piece_range(&v, 0, t, '-', 2);
    let hr = piece_range(&v, t + 1, e2, ':', 0);
    let mir = piece_range(&v, t + 1, e2, ':', 1);
    let sr = piece_range(&v, t + 1, e2, ':', 2);
    match (yr, mr, dr, hr, mir, sr) {
        (Some((y0, y1)), Some((m0, m1)), Some((d0, d1)), Some((h0, h1)), Some((i0, i1)), Some((
            s0,
            s1,
        ))) => {
            match (
                parse_i32_at(&v, y0, y1),
                parse_u32_at(&v, m0, m1),
                parse_u32_at(&v, d0, d1),
                parse_u32_at(&v, h0, h1),
                parse_u32_at(&v, i0, i1),
                parse_u32_at(&v, s0, s1),
            ) {
                (Some(year), Some(month), Some(day), Some(hour), Some(minute), Some(second)) => {
                    Some(IsoFields { year, month, day, hour, minute, second })
                },
                _ => None,
            }
        },
        _ => None,
    }
}

/// Unix seconds of the timestamp `s`, read as UTC; `None` when it does not parse
/// or its month or day is out of range.
pub open spec fn spec_parse_iso_utc(s: Seq<char>) -> Option<int> {
    match spec_iso_fields(s) {
        Some((y, mo, d, h, mi, se)) => match spec_days_since_epoch(y, mo, d) {
            Some(days) => Some(days * 86400 + h * 3600 + mi * 60 + se),
            None => None,
        },
        None => None,
    }
}

/// The day count of the timestamp `s` stays within `i32` while it is computed.
pub open spec fn iso_in_range(s: Seq<char>) -> bool {
    match spec_iso_fields(s) {
        Some((y, mo, d, h, mi, se)) => 1 <= mo <= 12 && 1 <= d <= 31 ==> civil_in_range(y, mo),
        None => true,
    }
}

/// Unix seconds of an upstream timestamp ("YYYY-MM-DDTHH:MM:SS", taken as UTC),
/// or `None` on a parse failure.
pub fn parse_iso_utc(s: &str) -> (r: Option<i64>)
    requires
        iso_in_range(s@),
    ensures
        r matches Some(v) ==> spec_parse_iso_utc(s@) == Some(v as int),
        r is None ==> spec_parse_iso_utc(s@) is None,
{
    let f = match parse_iso_fields(s) {
        Some(f) => f,
        None => return None,
    };
    let days = match days_since_epoch(f.year, f.month, f.day) {
        Some(days) => days,
        None => return None,
    };
    Some(days * 86400 + f.hour as i64 * 3600 + f.minute as i64 * 60 + f.second as i64)
}

/// The epoch is day 0.
pub proof fn lemma_epoch_is_day_zero()
    ensures
        spec_days_since_epoch(1970, 1, 1) == Some(0int),
{
}

/// The next day of a month is one day later.
pub proof fn lemma_next_day(y: int, m: int, d: int)
    requires
        1 <= m <= 12,
        1 <= d < 31,
    ensures
        civil_days(y, m, d + 1) == civil_days(y, m, d) + 1,
{
}

/// A Gregorian leap year.
pub open spec fn is_leap_year(y: int) -> bool {
    (y % 4 == 0 && y % 100 != 0) || y % 400 == 0
}

/// The number of days in month `m` of year `y`.
pub open spec fn days_in_month(y: int, m: int) -> int {
    if m == 2 {
        if is_leap_year(y) {
            29
        } else {
            28
        }
    } else if m == 4 || m == 6 || m == 9 || m == 11 {
        30
    } else {
        31
    }
}

/// `y`-`m`-`d` is a real calendar date.
pub open spec fn is_real_date(y: int, m: int, d: int) -> bool {
    1 <= m <= 12 && 1 <= d <= days_in_month(y, m)
}

/// The calendar date after `y`-`m`-`d`.
pub open spec fn next_date(y: int, m: int, d: int) -> (int, int, int) {
    if d < days_in_month(y, m) {
        (y, m, d + 1)
    } else if m < 12 {
        (y, m + 1, 1)
    } else {
        (y + 1, 1, 1)
    }
}

proof fn lemma_leap_steps(y: int)
    ensures
        y / 4 - (y - 1) / 4 == (if y % 4 == 0 { 1int } else { 0int }),
        y / 100 - (y - 1) / 100 == (if y % 100 == 0 { 1int } else { 0int }),
        y / 400 - (y - 1) / 400 == (if y % 400 == 0 { 1int } else { 0int }),
{
    assert(y / 4 - (y - 1) / 4 == (if y % 4 == 0 { 1int } else { 0int })) by (nonlinear_arith);
    assert(y / 100 - (y - 1) / 100 == (if y % 100 == 0 { 1int } else { 0int })) by (nonlinear_arith);
    assert(y / 400 - (y - 1) / 400 == (if y % 400 == 0 { 1int } else { 0int })) by (nonlinear_arith);
}

/// The day after a real date is one day later, also across the end of a month
/// or a year; so consecutive dates have consecutive day counts.
pub proof fn lemma_next_date(y: int, m: int, d: int)
    requires
        is_real_date(y, m, d),
    ensures
        is_real_date(next_date(y, m, d).0, next_date(y, m, d).1, next_date(y, m, d).2),
        spec_days_since_epoch(next_date(y, m, d).0, next_date(y, m, d).1, next_date(y, m, d).2)
            == Some(civil_days(y, m, d) + 1),
{
    if d < days_in_month(y, m) {
        lemma_next_day(y, m, d);
    } else if m == 2 {
        lemma_leap_steps(y);
        assert(y % 400 == 0 ==> y % 100 == 0) by (nonlinear_arith);
        assert(y % 100 == 0 ==> y % 4 == 0) by (nonlinear_arith);
    }
}

/// The Gregorian calendar repeats every 400 years, which last 146097 days.
pub proof fn lemma_four_centuries(y: int, m: int, d: int)
    ensures
        civil_days(y + 400, m, d) == civil_days(y, m, d) + 146097,
{
    let ya = if m <= 2 { y - 1 } else { y };
    assert((ya + 400) / 4 == ya / 4 + 100) by (nonlinear_arith);
    assert((ya + 400) / 100 == ya / 100 + 4) by (nonlinear_arith);
    assert((ya + 400) / 400 == ya / 400 + 1) by (nonlinear_arith);
}

/// The timestamp text `ys-ms-dsThs:mis:ss`.
pub open spec fn iso_text(
    ys: Seq<char>,
    ms: Seq<char>,
    ds: Seq<char>,
    hs: Seq<char>,
    mis: Seq<char>,
    ss: Seq<char>,
) -> Seq<char> {
    ys + seq!['-'] + ms + seq!['-'] + ds + seq!['T'] + hs + seq![':'] + mis + seq![':'] + ss
}

proof fn lemma_no_char(p: Seq<char>, c: char)
    requires
        forall|j: int| 0 <= j < p.len() ==> p[j] != c,
    ensures
        upto_char(p, c) == p,
        after_char(p, c) is None,
{
    lemma_find_char(p, c);
}

proof fn lemma_split_at(p: Seq<char>, c: char, q: Seq<char>)
    requires
        forall|j: int| 0 <= j < p.len() ==> p[j] != c,
    ensures
        upto_char(p + seq![c] + q, c) == p,
        after_char(p + seq![c] + q, c) == Some(q),
{
    let a = p + seq![c] + q;
    assert forall|j: int| 0 <= j < p.len() implies a[j] != c by {
        assert(a[j] == p[j]);
    }
    lemma_find_char_at(a, c, p.len() as int);
    assert(a.take(p.len() as int) == p);
    assert(a.skip(p.len() as int + 1) == q);
}

/// A timestamp written with zero-padded fields, as
/// `format!("{:04}-{:02}-{:02}T{:02}:{:02}:{:02}", ..)` writes one, reads back as
/// its day count times 86400 plus the time of day (`None` for a month outside
/// 1..=12 or a day outside 1..=31); a trailing `Z`, or a `.` and anything after
/// it, changes nothing.
pub proof fn lemma_padded_iso_reads_back(y: nat, mo: nat, d: nat, h: nat, mi: nat, se: nat, frac: Seq<char>)
    requires
        y <= i32::MAX,
        mo <= u32::MAX,
        d <= u32::MAX,
        h <= u32::MAX,
        mi <= u32::MAX,
        se <= u32::MAX,
    ensures
        ({
            let t = iso_text(
                zero_padded(y, 4),
                zero_padded(mo, 2),
                zero_padded(d, 2),
                zero_padded(h, 2),
                zero_padded(mi, 2),
                zero_padded(se, 2),
            );
            &&& spec_parse_iso_utc(t) == match spec_days_since_epoch(y as int, mo as int, d as int) {
                Some(days) => Some(days * 86400 + h * 3600 + mi * 60 + se),
                None => None,
            }
            &&& spec_parse_iso_utc(t + seq!['Z']) == spec_parse_iso_utc(t)
            &&& spec_parse_iso_utc(t + seq!['.'] + frac) == spec_parse_iso_utc(t)
        }),
{
    let ys = zero_padded(y, 4);
    let ms = zero_padded(mo, 2);
    let ds = zero_padded(d, 2);
    let hs = zero_padded(h, 2);
    let mis = zero_padded(mi, 2);
    let ss = zero_padded(se, 2);
    lemma_zero_padded(y, 4);
    lemma_zero_padded(mo, 2);
    lemma_zero_padded(d, 2);
    lemma_zero_padded(h, 2);
    lemma_zero_padded(mi, 2);
    lemma_zero_padded(se, 2);
    let date = ys + seq!['-'] + ms + seq!['-'] + ds;
    let time = hs + seq![':'] + mis + seq![':'] + ss;
    let t = iso_text(ys, ms, ds, hs, mis, ss);
    assert(t == date + seq!['T'] + time);
    assert forall|j: int| 0 <= j < t.len() implies t[j] != '.' && t[j] != 'Z' by {
        let a = ys.len() as int;
        let b = a + 1 + ms.len();
        let c = b + 1 + ds.len();
        let e = c + 1 + hs.len();
        let f = e + 1 + mis.len();
        if j < a {
            assert(t[j] == ys[j]);
            assert(is_digit(ys[j]));
        } else if j == a || j == b || j == c || j == e || j == f {
        } else if j < b {
            assert(t[j] == ms[j - a - 1]);
            assert(is_digit(ms[j - a - 1]));
        } else if j < c {
            assert(t[j] == ds[j - b - 1]);
            assert(is_digit(ds[j - b - 1]));
        } else if j < e {
            assert(t[j] == hs[j - c - 1]);
            assert(is_digit(hs[j - c - 1]));
        } else if j < f {
            assert(t[j] == mis[j - e - 1]);
            assert(is_digit(mis[j - e - 1]));
        } else {
            assert(t[j] == ss[j - f - 1]);
            assert(is_digit(ss[j - f - 1]));
        }
    }
    lemma_no_char(t, '.');
    assert(t.last() == ss.last());
    assert(is_digit(ss[ss.len() - 1]));
    assert(trim_end_z(t) == t);
    assert forall|j: int| 0 <= j < date.len() implies date[j] != 'T' by {
        assert(date[j] == t[j]);
    }
    lemma_find_char_at(t, 'T', date.len() as int);
    assert(t.take(date.len() as int) == date);
    assert(t.skip(date.len() as int + 1) == time);
    assert forall|j: int| 0 <= j < ys.len() implies ys[j] != '-' by { assert(is_digit(ys[j])); }
    assert forall|j: int| 0 <= j < ms.len() implies ms[j] != '-' by { assert(is_digit(ms[j])); }
    assert forall|j: int| 0 <= j < ds.len() implies ds[j] != '-' by { assert(is_digit(ds[j])); }
    assert forall|j: int| 0 <= j < hs.len() implies hs[j] != ':' by { assert(is_digit(hs[j])); }
    assert forall|j: int| 0 <= j < mis.len() implies mis[j] != ':' by { assert(is_digit(mis[j])); }
    assert forall|j: int| 0 <= j < ss.len() implies ss[j] != ':' by { assert(is_digit(ss[j])); }
    let dq = ms + seq!['-'] + ds;
    assert(date == ys + seq!['-'] + dq);
    lemma_split_at(ys, '-', dq);
    lemma_split_at(ms, '-', ds);
    lemma_no_char(ds, '-');
    let tq = mis + seq![':'] + ss;
    assert(time == hs + seq![':'] + tq);
    lemma_split_at(hs, ':', tq);
    lemma_split_at(mis, ':', ss);
    lemma_no_char(ss, ':');
    assert(piece(date, '-', 0) == Some(ys));
    assert(piece(ds, '-', 0) == Some(ds));
    assert(piece(dq, '-', 0) == Some(ms));
    assert(piece(dq, '-', 1) == Some(ds));
    assert(piece(date, '-', 1) == Some(ms));
    assert(piece(date, '-', 2) == Some(ds));
    assert(piece(time, ':', 0) == Some(hs));
    assert(piece(ss, ':', 0) == Some(ss));
    assert(piece(tq, ':', 0) == Some(mis));
    assert(piece(tq, ':', 1) == Some(ss));
    assert(piece(time, ':', 1) == Some(mis));
    assert(piece(time, ':', 2) == Some(ss));
    assert(is_digit(ys[0]));
    assert(spec_parse_i32(ys) == Some(y as int));
    assert(is_digit(ms[0]));
    assert(spec_parse_u32(ms) == Some(mo as int));
    assert(is_digit(ds[0]));
    assert(spec_parse_u32(ds) == Some(d as int));
    assert(is_digit(hs[0]));
    assert(spec_parse_u32(hs) == Some(h as int));
    assert(is_digit(mis[0]));
    assert(spec_parse_u32(mis) == Some(mi as int));
    assert(is_digit(ss[0]));
    assert(spec_parse_u32(ss) == Some(se as int));
    assert(spec_iso_fields(t) == Some((y as int, mo as int, d as int, h as int, mi as int, se as int)));
    lemma_fraction_and_zone_ignored(t, frac);
}

/// A timestamp without a `.` reads the same with a fractional part appended, and
/// the same with a `Z` appended: fractions of a second and the UTC marker are
/// ignored.
pub proof fn lemma_fraction_and_zone_ignored(s: Seq<char>, frac: Seq<char>)
    requires
        forall|i: int| 0 <= i < s.len() ==> s[i] != '.',
    ensures
        spec_parse_iso_utc(s + seq!['.'] + frac) == spec_parse_iso_utc(s),
        spec_parse_iso_utc(s + seq!['Z']) == spec_parse_iso_utc(s),
{
    let a = s + seq!['.'] + frac;
    assert(a[s.len() as int] == '.');
    assert forall|j: int| 0 <= j < s.len() implies a[j] != '.' by {
        assert(a[j] == s[j]);
    }
    lemma_find_char_at(a, '.', s.len() as int);
    assert(a.take(s.len() as int) == s);
    lemma_find_char(s, '.');
    let z = s + seq!['Z'];
    assert forall|j: int| 0 <= j < z.len() implies z[j] != '.' by {
        if j < s.len() {
            assert(z[j] == s[j]);
        }
    }
    lemma_find_char(z, '.');
    assert(z.drop_last() == s);
}

} // verus!
