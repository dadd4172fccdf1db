//! Merging paginated GPS track pages into one time-ordered track per participant.
//!
//! Upstream serves one 24-hour window of points per page; pages arrive newest
//! first. Merging walks them oldest first, groups the points by participant,
//! orders each participant's points by timestamp (stably) and drops points that
//! repeat the timestamp of the point kept just before them, which removes the
//! overlap at page boundaries.
use vstd::prelude::*;

verus! {

broadcast use vstd::seq_lib::group_seq_properties;

/// One GPS point of a track. `time` is an order-preserving integer image of the
/// point's timestamp (absent when the point carries no numeric timestamp; such a
/// point is ordered as if its timestamp were the one whose image is 0). `data` is
/// the point itself, carried through unchanged.
pub struct TrackPoint {
    pub time: Option<i64>,
    pub data: String,
}

/// The key by which points are ordered.
pub open spec fn time_key(p: TrackPoint) -> int {
    match p.time {
        Some(t) => t as int,
        None => 0,
    }
}

/// `s` is ordered by time key.
pub open spec fn time_sorted(s: Seq<TrackPoint>) -> bool {
    forall|i: int, j: int| 0 <= i <= j < s.len() ==> time_key(s[i]) <= time_key(s[j])
}

/// The predicate "has time key `k`".
pub open spec fn key_is(k: int) -> spec_fn(TrackPoint) -> bool {
    |p: TrackPoint| time_key(p) == k
}

/// The points of `s` whose time key is `k`, in their order in `s`.
pub open spec fn with_key(s: Seq<TrackPoint>, k: int) -> Seq<TrackPoint> {
    s.filter(key_is(k))
}

/// `r` is `s` stably sorted by time key: ordered by key, and for every key the
/// points that carry it come in the same order as in `s`.
pub open spec fn is_time_sort_of(r: Seq<TrackPoint>, s: Seq<TrackPoint>) -> bool {
    &&& time_sorted(r)
    &&& forall|k: int| #[trigger] with_key(r, k) == with_key(s, k)
}

/// The stable sort of `s` by time key (see `lemma_time_sort_unique`: there is at
/// most one).
pub open spec fn time_sort(s: Seq<TrackPoint>) -> Seq<TrackPoint> {
    choose|t: Seq<TrackPoint>| is_time_sort_of(t, s)
}

proof fn lemma_key_present(s: Seq<TrackPoint>, i: int)
    requires
        0 <= i < s.len(),
    ensures
        with_key(s, time_key(s[i])).len() > 0,
{
    s.lemma_filter_contains(key_is(time_key(s[i])), i);
}

proof fn lemma_key_member(s: Seq<TrackPoint>, k: int)
    requires
        with_key(s, k).len() > 0,
    ensures
        exists|i: int| 0 <= i < s.len() && time_key(#[trigger] s[i]) == k,
{
    let f = key_is(k);
    s.lemma_filter_pred(f, 0);
    assert(s.filter(f).contains(s.filter(f)[0]));
    s.lemma_filter_contains_rev(f, s.filter(f)[0]);
}

/// Two sequences ordered by time key that agree, key by key, on which points carry
/// the key and in what order, are equal.
proof fn lemma_sorted_by_key_unique(a: Seq<TrackPoint>, b: Seq<TrackPoint>)
    requires
        time_sorted(a),
        time_sorted(b),
        forall|k: int| #[trigger] with_key(a, k) == with_key(b, k),
    ensures
        a == b,
    decreases a.len() + b.len(),
{
    if a.len() == 0 && b.len() == 0 {
        assert(a =~= b);
    } else if a.len() == 0 {
        lemma_key_present(b, 0);
        assert(with_key(a, time_key(b[0])).len() == 0) by {
            reveal(Seq::filter);
        }
    } else if b.len() == 0 {
        lemma_key_present(a, 0);
        assert(with_key(b, time_key(a[0])).len() == 0) by {
            reveal(Seq::filter);
        }
    } else {
        let ka = time_key(a[0]);
        let kb = time_key(b[0]);
        lemma_key_present(a, 0);
        lemma_key_present(b, 0);
        assert(with_key(a, kb) == with_key(b, kb));
        assert(with_key(b, ka) == with_key(a, ka));
        lemma_key_member(b, ka);
        lemma_key_member(a, kb);
        assert(ka == kb);
        let a1 = a.drop_first();
        let b1 = b.drop_first();
        assert(a == seq![a[0]] + a1);
        assert(b == seq![b[0]] + b1);
        assert forall|k: int| #[trigger] with_key(a1, k) == with_key(b1, k) by {
            a1.lemma_filter_prepend(a[0], key_is(k));
            b1.lemma_filter_prepend(b[0], key_is(k));
            assert(with_key(a, k) == with_key(b, k));
            if k == ka {
                assert((seq![a[0]] + with_key(a1, k))[0] == a[0]);
                assert((seq![b[0]] + with_key(b1, k))[0] == b[0]);
                assert(with_key(a1, k) == (seq![a[0]] + with_key(a1, k)).drop_first());
                assert(with_key(b1, k) == (seq![b[0]] + with_key(b1, k)).drop_first());
            } else {
                assert(Seq::<TrackPoint>::empty() + with_key(a1, k) == with_key(a1, k));
                assert(Seq::<TrackPoint>::empty() + with_key(b1, k) == with_key(b1, k));
            }
        }
        a1.lemma_filter_prepend(a[0], key_is(ka));
        b1.lemma_filter_prepend(b[0], key_is(ka));
        assert(with_key(a, ka) == with_key(b, ka));
        assert((seq![a[0]] + with_key(a1, ka))[0] == a[0]);
        assert((seq![b[0]] + with_key(b1, ka))[0] == b[0]);
        lemma_sorted_by_key_unique(a1, b1);
    }
}

/// A sequence has at most one stable sort by time key.
pub proof fn lemma_time_sort_unique(a: Seq<TrackPoint>, b: Seq<TrackPoint>, s: Seq<TrackPoint>)
    requires
        is_time_sort_of(a, s),
        is_time_sort_of(b, s),
    ensures
        a == b,
{
    assert forall|k: int| #[trigger] with_key(a, k) == with_key(b, k) by {
        assert(with_key(a, k) == with_key(s, k));
        assert(with_key(b, k) == with_key(s, k));
    }
    lemma_sorted_by_key_unique(a, b);
}

/// Whenever `t` is a stable sort of `s`, it is the one `time_sort` names.
pub proof fn lemma_time_sort_is(t: Seq<TrackPoint>, s: Seq<TrackPoint>)
    requires
        is_time_sort_of(t, s),
    ensures
        time_sort(s) == t,
        is_time_sort_of(time_sort(s), s),
{
    lemma_time_sort_unique(time_sort(s), t, s);
}

/// A point repeats its predecessor when both carry the same timestamp.
pub open spec fn same_time(a: TrackPoint, b: TrackPoint) -> bool {
    a.time is Some && a.time == b.time
}

/// `s` with every point dropped that repeats the timestamp of the last point kept
/// before it.
pub open spec fn dedup_times(s: Seq<TrackPoint>) -> Seq<TrackPoint>
    decreases s.len(),
{
    if s.len() == 0 {
        s
    } else {
        let d = dedup_times(s.drop_last());
        if d.len() > 0 && same_time(s.last(), d.last()) {
            d
        } else {
            d.push(s.last())
        }
    }
}

proof fn lemma_dedup_members(s: Seq<TrackPoint>)
    ensures
        forall|i: int| 0 <= i < dedup_times(s).len() ==> s.contains(#[trigger] dedup_times(s)[i]),
        s.len() > 0 ==> dedup_times(s).len() > 0 && time_key(dedup_times(s).last()) == time_key(
            s.last(),
        ),
    decreases s.len(),
{
    if s.len() > 0 {
        let s1 = s.drop_last();
        let d1 = dedup_times(s1);
        let d = dedup_times(s);
        lemma_dedup_members(s1);
        assert forall|i: int| 0 <= i < d.len() implies s.contains(#[trigger] d[i]) by {
            if i < d1.len() {
                assert(d[i] == d1[i]);
                let m = choose|m: int| 0 <= m < s1.len() && s1[m] == d1[i];
                assert(s[m] == s1[m]);
            } else {
                assert(s[s.len() - 1] == s.last());
            }
        }
    }
}

proof fn lemma_dedup_sorted(s: Seq<TrackPoint>)
    requires
        time_sorted(s),
    ensures
        time_sorted(dedup_times(s)),
    decreases s.len(),
{
    if s.len() > 0 {
        let s1 = s.drop_last();
        let d1 = dedup_times(s1);
        let d = dedup_times(s);
        assert(time_sorted(s1));
        lemma_dedup_sorted(s1);
        lemma_dedup_members(s1);
        assert forall|i: int, j: int| 0 <= i <= j < d.len() implies time_key(d[i]) <= time_key(d[j]) by {
            if i < d1.len() {
                assert(d[i] == d1[i]);
                if j < d1.len() {
                    assert(d[j] == d1[j]);
                } else {
                    assert(s1.contains(d1[i]));
                    let m = choose|m: int| 0 <= m < s1.len() && s1[m] == d1[i];
                    assert(s[m] == s1[m]);
                    assert(time_key(s[m]) <= time_key(s[s.len() - 1]));
                }
            }
        }
    }
}

proof fn lemma_dedup_no_repeat(s: Seq<TrackPoint>)
    ensures
        forall|i: int|
            0 <= i < dedup_times(s).len() - 1 ==> !same_time(
                #[trigger] dedup_times(s)[i + 1],
                dedup_times(s)[i],
            ),
    decreases s.len(),
{
    if s.len() > 0 {
        let s1 = s.drop_last();
        let d1 = dedup_times(s1);
        let d = dedup_times(s);
        lemma_dedup_no_repeat(s1);
        assert forall|i: int| 0 <= i < d.len() - 1 implies !same_time(#[trigger] d[i + 1], d[i]) by {
            assert(d[i] == d1[i]);
            if i + 1 < d1.len() {
                assert(d[i + 1] == d1[i + 1]);
            }
        }
    }
}

proof fn lemma_dedup_keeps(s: Seq<TrackPoint>)
    ensures
        forall|i: int|
            0 <= i < s.len() && (#[trigger] s[i]).time is Some ==> exists|j: int|
                0 <= j < dedup_times(s).len() && (#[trigger] dedup_times(s)[j]).time == s[i].time,
        forall|i: int|
            0 <= i < s.len() && (#[trigger] s[i]).time is None ==> dedup_times(s).contains(s[i]),
    decreases s.len(),
{
    if s.len() > 0 {
        let s1 = s.drop_last();
        let d1 = dedup_times(s1);
        let d = dedup_times(s);
        lemma_dedup_keeps(s1);
        assert forall|i: int| 0 <= i < s.len() && (#[trigger] s[i]).time is Some implies exists|j: int|
            0 <= j < d.len() && (#[trigger] d[j]).time == s[i].time by {
            if i < s1.len() {
                assert(s[i] == s1[i]);
                let j = choose|j: int| 0 <= j < d1.len() && (#[trigger] d1[j]).time == s1[i].time;
                assert(d[j] == d1[j]);
            } else if d.len() == d1.len() {
                assert(d[d.len() - 1] == d1.last());
            } else {
                assert(d[d.len() - 1] == s.last());
            }
        }
        assert forall|i: int| 0 <= i < s.len() && (#[trigger] s[i]).time is None implies d.contains(
            s[i],
        ) by {
            if i < s1.len() {
                assert(s[i] == s1[i]);
                let j = choose|j: int| 0 <= j < d1.len() && d1[j] == s1[i];
                assert(d[j] == d1[j]);
            } else {
                assert(d[d.len() - 1] == s.last());
            }
        }
    }
}

/// A stable sort keeps exactly the points it sorts.
pub proof fn lemma_time_sort_members(t: Seq<TrackPoint>, s: Seq<TrackPoint>)
    requires
        is_time_sort_of(t, s),
    ensures
        forall|i: int| 0 <= i < s.len() ==> t.contains(#[trigger] s[i]),
        forall|i: int| 0 <= i < t.len() ==> s.contains(#[trigger] t[i]),
{
    assert forall|i: int| 0 <= i < s.len() implies t.contains(#[trigger] s[i]) by {
        let f = key_is(time_key(s[i]));
        s.lemma_filter_contains(f, i);
        assert(with_key(t, time_key(s[i])) == with_key(s, time_key(s[i])));
        t.lemma_filter_contains_rev(f, s[i]);
    }
    assert forall|i: int| 0 <= i < t.len() implies s.contains(#[trigger] t[i]) by {
        let f = key_is(time_key(t[i]));
        t.lemma_filter_contains(f, i);
        assert(with_key(t, time_key(t[i])) == with_key(s, time_key(t[i])));
        s.lemma_filter_contains_rev(f, t[i]);
    }
}

fn key_of(p: &TrackPoint) -> (k: i64)
    ensures
        k == time_key(*p),
{
    match p.time {
        Some(t) => t,
        None => 0,
    }
}

proof fn lemma_no_key(s: Seq<TrackPoint>, k: int)
    requires
        forall|i: int| 0 <= i < s.len() ==> time_key(#[trigger] s[i]) != k,
    ensures
        with_key(s, k) == Seq::<TrackPoint>::empty(),
{
    s.lemma_all_neg_filter_empty(key_is(k));
}

/// Inserting `x` into the time-ordered `t` at `p`, after every point whose key is
/// not greater than its own and before every point whose key is, sorts `t.push(x)`.
proof fn lemma_insert_at(t: Seq<TrackPoint>, x: TrackPoint, p: int)
    requires
        time_sorted(t),
        0 <= p <= t.len(),
        forall|i: int| 0 <= i < p ==> time_key(#[trigger] t[i]) <= time_key(x),
        forall|i: int| p <= i < t.len() ==> time_key(#[trigger] t[i]) > time_key(x),
    ensures
        is_time_sort_of(t.insert(p, x), t.push(x)),
{
    let kx = time_key(x);
    let pre = t.subrange(0, p);
    let post = t.subrange(p, t.len() as int);
    let r = t.insert(p, x);
    assert(t == pre + post);
    assert(r == pre + seq![x] + post);
    assert forall|i: int, j: int| 0 <= i <= j < r.len() implies time_key(r[i]) <= time_key(r[j]) by {
        if i < p && j > p {
            assert(time_key(t[i]) <= time_key(t[j - 1]));
        }
    }
    assert forall|k: int| #[trigger] with_key(r, k) == with_key(t.push(x), k) by {
        let f = key_is(k);
        Seq::filter_distributes_over_add(pre + seq![x], post, f);
        Seq::filter_distributes_over_add(pre, seq![x], f);
        Seq::filter_distributes_over_add(pre, post, f);
        t.lemma_filter_push(x, f);
        assert(seq![x].filter(f) == (if f(x) {
            seq![x]
        } else {
            Seq::<TrackPoint>::empty()
        })) by {
            reveal_with_fuel(Seq::filter, 2);
        }
        assert(r.filter(f) == pre.filter(f) + seq![x].filter(f) + post.filter(f));
        assert(t.filter(f) == pre.filter(f) + post.filter(f));
        if k == kx {
            lemma_no_key(post, k);
            assert(with_key(r, k) == pre.filter(f) + seq![x]);
        } else {
            assert(with_key(r, k) == pre.filter(f) + post.filter(f));
        }
    }
}

/// Where `x`, of key `k`, goes in the time-ordered `t`: after the last point whose
/// key is not greater than `k`.
pub open spec fn insert_pos(t: Seq<TrackPoint>, k: int) -> int
    decreases t.len(),
{
    if t.len() == 0 {
        0
    } else if time_key(t.last()) > k {
        insert_pos(t.drop_last(), k)
    } else {
        t.len() as int
    }
}

proof fn lemma_insert_pos(t: Seq<TrackPoint>, k: int)
    requires
        time_sorted(t),
    ensures
        0 <= insert_pos(t, k) <= t.len(),
        forall|i: int| 0 <= i < insert_pos(t, k) ==> time_key(#[trigger] t[i]) <= k,
        forall|i: int| insert_pos(t, k) <= i < t.len() ==> time_key(#[trigger] t[i]) > k,
    decreases t.len(),
{
    if t.len() > 0 {
        let d = t.drop_last();
        assert(time_sorted(d));
        lemma_insert_pos(d, k);
        if time_key(t.last()) <= k {
            assert forall|i: int| 0 <= i < t.len() implies time_key(#[trigger] t[i]) <= k by {
                assert(time_key(t[i]) <= time_key(t[t.len() - 1]));
            }
        } else {
            assert forall|i: int| 0 <= i < insert_pos(t, k) implies time_key(#[trigger] t[i]) <= k by {
                assert(t[i] == d[i]);
            }
            assert forall|i: int| insert_pos(t, k) <= i < t.len() implies time_key(#[trigger] t[i]) > k by {
                if i < t.len() - 1 {
                    assert(t[i] == d[i]);
                }
            }
        }
    }
}

/// Every sequence of points has a stable sort by time key.
pub proof fn lemma_time_sort_exists(s: Seq<TrackPoint>)
    ensures
        is_time_sort_of(time_sort(s), s),
    decreases s.len(),
{
    if s.len() == 0 {
        lemma_time_sort_is(s, s);
    } else {
        let d = s.drop_last();
        let x = s.last();
        lemma_time_sort_exists(d);
        let t = time_sort(d);
        lemma_insert_pos(t, time_key(x));
        let p = insert_pos(t, time_key(x));
        lemma_insert_at(t, x, p);
        let r = t.insert(p, x);
        assert(s == d.push(x));
        assert forall|k: int| #[trigger] with_key(r, k) == with_key(s, k) by {
            assert(with_key(r, k) == with_key(t.push(x), k));
            assert(with_key(t, k) == with_key(d, k));
            t.lemma_filter_push(x, key_is(k));
            d.lemma_filter_push(x, key_is(k));
        }
        lemma_time_sort_is(r, s);
    }
}

/// Inserts `x` into the time-ordered `r` after every point whose key is not
/// greater than its own.
fn insert_by_time(r: &mut Vec<TrackPoint>, x: TrackPoint)
    requires
        time_sorted(old(r)@),
    ensures
        is_time_sort_of(final(r)@, old(r)@.push(x)),
{
    let kx = key_of(&x);
    let mut p = r.len();
    while p > 0 && key_of(&r[p - 1]) > kx
        invariant
            p <= r.len(),
            time_sorted(r@),
            forall|i: int| p <= i < r.len() ==> time_key(#[trigger] r@[i]) > kx,
        decreases p,
    {
        p = p - 1;
    }
    proof {
        lemma_insert_at(r@, x, p as int);
    }
    r.insert(p, x);
}

/// `points` stably sorted by time key.
pub fn sort_by_time(points: Vec<TrackPoint>) -> (r: Vec<TrackPoint>)
    ensures
        is_time_sort_of(r@, points@),
{
    let ghost s = points@;
    let mut r: Vec<TrackPoint> = Vec::new();
    for x in it: points.into_iter()
        invariant
            it.seq() == s,
            is_time_sort_of(r@, s.take(it.index() as int)),
    {
        let ghost before = r@;
        insert_by_time(&mut r, x);
        proof {
            let i = it.index() as int;
            assert(x == s[i]);
            assert(s.take(i + 1) == s.take(i).push(s[i]));
            assert forall|k: int| #[trigger] with_key(r@, k) == with_key(s.take(i + 1), k) by {
                assert(with_key(before, k) == with_key(s.take(i), k));
                before.lemma_filter_push(x, key_is(k));
                s.take(i).lemma_filter_push(x, key_is(k));
            }
        }
    }
    assert(s.take(s.len() as int) == s);
    r
}

/// Whether `p` repeats the timestamp of `q`.
fn repeats_time(p: &TrackPoint, q: &TrackPoint) -> (b: bool)
    ensures
        b == same_time(*p, *q),
{
    match (p.time, q.time) {
        (Some(a), Some(b)) => a == b,
        _ => false,
    }
}

/// `points` without the points that repeat the timestamp of the last point kept.
pub fn dedup_by_time(points: Vec<TrackPoint>) -> (r: Vec<TrackPoint>)
    ensures
        r@ == dedup_times(points@),
{
    let ghost s = points@;
    let mut r: Vec<TrackPoint> = Vec::new();
    for x in it: points.into_iter()
        invariant
            it.seq() == s,
            r@ == dedup_times(s.take(it.index() as int)),
    {
        let ghost i = it.index() as int;
        proof {
            assert(s.take(i + 1).drop_last() == s.take(i));
        }
        let n = r.len();
        if n > 0 && repeats_time(&x, &r[n - 1]) {
        } else {
            r.push(x);
        }
    }
    assert(s.take(s.len() as int) == s);
    r
}

/// One participant's points on one page, as upstream sends them: either field
/// may be missing.
pub struct TrackEntry {
    pub participant_id: Option<String>,
    pub track: Option<Vec<TrackPoint>>,
}

/// One page of tracks; `tracks` is missing when the page holds no track list.
pub struct TrackPage {
    pub tracks: Option<Vec<TrackEntry>>,
}

/// The merged track of one participant.
pub struct MergedTrack {
    pub participant_id: String,
    pub track: Vec<TrackPoint>,
}

/// What a sequence of entries contributes, in order: the participant id and the
/// points of every entry that has both.
pub open spec fn entry_contributions(es: Seq<TrackEntry>) -> Seq<(Seq<char>, Seq<TrackPoint>)>
    decreases es.len(),
{
    if es.len() == 0 {
        Seq::empty()
    } else {
        let rest = entry_contributions(es.drop_last());
        match (es.last().participant_id, es.last().track) {
            (Some(id), Some(t)) => rest.push((id@, t@)),
            _ => rest,
        }
    }
}

/// What one page contributes.
pub open spec fn page_contributions(page: TrackPage) -> Seq<(Seq<char>, Seq<TrackPoint>)> {
    match page.tracks {
        Some(es) => entry_contributions(es@),
        None => Seq::empty(),
    }
}

/// What the pages contribute, walked from the last (oldest) page to the first.
pub open spec fn contributions(pages: Seq<TrackPage>) -> Seq<(Seq<char>, Seq<TrackPoint>)>
    decreases pages.len(),
{
    if pages.len() == 0 {
        Seq::empty()
    } else {
        contributions(pages.drop_first()) + page_contributions(pages[0])
    }
}

/// The points contributed for participant `pid`, in contribution order.
pub open spec fn points_for(cs: Seq<(Seq<char>, Seq<TrackPoint>)>, pid: Seq<char>) -> Seq<
    TrackPoint,
>
    decreases cs.len(),
{
    if cs.len() == 0 {
        Seq::empty()
    } else {
        points_for(cs.drop_last(), pid) + if cs.last().0 == pid {
            cs.last().1
        } else {
            Seq::empty()
        }
    }
}

/// Some contribution is for participant `pid`.
pub open spec fn has_contribution(cs: Seq<(Seq<char>, Seq<TrackPoint>)>, pid: Seq<char>) -> bool {
    exists|i: int| 0 <= i < cs.len() && (#[trigger] cs[i]).0 == pid
}

/// The participants of `slots` are pairwise distinct.
pub open spec fn distinct_ids(slots: Seq<MergedTrack>) -> bool {
    forall|k: int, l: int|
        0 <= k < slots.len() && 0 <= l < slots.len() && k != l ==> (#[trigger] slots[k]).participant_id@
            != (#[trigger] slots[l]).participant_id@
}

/// `slots` holds one slot per participant that has a contribution in `cs`, and
/// each slot holds the points contributed for its participant.
pub open spec fn gathered(slots: Seq<MergedTrack>, cs: Seq<(Seq<char>, Seq<TrackPoint>)>) -> bool {
    &&& distinct_ids(slots)
    &&& forall|k: int|
        0 <= k < slots.len() ==> (#[trigger] slots[k]).track@ == points_for(
            cs,
            slots[k].participant_id@,
        )
    &&& forall|pid: Seq<char>|
        #[trigger] has_contribution(cs, pid) <==> exists|k: int|
            0 <= k < slots.len() && (#[trigger] slots[k]).participant_id@ == pid
}

proof fn lemma_points_for_absent(cs: Seq<(Seq<char>, Seq<TrackPoint>)>, pid: Seq<char>)
    requires
        !has_contribution(cs, pid),
    ensures
        points_for(cs, pid) == Seq::<TrackPoint>::empty(),
    decreases cs.len(),
{
    if cs.len() > 0 {
        assert(!has_contribution(cs.drop_last(), pid)) by {
            if has_contribution(cs.drop_last(), pid) {
                let i = choose|i: int| 0 <= i < cs.drop_last().len() && (#[trigger] cs.drop_last()[i]).0 == pid;
                assert(cs[i] == cs.drop_last()[i]);
            }
        }
        lemma_points_for_absent(cs.drop_last(), pid);
        assert(cs[cs.len() - 1] == cs.last());
    }
}

proof fn lemma_push_contribution(
    cs: Seq<(Seq<char>, Seq<TrackPoint>)>,
    id: Seq<char>,
    pts: Seq<TrackPoint>,
    pid: Seq<char>,
)
    ensures
        points_for(cs.push((id, pts)), pid) == points_for(cs, pid) + if pid == id {
            pts
        } else {
            Seq::<TrackPoint>::empty()
        },
        has_contribution(cs.push((id, pts)), pid) <==> (has_contribution(cs, pid) || pid == id),
        pid != id ==> points_for(cs.push((id, pts)), pid) == points_for(cs, pid),
{
    let cs2 = cs.push((id, pts));
    assert(cs2.drop_last() == cs);
    if has_contribution(cs, pid) {
        let i = choose|i: int| 0 <= i < cs.len() && (#[trigger] cs[i]).0 == pid;
        assert(cs2[i] == cs[i]);
    }
    if pid == id {
        assert(cs2[cs.len() as int].0 == pid);
    }
    if has_contribution(cs2, pid) && pid != id {
        let i = choose|i: int| 0 <= i < cs2.len() && (#[trigger] cs2[i]).0 == pid;
        assert(cs2[i] == cs[i]);
    }
    if pid != id {
        assert(points_for(cs, pid) + Seq::<TrackPoint>::empty() == points_for(cs, pid));
    }
}

/// A copy of `p`.
fn copy_point(p: &TrackPoint) -> (r: TrackPoint)
    ensures
        r == *p,
{
    TrackPoint { time: p.time, data: p.data.clone() }
}

/// Appends copies of `points` to `track`.
fn append_points(track: &mut Vec<TrackPoint>, points: &Vec<TrackPoint>)
    ensures
        final(track)@ == old(track)@ + points@,
{
    let ghost start = track@;
    for i in 0..points.len()
        invariant
            track@ == start + points@.take(i as int),
    {
        track.push(copy_point(&points[i]));
        proof {
            assert(points@.take(i + 1) == points@.take(i as int).push(points@[i as int]));
        }
    }
    assert(points@.take(points.len() as int) == points@);
}

/// Records the contribution of `points` for participant `id`.
fn add_contribution(
    slots: &mut Vec<MergedTrack>,
    id: &String,
    points: &Vec<TrackPoint>,
    Ghost(cs): Ghost<Seq<(Seq<char>, Seq<TrackPoint>)>>,
)
    requires
        gathered(old(slots)@, cs),
    ensures
        gathered(final(slots)@, cs.push((id@, points@))),
{
    let ghost cs2 = cs.push((id@, points@));
    let ghost old_slots = slots@;
    let n = slots.len();
    let mut k: usize = 0;
    while k < n
        invariant
            n == slots.len(),
            slots@ == old_slots,
            cs2 == cs.push((id@, points@)),
            gathered(old_slots, cs),
            k <= n,
            forall|l: int| 0 <= l < k ==> (#[trigger] slots@[l]).participant_id@ != id@,
        decreases n - k,
    {
        if slots[k].participant_id == *id {
            append_points(&mut slots[k].track, points);
            proof {
                assert(old_slots[k as int].participant_id@ == id@);
                assert(slots@[k as int].participant_id == old_slots[k as int].participant_id);
                assert(slots@[k as int].track@ == old_slots[k as int].track@ + points@);
                assert(slots@.len() == old_slots.len());
                assert(forall|l: int| 0 <= l < n && l != k ==> slots@[l] == old_slots[l]);
                assert forall|l: int| 0 <= l < slots.len() implies (#[trigger] slots@[l]).track@
                    == points_for(cs2, slots@[l].participant_id@) by {
                    lemma_push_contribution(cs, id@, points@, slots@[l].participant_id@);
                    if l != k {
                        assert(old_slots[l].participant_id@ != old_slots[k as int].participant_id@);
                        assert(slots@[l] == old_slots[l]);
                    }
                }
                assert forall|pid: Seq<char>| #[trigger] has_contribution(cs2, pid) <==> exists|l: int|
                    0 <= l < slots.len() && (#[trigger] slots@[l]).participant_id@ == pid by {
                    lemma_push_contribution(cs, id@, points@, pid);
                    if has_contribution(cs2, pid) && !has_contribution(cs, pid) {
                        assert(slots@[k as int].participant_id@ == pid);
                    }
                    if exists|l: int| 0 <= l < slots.len() && (#[trigger] slots@[l]).participant_id@ == pid {
                        let l = choose|l: int| 0 <= l < slots.len() && (#[trigger] slots@[l]).participant_id@ == pid;
                        assert(slots@[l].participant_id@ == old_slots[l].participant_id@);
                    }
                    if has_contribution(cs, pid) {
                        let l = choose|l: int| 0 <= l < old_slots.len() && (#[trigger] old_slots[l]).participant_id@ == pid;
                        assert(slots@[l].participant_id@ == old_slots[l].participant_id@);
                    }
                }
                assert(distinct_ids(slots@)) by {
                    assert forall|a: int, b: int| 0 <= a < slots.len() && 0 <= b < slots.len() && a != b implies
                        (#[trigger] slots@[a]).participant_id@ != (#[trigger] slots@[b]).participant_id@ by {
                        assert(slots@[a].participant_id@ == old_slots[a].participant_id@);
                        assert(slots@[b].participant_id@ == old_slots[b].participant_id@);
                    }
                }
            }
            return;
        }
        k = k + 1;
    }
    assert(!has_contribution(cs, id@)) by {
        if has_contribution(cs, id@) {
            let l = choose|l: int| 0 <= l < old_slots.len() && (#[trigger] old_slots[l]).participant_id@ == id@;
            assert(slots@[l] == old_slots[l]);
        }
    }
    proof {
        lemma_points_for_absent(cs, id@);
    }
    let mut track: Vec<TrackPoint> = Vec::new();
    append_points(&mut track, points);
    slots.push(MergedTrack { participant_id: id.clone(), track });
    proof {
        assert(slots@.drop_last() == old_slots);
        assert forall|l: int| 0 <= l < slots.len() implies (#[trigger] slots@[l]).track@
            == points_for(cs2, slots@[l].participant_id@) by {
            lemma_push_contribution(cs, id@, points@, slots@[l].participant_id@);
            if l < n {
                assert(slots@[l] == old_slots[l]);
                assert(old_slots[l].participant_id@ != id@);
            }
        }
        assert forall|pid: Seq<char>| #[trigger] has_contribution(cs2, pid) <==> exists|l: int|
            0 <= l < slots.len() && (#[trigger] slots@[l]).participant_id@ == pid by {
            lemma_push_contribution(cs, id@, points@, pid);
            if has_contribution(cs, pid) {
                let l = choose|l: int| 0 <= l < old_slots.len() && (#[trigger] old_slots[l]).participant_id@ == pid;
                assert(slots@[l] == old_slots[l]);
            }
            if pid == id@ {
                assert(slots@[n as int].participant_id@ == pid);
            }
            if exists|l: int| 0 <= l < slots.len() && (#[trigger] slots@[l]).participant_id@ == pid {
                let l = choose|l: int| 0 <= l < slots.len() && (#[trigger] slots@[l]).participant_id@ == pid;
                if l < n {
                    assert(slots@[l] == old_slots[l]);
                }
            }
        }
        assert(distinct_ids(slots@)) by {
            assert forall|a: int, b: int| 0 <= a < slots.len() && 0 <= b < slots.len() && a != b implies
                (#[trigger] slots@[a]).participant_id@ != (#[trigger] slots@[b]).participant_id@ by {
                if a < n {
                    assert(slots@[a] == old_slots[a]);
                }
                if b < n {
                    assert(slots@[b] == old_slots[b]);
                }
            }
        }
    }
}

/// `r` is the merge of `pages`: one track per participant that some page lists
/// with both an id and a track, each holding the participant's points stably
/// sorted by time with repeated timestamps dropped.
pub open spec fn is_merge_of(r: Seq<MergedTrack>, pages: Seq<TrackPage>) -> bool {
    merges(r, contributions(pages))
}

/// `r` holds, once per participant with a contribution in `cs`, the participant's
/// contributed points stably sorted by time with repeated timestamps dropped.
pub open spec fn merges(r: Seq<MergedTrack>, cs: Seq<(Seq<char>, Seq<TrackPoint>)>) -> bool {
    &&& distinct_ids(r)
    &&& forall|pid: Seq<char>|
        #[trigger] has_contribution(cs, pid) <==> exists|k: int|
            0 <= k < r.len() && (#[trigger] r[k]).participant_id@ == pid
    &&& forall|k: int|
        0 <= k < r.len() ==> (#[trigger] r[k]).track@ == dedup_times(
            time_sort(points_for(cs, r[k].participant_id@)),
        )
}

proof fn lemma_contributions_step(pages: Seq<TrackPage>, i: int)
    requires
        0 <= i < pages.len(),
    ensures
        contributions(pages.subrange(i, pages.len() as int)) == contributions(
            pages.subrange(i + 1, pages.len() as int),
        ) + page_contributions(pages[i]),
{
    let s = pages.subrange(i, pages.len() as int);
    assert(s.drop_first() == pages.subrange(i + 1, pages.len() as int));
    assert(s[0] == pages[i]);
}

/// Merges paginated track pages (newest first) into one track per participant.
///
/// Pages are walked oldest first; within a page entries are taken in order, and an
/// entry is used only when it has both a participant id and a track. Each
/// participant's points are then stably sorted by time and every point that
/// repeats the timestamp of the point kept before it is dropped. The order of the
/// returned tracks carries no meaning.
pub fn merge_track_pages(pages: &[TrackPage]) -> (r: Vec<MergedTrack>)
    ensures
        is_merge_of(r@, pages@),
{
    let mut slots: Vec<MergedTrack> = Vec::new();
    let n = pages.len();
    let mut i = n;
    while i > 0
        invariant
            n == pages@.len(),
            i <= n,
            gathered(slots@, contributions(pages@.subrange(i as int, n as int))),
        decreases i,
    {
        i = i - 1;
        let ghost done = contributions(pages@.subrange(i + 1, n as int));
        proof {
            lemma_contributions_step(pages@, i as int);
        }
        match &pages[i].tracks {
            None => {
                assert(done + Seq::empty() == done);
            },
            Some(es) => {
                for j in 0..es.len()
                    invariant
                        gathered(slots@, done + entry_contributions(es@.take(j as int))),
                {
                    proof {
                        assert(es@.take(j + 1).drop_last() == es@.take(j as int));
                        assert(es@.take(j + 1).last() == es@[j as int]);
                    }
                    let ghost cs = done + entry_contributions(es@.take(j as int));
                    match (&es[j].participant_id, &es[j].track) {
                        (Some(id), Some(t)) => {
                            add_contribution(&mut slots, id, t, Ghost(cs));
                            assert(cs.push((id@, t@)) == done + entry_contributions(
                                es@.take(j + 1),
                            ));
                        },
                        _ => {},
                    }
                }
                assert(es@.take(es.len() as int) == es@);
            },
        }
    }
    let ghost cs = contributions(pages@);
    assert(pages@.subrange(0, n as int) == pages@);
    let ghost gathered_slots = slots@;
    let mut r: Vec<MergedTrack> = Vec::new();
    let ghost mut sorts: Seq<Seq<TrackPoint>> = Seq::empty();
    for slot in it: slots.into_iter()
        invariant
            it.seq() == gathered_slots,
            gathered(gathered_slots, cs),
            r.len() == it.index(),
            forall|k: int|
                0 <= k < r.len() ==> (#[trigger] r@[k]).participant_id@
                    == gathered_slots[k].participant_id@,
            sorts.len() == r.len(),
            forall|k: int|
                0 <= k < r.len() ==> is_time_sort_of(
                    #[trigger] sorts[k],
                    points_for(cs, r@[k].participant_id@),
                ) && r@[k].track@ == dedup_times(sorts[k]),
    {
        let ghost k = it.index() as int;
        let MergedTrack { participant_id, track } = slot;
        let sorted = sort_by_time(track);
        let ghost t = sorted@;
        let deduped = dedup_by_time(sorted);
        r.push(MergedTrack { participant_id, track: deduped });
        proof {
            sorts = sorts.push(t);
            assert(r@[k].participant_id@ == gathered_slots[k].participant_id@);
            assert(is_time_sort_of(t, points_for(cs, r@[k].participant_id@)));
        }
    }
    proof {
        assert forall|a: int, b: int| 0 <= a < r.len() && 0 <= b < r.len() && a != b implies
            (#[trigger] r@[a]).participant_id@ != (#[trigger] r@[b]).participant_id@ by {
            assert(gathered_slots[a].participant_id@ != gathered_slots[b].participant_id@);
        }
        assert forall|pid: Seq<char>| #[trigger] has_contribution(cs, pid) <==> exists|k: int|
            0 <= k < r.len() && (#[trigger] r@[k]).participant_id@ == pid by {
            if has_contribution(cs, pid) {
                let k = choose|k: int| 0 <= k < gathered_slots.len() && (#[trigger] gathered_slots[k]).participant_id@ == pid;
                assert(r@[k].participant_id@ == pid);
            }
            if exists|k: int| 0 <= k < r.len() && (#[trigger] r@[k]).participant_id@ == pid {
                let k = choose|k: int| 0 <= k < r.len() && (#[trigger] r@[k]).participant_id@ == pid;
                assert(gathered_slots[k].participant_id@ == pid);
            }
        }
        assert forall|k: int| 0 <= k < r.len() implies (#[trigger] r@[k]).track@ == dedup_times(
            time_sort(points_for(cs, r@[k].participant_id@)),
        ) by {
            lemma_time_sort_is(sorts[k], points_for(cs, r@[k].participant_id@));
        }
        assert(merges(r@, cs));
    }
    r
}

/// What the merge promises of each merged track: it is ordered by time; no point
/// repeats the timestamp of the point before it, so a timestamp can occur twice
/// only where it shares its key with points that have no timestamp; it holds only
/// points contributed for its participant; it keeps every timestamp contributed
/// for the participant, and every contributed point that has no timestamp.
pub proof fn lemma_merged_track(r: Seq<MergedTrack>, pages: Seq<TrackPage>, k: int)
    requires
        is_merge_of(r, pages),
        0 <= k < r.len(),
    ensures
        ({
            let pts = points_for(contributions(pages), r[k].participant_id@);
            let tr = r[k].track@;
            &&& time_sorted(tr)
            &&& forall|i: int| 0 <= i < tr.len() - 1 ==> !same_time(#[trigger] tr[i + 1], tr[i])
            &&& forall|i: int, j: int|
                0 <= i < j < tr.len() && same_time(#[trigger] tr[i], #[trigger] tr[j]) ==> time_key(
                    tr[i],
                ) == 0
            &&& forall|i: int| 0 <= i < tr.len() ==> pts.contains(#[trigger] tr[i])
            &&& forall|i: int|
                0 <= i < pts.len() && (#[trigger] pts[i]).time is Some ==> exists|j: int|
                    0 <= j < tr.len() && (#[trigger] tr[j]).time == pts[i].time
            &&& forall|i: int| 0 <= i < pts.len() && (#[trigger] pts[i]).time is None ==> tr.contains(pts[i])
        }),
{
    let pts = points_for(contributions(pages), r[k].participant_id@);
    lemma_sort_dedup_order(pts);
    lemma_sort_dedup_members(pts);
    lemma_sort_dedup_keeps(pts);
    lemma_repeats_only_at_zero(r[k].track@);
}

/// A sequence that is already ordered by time and repeats no timestamp of its
/// predecessor comes out of the stable sort and the dedup unchanged.
proof fn lemma_sort_dedup_fixed(x: Seq<TrackPoint>)
    requires
        time_sorted(x),
        forall|i: int| 0 <= i < x.len() - 1 ==> !same_time(#[trigger] x[i + 1], x[i]),
    ensures
        dedup_times(time_sort(x)) == x,
{
    assert(is_time_sort_of(x, x));
    lemma_time_sort_is(x, x);
    lemma_dedup_fixed(x);
}

proof fn lemma_dedup_fixed(x: Seq<TrackPoint>)
    requires
        forall|i: int| 0 <= i < x.len() - 1 ==> !same_time(#[trigger] x[i + 1], x[i]),
    ensures
        dedup_times(x) == x,
    decreases x.len(),
{
    if x.len() > 0 {
        let y = x.drop_last();
        assert forall|i: int| 0 <= i < y.len() - 1 implies !same_time(#[trigger] y[i + 1], y[i]) by {
            assert(y[i + 1] == x[i + 1]);
            assert(y[i] == x[i]);
        }
        lemma_dedup_fixed(y);
        if y.len() > 0 {
            let i = x.len() - 2;
            assert(!same_time(x[i + 1], x[i]));
        }
        assert(y.push(x.last()) == x);
    }
}

/// The entry `e` lists the merged track `m`: it has `m`'s participant id and
/// points.
pub open spec fn lists_track(e: TrackEntry, m: MergedTrack) -> bool {
    &&& e.participant_id matches Some(id) && id@ == m.participant_id@
    &&& e.track matches Some(t) && t@ == m.track@
}

/// The contributions of a list of entries, each with an id and a track, are the
/// pairs of their ids and tracks.
proof fn lemma_entry_contributions_all(es: Seq<TrackEntry>, r: Seq<MergedTrack>)
    requires
        es.len() == r.len(),
        forall|i: int|
            0 <= i < es.len() ==> lists_track(#[trigger] es[i], r[i]),
    ensures
        entry_contributions(es) == r.map_values(|m: MergedTrack| (m.participant_id@, m.track@)),
    decreases es.len(),
{
    let f = |m: MergedTrack| (m.participant_id@, m.track@);
    if es.len() > 0 {
        let n = es.len() - 1;
        assert(es[n] == es.last());
        lemma_entry_contributions_all(es.drop_last(), r.drop_last());
        assert(r.map_values(f) == r.drop_last().map_values(f).push(f(r[n])));
    } else {
        assert(r.map_values(f) == Seq::<(Seq<char>, Seq<TrackPoint>)>::empty());
    }
}

/// With distinct ids, the points contributed for the id of pair `j` are that
/// pair's points.
proof fn lemma_points_for_distinct(cs: Seq<(Seq<char>, Seq<TrackPoint>)>, j: int)
    requires
        0 <= j < cs.len(),
        forall|a: int, b: int| 0 <= a < cs.len() && 0 <= b < cs.len() && a != b ==> (#[trigger] cs[a]).0
            != (#[trigger] cs[b]).0,
    ensures
        points_for(cs, cs[j].0) == cs[j].1,
    decreases cs.len(),
{
    let d = cs.drop_last();
    let n = cs.len() - 1;
    if j == n {
        assert forall|i: int| 0 <= i < d.len() implies (#[trigger] d[i]).0 != cs[j].0 by {
            assert(d[i] == cs[i]);
        }
        assert(!has_contribution(d, cs[j].0));
        lemma_points_for_absent(d, cs[j].0);
        assert(Seq::<TrackPoint>::empty() + cs[j].1 == cs[j].1);
    } else {
        assert forall|a: int, b: int| 0 <= a < d.len() && 0 <= b < d.len() && a != b implies (
        #[trigger] d[a]).0 != (#[trigger] d[b]).0 by {
            assert(d[a] == cs[a]);
            assert(d[b] == cs[b]);
        }
        assert(d[j] == cs[j]);
        lemma_points_for_distinct(d, j);
        assert(cs.last().0 != cs[j].0);
        assert(points_for(d, cs[j].0) + Seq::<TrackPoint>::empty() == cs[j].1);
    }
}

/// Merging a merged result again gives it back, up to the order of its tracks:
/// when `page` lists the tracks of `r`, a merge of `page` alone holds exactly the
/// tracks of `r`, each once.
pub proof fn lemma_merge_idempotent(
    pages: Seq<TrackPage>,
    r: Seq<MergedTrack>,
    page: TrackPage,
    r2: Seq<MergedTrack>,
)
    requires
        is_merge_of(r, pages),
        page.tracks matches Some(es) && es@.len() == r.len() && forall|i: int|
            0 <= i < r.len() ==> lists_track(#[trigger] es@[i], r[i]),
        is_merge_of(r2, seq![page]),
    ensures
        distinct_ids(r2),
        r2.len() == r.len(),
        forall|k: int|
            0 <= k < r2.len() ==> exists|j: int|
                0 <= j < r.len() && (#[trigger] r[j]).participant_id@ == (#[trigger] r2[k]).participant_id@
                    && r[j].track@ == r2[k].track@,
        forall|j: int|
            0 <= j < r.len() ==> exists|k: int|
                0 <= k < r2.len() && (#[trigger] r[j]).participant_id@ == (#[trigger] r2[k]).participant_id@
                    && r[j].track@ == r2[k].track@,
{
    let es = page.tracks->0@;
    let f = |m: MergedTrack| (m.participant_id@, m.track@);
    let cs = r.map_values(f);
    assert(seq![page].drop_first() == Seq::<TrackPage>::empty());
    assert(seq![page][0] == page);
    assert(contributions(Seq::<TrackPage>::empty()) == Seq::<(Seq<char>, Seq<TrackPoint>)>::empty());
    assert(contributions(seq![page]) == Seq::<(Seq<char>, Seq<TrackPoint>)>::empty() + page_contributions(
        page,
    ));
    lemma_entry_contributions_all(es, r);
    assert(contributions(seq![page]) == cs);
    assert forall|a: int, b: int| 0 <= a < cs.len() && 0 <= b < cs.len() && a != b implies (
    #[trigger] cs[a]).0 != (#[trigger] cs[b]).0 by {
        assert(cs[a].0 == r[a].participant_id@);
        assert(cs[b].0 == r[b].participant_id@);
    }
    assert forall|j: int| 0 <= j < r.len() implies #[trigger] points_for(cs, r[j].participant_id@)
        == r[j].track@ by {
        lemma_points_for_distinct(cs, j);
    }
    assert forall|j: int| 0 <= j < r.len() implies dedup_times(time_sort(#[trigger] r[j].track@))
        == r[j].track@ by {
        lemma_merged_track(r, pages, j);
        lemma_sort_dedup_fixed(r[j].track@);
    }
    assert forall|k: int| 0 <= k < r2.len() implies exists|j: int|
        0 <= j < r.len() && (#[trigger] r[j]).participant_id@ == (#[trigger] r2[k]).participant_id@
            && r[j].track@ == r2[k].track@ by {
        let pid = r2[k].participant_id@;
        assert(has_contribution(cs, pid));
        let i = choose|i: int| 0 <= i < cs.len() && (#[trigger] cs[i]).0 == pid;
        assert(r[i].participant_id@ == pid);
        assert(points_for(cs, r[i].participant_id@) == r[i].track@);
    }
    assert forall|j: int| 0 <= j < r.len() implies exists|k: int|
        0 <= k < r2.len() && (#[trigger] r[j]).participant_id@ == (#[trigger] r2[k]).participant_id@
            && r[j].track@ == r2[k].track@ by {
        let pid = r[j].participant_id@;
        assert(cs[j].0 == pid);
        assert(has_contribution(cs, pid));
        let k = choose|k: int| 0 <= k < r2.len() && (#[trigger] r2[k]).participant_id@ == pid;
        assert(points_for(cs, r[j].participant_id@) == r[j].track@);
    }
    let g = |m: MergedTrack| m.participant_id@;
    let a = r.map_values(g);
    let b = r2.map_values(g);
    assert(a.no_duplicates()) by {
        assert forall|i: int, j: int| 0 <= i < a.len() && 0 <= j < a.len() && i != j implies a[i] != a[j] by {
            assert(a[i] == r[i].participant_id@);
            assert(a[j] == r[j].participant_id@);
        }
    }
    assert(b.no_duplicates()) by {
        assert forall|i: int, j: int| 0 <= i < b.len() && 0 <= j < b.len() && i != j implies b[i] != b[j] by {
            assert(b[i] == r2[i].participant_id@);
            assert(b[j] == r2[j].participant_id@);
        }
    }
    assert(a.to_set() =~= b.to_set()) by {
        assert forall|x: Seq<char>| a.to_set().contains(x) implies b.to_set().contains(x) by {
            let j = choose|j: int| 0 <= j < a.len() && a[j] == x;
            assert(r[j].participant_id@ == x);
            let k = choose|k: int|
                0 <= k < r2.len() && (#[trigger] r[j]).participant_id@ == (#[trigger] r2[k]).participant_id@
                    && r[j].track@ == r2[k].track@;
            assert(b[k] == x);
        }
        assert forall|x: Seq<char>| b.to_set().contains(x) implies a.to_set().contains(x) by {
            let k = choose|k: int| 0 <= k < b.len() && b[k] == x;
            assert(r2[k].participant_id@ == x);
            let j = choose|j: int|
                0 <= j < r.len() && (#[trigger] r[j]).participant_id@ == (#[trigger] r2[k]).participant_id@
                    && r[j].track@ == r2[k].track@;
            assert(a[j] == x);
        }
    }
    a.unique_seq_to_set();
    b.unique_seq_to_set();
}

/// In a sequence ordered by time key where no point repeats the timestamp of its
/// predecessor, two points share a timestamp only if its key is 0.
proof fn lemma_repeats_only_at_zero(tr: Seq<TrackPoint>)
    requires
        time_sorted(tr),
        forall|i: int| 0 <= i < tr.len() - 1 ==> !same_time(#[trigger] tr[i + 1], tr[i]),
    ensures
        forall|i: int, j: int|
            0 <= i < j < tr.len() && same_time(#[trigger] tr[i], #[trigger] tr[j]) ==> time_key(tr[i])
                == 0,
{
    assert forall|i: int, j: int|
        0 <= i < j < tr.len() && same_time(#[trigger] tr[i], #[trigger] tr[j]) implies time_key(tr[i])
        == 0 by {
        if time_key(tr[i]) != 0 {
            assert(time_key(tr[i]) <= time_key(tr[i + 1]) <= time_key(tr[j]));
            assert(tr[i + 1].time is Some);
            assert(same_time(tr[i + 1], tr[i]));
        }
    }
}

proof fn lemma_sort_dedup_order(pts: Seq<TrackPoint>)
    ensures
        time_sorted(dedup_times(time_sort(pts))),
        forall|i: int|
            0 <= i < dedup_times(time_sort(pts)).len() - 1 ==> !same_time(
                #[trigger] dedup_times(time_sort(pts))[i + 1],
                dedup_times(time_sort(pts))[i],
            ),
{
    lemma_time_sort_exists(pts);
    lemma_dedup_sorted(time_sort(pts));
    lemma_dedup_no_repeat(time_sort(pts));
}

proof fn lemma_sort_dedup_members(pts: Seq<TrackPoint>)
    ensures
        forall|i: int|
            0 <= i < dedup_times(time_sort(pts)).len() ==> pts.contains(
                #[trigger] dedup_times(time_sort(pts))[i],
            ),
{
    let t = time_sort(pts);
    let tr = dedup_times(t);
    lemma_time_sort_exists(pts);
    lemma_time_sort_members(t, pts);
    lemma_dedup_members(t);
    assert forall|i: int| 0 <= i < tr.len() implies pts.contains(#[trigger] tr[i]) by {
        assert(t.contains(tr[i]));
        let m = choose|m: int| 0 <= m < t.len() && t[m] == tr[i];
        assert(pts.contains(t[m]));
    }
}

proof fn lemma_sort_dedup_keeps(pts: Seq<TrackPoint>)
    ensures
        forall|i: int|
            0 <= i < pts.len() && (#[trigger] pts[i]).time is Some ==> exists|j: int|
                0 <= j < dedup_times(time_sort(pts)).len() && (#[trigger] dedup_times(
                    time_sort(pts),
                )[j]).time == pts[i].time,
        forall|i: int|
            0 <= i < pts.len() && (#[trigger] pts[i]).time is None ==> dedup_times(
                time_sort(pts),
            ).contains(pts[i]),
{
    let t = time_sort(pts);
    let tr = dedup_times(t);
    lemma_time_sort_exists(pts);
    lemma_time_sort_members(t, pts);
    lemma_dedup_keeps(t);
    assert forall|i: int| 0 <= i < pts.len() && (#[trigger] pts[i]).time is Some implies exists|j: int|
        0 <= j < tr.len() && (#[trigger] tr[j]).time == pts[i].time by {
        assert(t.contains(pts[i]));
        let m = choose|m: int| 0 <= m < t.len() && t[m] == pts[i];
        assert(t[m].time is Some);
    }
    assert forall|i: int| 0 <= i < pts.len() && (#[trigger] pts[i]).time is None implies tr.contains(
        pts[i],
    ) by {
        assert(t.contains(pts[i]));
        let m = choose|m: int| 0 <= m < t.len() && t[m] == pts[i];
        assert(t[m].time is None);
    }
}

} // verus!
