//! Overtakes: riders whose overall rank improved from one refresh of an event to
//! the next, kept in a rolling log, newest first, of at most 500 entries.
use vstd::prelude::*;
use crate::text::same_text;

verus! {

/// The most overtakes an event's log keeps.
pub const OVERTAKE_LOG_CAP: usize = 500;

/// A rider's overall rank as read from one snapshot; either part may be missing.
pub struct RankReading {
    pub participant_id: Option<String>,
    pub name: String,
    pub rank: Option<u64>,
}

/// A rank remembered from the previous refresh.
pub struct PrevRank {
    pub participant_id: String,
    pub rank: u64,
}

/// One rider's rank improvement between two refreshes, seen at unix time `ts`.
pub struct OvertakeRecord {
    pub participant_id: String,
    pub name: String,
    pub from_rank: u64,
    pub to_rank: u64,
    pub ts: i64,
}

/// An overtake as plain values: id, name, old rank, new rank, time.
pub open spec fn record_view(o: OvertakeRecord) -> (Seq<char>, Seq<char>, u64, u64, i64) {
    (o.participant_id@, o.name@, o.from_rank, o.to_rank, o.ts)
}

/// The remembered ranks as plain values.
pub open spec fn prev_view(p: PrevRank) -> (Seq<char>, u64) {
    (p.participant_id@, p.rank)
}

/// The rank remembered for `id`: that of its first entry in `prev`.
pub open spec fn spec_prev_rank(prev: Seq<PrevRank>, id: Seq<char>) -> Option<u64>
    decreases prev.len(),
{
    if prev.len() == 0 {
        None
    } else if prev[0].participant_id@ == id {
        Some(prev[0].rank)
    } else {
        spec_prev_rank(prev.drop_first(), id)
    }
}

/// The overtakes that the readings `cur` show against the remembered ranks
/// `prev`, in reading order: one for each reading with an id and a rank that is
/// smaller (better) than the rank remembered for that id.
pub open spec fn spec_overtakes(prev: Seq<PrevRank>, cur: Seq<RankReading>, ts: i64) -> Seq<
    (Seq<char>, Seq<char>, u64, u64, i64),
>
    decreases cur.len(),
{
    if cur.len() == 0 {
        Seq::empty()
    } else {
        let r = cur.last();
        spec_overtakes(prev, cur.drop_last(), ts) + match (r.participant_id, r.rank) {
            (Some(id), Some(now)) => match spec_prev_rank(prev, id@) {
                Some(before) => if now < before {
                    seq![(id@, r.name@, before, now, ts)]
                } else {
                    Seq::empty()
                },
                None => Seq::empty(),
            },
            _ => Seq::empty(),
        }
    }
}

/// The ranks to remember from the readings `cur`: those with an id and a rank, in
/// order.
pub open spec fn spec_ranks(cur: Seq<RankReading>) -> Seq<(Seq<char>, u64)>
    decreases cur.len(),
{
    if cur.len() == 0 {
        Seq::empty()
    } else {
        let r = cur.last();
        spec_ranks(cur.drop_last()) + match (r.participant_id, r.rank) {
            (Some(id), Some(k)) => seq![(id@, k)],
            _ => Seq::empty(),
        }
    }
}

/// `s` cut to the log's capacity.
pub open spec fn capped<A>(s: Seq<A>) -> Seq<A> {
    if s.len() <= OVERTAKE_LOG_CAP {
        s
    } else {
        s.take(OVERTAKE_LOG_CAP as int)
    }
}

/// An event's overtake tracking: the ranks seen at the last refresh and the log of
/// overtakes, newest first.
pub struct OvertakeLog {
    pub prev: Vec<PrevRank>,
    pub records: Vec<OvertakeRecord>,
}

impl OvertakeLog {
    /// The log never holds more than its capacity.
    pub open spec fn wf(&self) -> bool {
        self.records.len() <= OVERTAKE_LOG_CAP
    }

    /// An empty log with no remembered ranks.
    pub fn new() -> (r: OvertakeLog)
        ensures
            r.wf(),
            r.prev@.len() == 0,
            r.records@.len() == 0,
    {
        OvertakeLog { prev: Vec::new(), records: Vec::new() }
    }

    /// A log restored from saved records and the readings of the restored
    /// snapshot, so that the next refresh compares against them. Saved records
    /// beyond the capacity are dropped from the end (the oldest).
    pub fn restore(records: Vec<OvertakeRecord>, cur: &Vec<RankReading>) -> (r: OvertakeLog)
        ensures
            r.wf(),
            r.records@ == capped(records@),
            r.prev@.map_values(|p: PrevRank| prev_view(p)) == spec_ranks(cur@),
    {
        let mut records = records;
        records.truncate(OVERTAKE_LOG_CAP);
        OvertakeLog { prev: ranks_of(cur), records }
    }

    /// Records a refresh with readings `cur` at unix time `ts`: the overtakes
    /// against the remembered ranks go to the front of the log, which is then cut
    /// to its capacity, and the readings' ranks are remembered for next time.
    pub fn record_refresh(&mut self, cur: &Vec<RankReading>, ts: i64)
        ensures
            final(self).wf(),
            ({
                let fresh = spec_overtakes(old(self).prev@, cur@, ts);
                final(self).records@.map_values(|o: OvertakeRecord| record_view(o)) == capped(
                    fresh + old(self).records@.map_values(|o: OvertakeRecord| record_view(o)),
                )
            }),
            final(self).prev@.map_values(|p: PrevRank| prev_view(p)) == spec_ranks(cur@),
    {
        let mut out = detect_overtakes(&self.prev, cur, ts);
        let ghost fresh = out@;
        let ghost old_records = self.records@;
        out.append(&mut self.records);
        let ghost joined = out@;
        assert(joined == fresh + old_records);
        out.truncate(OVERTAKE_LOG_CAP);
        proof {
            let f = |o: OvertakeRecord| record_view(o);
            assert((fresh + old_records).map_values(f) =~= fresh.map_values(f) + old_records.map_values(f));
            if joined.len() > OVERTAKE_LOG_CAP {
                assert(out@.map_values(f) =~= joined.map_values(f).take(OVERTAKE_LOG_CAP as int));
            }
        }
        self.records = out;
        self.prev = ranks_of(cur);
    }
}

/// The rank remembered for `id` (see `spec_prev_rank`).
fn prev_rank(prev: &Vec<PrevRank>, id: &str) -> (r: Option<u64>)
    ensures
        r == spec_prev_rank(prev@, id@),
{
    let mut i: usize = 0;
    assert(prev@.skip(0) == prev@);
    while i < prev.len()
        invariant
            i <= prev.len(),
            spec_prev_rank(prev@, id@) == spec_prev_rank(prev@.skip(i as int), id@),
        decreases prev.len() - i,
    {
        let ghost rest = prev@.skip(i as int);
        assert(rest[0] == prev@[i as int]);
        if same_text(prev[i].participant_id.as_str(), id) {
            return Some(prev[i].rank);
        }
        assert(rest.drop_first() == prev@.skip(i + 1));
        i = i + 1;
    }
    None
}

/// The overtakes the readings `cur` show against `prev` at time `ts` (see
/// `spec_overtakes`).
pub fn detect_overtakes(prev: &Vec<PrevRank>, cur: &Vec<RankReading>, ts: i64) -> (r: Vec<OvertakeRecord>)
    ensures
        r@.map_values(|o: OvertakeRecord| record_view(o)) == spec_overtakes(prev@, cur@, ts),
{
    let mut out: Vec<OvertakeRecord> = Vec::new();
    for i in 0..cur.len()
        invariant
            out@.map_values(|o: OvertakeRecord| record_view(o)) == spec_overtakes(
                prev@,
                cur@.take(i as int),
                ts,
            ),
    {
        let r = &cur[i];
        let ghost before = out@;
        proof {
            let t = cur@.take(i + 1);
            assert(t.drop_last() == cur@.take(i as int));
            assert(t.last() == *r);
        }
        match (&r.participant_id, r.rank) {
            (Some(id), Some(now)) => match prev_rank(prev, id.as_str()) {
                Some(was) => {
                    if now < was {
                        out.push(
                            OvertakeRecord {
                                participant_id: id.clone(),
                                name: r.name.clone(),
                                from_rank: was,
                                to_rank: now,
                                ts,
                            },
                        );
                        assert(out@.map_values(|o: OvertakeRecord| record_view(o)) =~= before.map_values(
                            |o: OvertakeRecord| record_view(o),
                        ).push((id@, r.name@, was, now, ts)));
                    }
                },
                None => {},
            },
            _ => {},
        }
    }
    assert(cur@.take(cur.len() as int) == cur@);
    out
}

/// The ranks to remember from the readings `cur` (see `spec_ranks`).
pub fn ranks_of(cur: &Vec<RankReading>) -> (r: Vec<PrevRank>)
    ensures
        r@.map_values(|p: PrevRank| prev_view(p)) == spec_ranks(cur@),
{
    let mut out: Vec<PrevRank> = Vec::new();
    for i in 0..cur.len()
        invariant
            out@.map_values(|p: PrevRank| prev_view(p)) == spec_ranks(cur@.take(i as int)),
    {
        let r = &cur[i];
        let ghost before = out@;
        proof {
            let t = cur@.take(i + 1);
            assert(t.drop_last() == cur@.take(i as int));
            assert(t.last() == *r);
        }
        match (&r.participant_id, r.rank) {
            (Some(id), Some(k)) => {
                out.push(PrevRank { participant_id: id.clone(), rank: k });
                assert(out@.map_values(|p: PrevRank| prev_view(p)) =~= before.map_values(
                    |p: PrevRank| prev_view(p),
                ).push((id@, k)));
            },
            _ => {},
        }
    }
    assert(cur@.take(cur.len() as int) == cur@);
    out
}

/// Every overtake is an improvement: its new rank is smaller than its old one,
/// and it was seen at the refresh's time.
pub proof fn lemma_overtakes_improve(prev: Seq<PrevRank>, cur: Seq<RankReading>, ts: i64)
    ensures
        forall|k: int|
            0 <= k < spec_overtakes(prev, cur, ts).len() ==> (#[trigger] spec_overtakes(prev, cur, ts)[k]).3
                < spec_overtakes(prev, cur, ts)[k].2 && spec_overtakes(prev, cur, ts)[k].4 == ts,
    decreases cur.len(),
{
    if cur.len() > 0 {
        lemma_overtakes_improve(prev, cur.drop_last(), ts);
        let a = spec_overtakes(prev, cur.drop_last(), ts);
        let s = spec_overtakes(prev, cur, ts);
        assert forall|k: int| 0 <= k < s.len() implies (#[trigger] s[k]).3 < s[k].2 && s[k].4 == ts by {
            if k < a.len() {
                assert(s[k] == a[k]);
            }
        }
    }
}

/// The rank of the first pair in `ps` for `id`.
pub open spec fn first_rank(ps: Seq<(Seq<char>, u64)>, id: Seq<char>) -> Option<u64>
    decreases ps.len(),
{
    if ps.len() == 0 {
        None
    } else if ps[0].0 == id {
        Some(ps[0].1)
    } else {
        first_rank(ps.drop_first(), id)
    }
}

proof fn lemma_prev_rank_view(prev: Seq<PrevRank>, id: Seq<char>)
    ensures
        spec_prev_rank(prev, id) == first_rank(prev.map_values(|p: PrevRank| prev_view(p)), id),
    decreases prev.len(),
{
    let f = |p: PrevRank| prev_view(p);
    if prev.len() > 0 {
        lemma_prev_rank_view(prev.drop_first(), id);
        assert(prev.map_values(f).drop_first() =~= prev.drop_first().map_values(f));
        assert(prev.map_values(f)[0] == f(prev[0]));
    }
}

proof fn lemma_first_rank_append(a: Seq<(Seq<char>, u64)>, b: Seq<(Seq<char>, u64)>, id: Seq<char>)
    ensures
        first_rank(a + b, id) == match first_rank(a, id) {
            Some(x) => Some(x),
            None => first_rank(b, id),
        },
    decreases a.len(),
{
    if a.len() == 0 {
        assert(a + b == b);
    } else {
        assert((a + b)[0] == a[0]);
        assert((a + b).drop_first() == a.drop_first() + b);
        lemma_first_rank_append(a.drop_first(), b, id);
    }
}

/// A reading whose id and rank are both known.
pub open spec fn ranked(r: RankReading) -> bool {
    r.participant_id is Some && r.rank is Some
}

/// No id is read twice with different ranks.
pub open spec fn consistent_readings(cur: Seq<RankReading>) -> bool {
    forall|i: int, j: int|
        0 <= i < cur.len() && 0 <= j < cur.len() && ranked(#[trigger] cur[i]) && ranked(#[trigger] cur[j])
            && cur[i].participant_id->0@ == cur[j].participant_id->0@ ==> cur[i].rank == cur[j].rank
}

proof fn lemma_first_rank_source(cur: Seq<RankReading>, id: Seq<char>)
    ensures
        first_rank(spec_ranks(cur), id) matches Some(x) ==> exists|i: int|
            0 <= i < cur.len() && ranked(#[trigger] cur[i]) && cur[i].participant_id->0@ == id
                && cur[i].rank == Some(x),
    decreases cur.len(),
{
    if cur.len() > 0 {
        let d = cur.drop_last();
        let r = cur.last();
        lemma_first_rank_source(d, id);
        let tail: Seq<(Seq<char>, u64)> = match (r.participant_id, r.rank) {
            (Some(i), Some(k)) => seq![(i@, k)],
            _ => Seq::empty(),
        };
        assert(spec_ranks(cur) == spec_ranks(d) + tail);
        lemma_first_rank_append(spec_ranks(d), tail, id);
        if let Some(x) = first_rank(spec_ranks(cur), id) {
            if let Some(y) = first_rank(spec_ranks(d), id) {
                let i = choose|i: int|
                    0 <= i < d.len() && ranked(#[trigger] d[i]) && d[i].participant_id->0@ == id
                        && d[i].rank == Some(y);
                assert(cur[i] == d[i]);
            } else {
                let w = cur.len() - 1;
                assert(cur[w] == r);
                match (r.participant_id, r.rank) {
                    (Some(i), Some(k)) => {
                        assert(tail[0] == (i@, k));
                        assert(tail.drop_first().len() == 0);
                        assert(first_rank(tail.drop_first(), id) is None);
                        assert(i@ == id && k == x);
                        assert(ranked(cur[w]) && cur[w].participant_id->0@ == id && cur[w].rank == Some(x));
                    },
                    _ => {
                        assert(first_rank(tail, id) is None);
                    },
                }
            }
        }
    }
}

proof fn lemma_first_rank_found(cur: Seq<RankReading>, j: int)
    requires
        0 <= j < cur.len(),
        ranked(cur[j]),
        consistent_readings(cur),
    ensures
        first_rank(spec_ranks(cur), cur[j].participant_id->0@) == cur[j].rank,
    decreases cur.len(),
{
    let d = cur.drop_last();
    let r = cur.last();
    let id = cur[j].participant_id->0@;
    let tail: Seq<(Seq<char>, u64)> = match (r.participant_id, r.rank) {
        (Some(i), Some(k)) => seq![(i@, k)],
        _ => Seq::empty(),
    };
    assert(spec_ranks(cur) == spec_ranks(d) + tail);
    lemma_first_rank_append(spec_ranks(d), tail, id);
    assert forall|a: int, b: int|
        0 <= a < d.len() && 0 <= b < d.len() && ranked(#[trigger] d[a]) && ranked(#[trigger] d[b])
            && d[a].participant_id->0@ == d[b].participant_id->0@ implies d[a].rank == d[b].rank by {
        assert(d[a] == cur[a]);
        assert(d[b] == cur[b]);
    }
    if j < cur.len() - 1 {
        assert(d[j] == cur[j]);
        lemma_first_rank_found(d, j);
    } else {
        assert(r == cur[j]);
        lemma_first_rank_source(d, id);
        if let Some(y) = first_rank(spec_ranks(d), id) {
            let i = choose|i: int|
                0 <= i < d.len() && ranked(#[trigger] d[i]) && d[i].participant_id->0@ == id
                    && d[i].rank == Some(y);
            assert(cur[i] == d[i]);
        } else {
            assert(tail.drop_first().len() == 0);
        }
    }
}

/// Refreshing twice with the same readings records no overtake the second time:
/// once the readings' ranks are remembered, nobody's rank improves against
/// itself (provided no id is read twice with different ranks).
pub proof fn lemma_same_readings_no_overtakes(prev: Seq<PrevRank>, cur: Seq<RankReading>, ts: i64)
    requires
        prev.map_values(|p: PrevRank| prev_view(p)) == spec_ranks(cur),
        consistent_readings(cur),
    ensures
        spec_overtakes(prev, cur, ts).len() == 0,
{
    assert forall|j: int| 0 <= j < cur.len() && ranked(#[trigger] cur[j]) implies spec_prev_rank(
        prev,
        cur[j].participant_id->0@,
    ) == cur[j].rank by {
        lemma_prev_rank_view(prev, cur[j].participant_id->0@);
        lemma_first_rank_found(cur, j);
    }
    lemma_no_overtakes_prefix(prev, cur, ts, cur.len() as int);
    assert(cur.take(cur.len() as int) == cur);
}

proof fn lemma_no_overtakes_prefix(prev: Seq<PrevRank>, cur: Seq<RankReading>, ts: i64, m: int)
    requires
        0 <= m <= cur.len(),
        forall|j: int|
            0 <= j < cur.len() && ranked(#[trigger] cur[j]) ==> spec_prev_rank(prev, cur[j].participant_id->0@)
                == cur[j].rank,
    ensures
        spec_overtakes(prev, cur.take(m), ts).len() == 0,
    decreases m,
{
    if m > 0 {
        let t = cur.take(m);
        assert(t.drop_last() == cur.take(m - 1));
        assert(t.last() == cur[m - 1]);
        lemma_no_overtakes_prefix(prev, cur, ts, m - 1);
        if ranked(cur[m - 1]) {
            assert(spec_prev_rank(prev, cur[m - 1].participant_id->0@) == cur[m - 1].rank);
        }
    }
}

/// The log keeps its newest 500 entries: cutting a sequence to the capacity keeps
/// its first 500 items (all of them when there are fewer), in order.
pub proof fn lemma_capped_keeps_newest<A>(s: Seq<A>)
    ensures
        capped(s).len() == if s.len() <= 500 {
            s.len()
        } else {
            500
        },
        forall|i: int| 0 <= i < capped(s).len() ==> #[trigger] capped(s)[i] == s[i],
{
}

/// The ranks remembered after a refresh are exactly those of the readings that
/// have both an id and a rank, in reading order.
pub proof fn lemma_ranks_remembered(cur: Seq<RankReading>)
    ensures
        spec_ranks(cur) == cur.filter(|r: RankReading| r.participant_id is Some && r.rank is Some).map_values(
            |r: RankReading| (r.participant_id->0@, r.rank->0),
        ),
    decreases cur.len(),
{
    reveal(Seq::filter);
    let p = |r: RankReading| r.participant_id is Some && r.rank is Some;
    let f = |r: RankReading| (r.participant_id->0@, r.rank->0);
    if cur.len() > 0 {
        let d = cur.drop_last();
        lemma_ranks_remembered(d);
        let fd = d.filter(p);
        if p(cur.last()) {
            assert(cur.filter(p) == fd.push(cur.last()));
            assert(fd.push(cur.last()).map_values(f) =~= fd.map_values(f).push(f(cur.last())));
        } else {
            assert(cur.filter(p) == fd);
        }
    } else {
        assert(cur.filter(p).map_values(f) =~= Seq::<(Seq<char>, u64)>::empty());
    }
}

/// The remembered rank of an id is that of its first entry in `prev`.
proof fn lemma_prev_rank_first(prev: Seq<PrevRank>, id: Seq<char>, k: int)
    requires
        0 <= k < prev.len(),
        prev[k].participant_id@ == id,
        forall|m: int| 0 <= m < k ==> (#[trigger] prev[m]).participant_id@ != id,
    ensures
        spec_prev_rank(prev, id) == Some(prev[k].rank),
    decreases k,
{
    if k > 0 {
        let d = prev.drop_first();
        assert forall|m: int| 0 <= m < k - 1 implies (#[trigger] d[m]).participant_id@ != id by {
            assert(d[m] == prev[m + 1]);
        }
        assert(prev[0].participant_id@ != id);
        lemma_prev_rank_first(d, id, k - 1);
    }
}

/// An id with no entry in `prev` has no remembered rank.
proof fn lemma_prev_rank_absent(prev: Seq<PrevRank>, id: Seq<char>)
    requires
        forall|m: int| 0 <= m < prev.len() ==> (#[trigger] prev[m]).participant_id@ != id,
    ensures
        spec_prev_rank(prev, id) is None,
    decreases prev.len(),
{
    if prev.len() > 0 {
        let d = prev.drop_first();
        assert forall|m: int| 0 <= m < d.len() implies (#[trigger] d[m]).participant_id@ != id by {
            assert(d[m] == prev[m + 1]);
        }
        assert(prev[0].participant_id@ != id);
        lemma_prev_rank_absent(d, id);
    }
}

/// The remembered rank, when there is one, belongs to the first entry of `prev`
/// with that id.
proof fn lemma_prev_rank_source(prev: Seq<PrevRank>, id: Seq<char>)
    ensures
        spec_prev_rank(prev, id) matches Some(x) ==> exists|k: int|
            0 <= k < prev.len() && (#[trigger] prev[k]).participant_id@ == id && prev[k].rank == x
                && forall|m: int| 0 <= m < k ==> (#[trigger] prev[m]).participant_id@ != id,
    decreases prev.len(),
{
    if prev.len() > 0 && prev[0].participant_id@ != id {
        let d = prev.drop_first();
        lemma_prev_rank_source(d, id);
        if let Some(x) = spec_prev_rank(prev, id) {
            let k = choose|k: int|
                0 <= k < d.len() && (#[trigger] d[k]).participant_id@ == id && d[k].rank == x
                    && forall|m: int| 0 <= m < k ==> (#[trigger] d[m]).participant_id@ != id;
            assert(prev[k + 1] == d[k]);
            assert forall|m: int| 0 <= m < k + 1 implies (#[trigger] prev[m]).participant_id@ != id by {
                if m > 0 {
                    assert(prev[m] == d[m - 1]);
                }
            }
        }
    }
}

/// Every improvement is recorded: for each reading `cur[j]` with an id and a
/// rank, when the first remembered entry for that id, `prev[k]`, has a larger
/// rank, the overtakes hold one from `prev[k]`'s rank to the new rank, with the
/// reading's name and the refresh's time, whatever the size of the ranks.
pub proof fn lemma_improvements_recorded(prev: Seq<PrevRank>, cur: Seq<RankReading>, ts: i64, j: int, k: int)
    requires
        0 <= j < cur.len(),
        cur[j].participant_id is Some,
        cur[j].rank is Some,
        0 <= k < prev.len(),
        prev[k].participant_id@ == cur[j].participant_id->0@,
        forall|m: int| 0 <= m < k ==> (#[trigger] prev[m]).participant_id@ != cur[j].participant_id->0@,
        cur[j].rank->0 < prev[k].rank,
    ensures
        spec_overtakes(prev, cur, ts).contains(
            (cur[j].participant_id->0@, cur[j].name@, prev[k].rank, cur[j].rank->0, ts),
        ),
    decreases cur.len(),
{
    let d = cur.drop_last();
    let x = (cur[j].participant_id->0@, cur[j].name@, prev[k].rank, cur[j].rank->0, ts);
    let a = spec_overtakes(prev, d, ts);
    let s = spec_overtakes(prev, cur, ts);
    if j == cur.len() - 1 {
        lemma_prev_rank_first(prev, cur[j].participant_id->0@, k);
        assert(cur.last() == cur[j]);
        assert(s == a + seq![x]);
        assert(s[a.len() as int] == x);
    } else {
        assert(d[j] == cur[j]);
        lemma_improvements_recorded(prev, d, ts, j, k);
        let i = choose|i: int| 0 <= i < a.len() && a[i] == x;
        assert(s[i] == a[i]);
    }
}

/// Nothing but improvements is recorded: each overtake comes from a reading with
/// an id and a rank, and the first remembered entry for that id had a larger
/// rank; the overtake goes from that rank to the reading's, with the reading's
/// name, at the refresh's time.
pub proof fn lemma_only_improvements_recorded(prev: Seq<PrevRank>, cur: Seq<RankReading>, ts: i64, i: int)
    requires
        0 <= i < spec_overtakes(prev, cur, ts).len(),
    ensures
        exists|j: int, k: int|
            0 <= j < cur.len() && 0 <= k < prev.len() && (#[trigger] cur[j]).participant_id is Some
                && cur[j].rank is Some && (#[trigger] prev[k]).participant_id@ == cur[j].participant_id->0@
                && (forall|m: int| 0 <= m < k ==> (#[trigger] prev[m]).participant_id@ != cur[j].participant_id->0@)
                && cur[j].rank->0 < prev[k].rank && spec_overtakes(prev, cur, ts)[i] == (
                cur[j].participant_id->0@,
                cur[j].name@,
                prev[k].rank,
                cur[j].rank->0,
                ts,
            ),
    decreases cur.len(),
{
    let d = cur.drop_last();
    let a = spec_overtakes(prev, d, ts);
    let s = spec_overtakes(prev, cur, ts);
    if i < a.len() {
        assert(s[i] == a[i]);
        lemma_only_improvements_recorded(prev, d, ts, i);
        let (j, k) = choose|j: int, k: int|
            0 <= j < d.len() && 0 <= k < prev.len() && (#[trigger] d[j]).participant_id is Some
                && d[j].rank is Some && (#[trigger] prev[k]).participant_id@ == d[j].participant_id->0@
                && (forall|m: int| 0 <= m < k ==> (#[trigger] prev[m]).participant_id@ != d[j].participant_id->0@)
                && d[j].rank->0 < prev[k].rank && a[i] == (
                d[j].participant_id->0@,
                d[j].name@,
                prev[k].rank,
                d[j].rank->0,
                ts,
            );
        assert(cur[j] == d[j]);
    } else {
        let r = cur.last();
        let w = cur.len() - 1;
        assert(cur[w] == r);
        let id = r.participant_id->0@;
        lemma_prev_rank_source(prev, id);
        let k = choose|k: int|
            0 <= k < prev.len() && (#[trigger] prev[k]).participant_id@ == id && prev[k].rank
                == spec_prev_rank(prev, id)->0 && forall|m: int| 0 <= m < k ==> (#[trigger] prev[m]).participant_id@
                != id;
        assert(s[i] == (id, r.name@, prev[k].rank, r.rank->0, ts));
    }
}

} // verus!
