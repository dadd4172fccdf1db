//! Prometheus text for the `/metrics` endpoint: per-rider and per-event race
//! gauges, and the server's own counters and cache gauges.
use vstd::prelude::*;
use vstd::string::StringExecFns;
use crate::escape::{esc_label, lemma_esc_label_roundtrip, spec_esc_label};
use crate::serve::occurs_in;
use crate::metric_headers::{
    header_lines, lemma_cache_help_lines, lemma_errors_help_lines, lemma_header_lines_distinct,
    lemma_not_modified_help_lines, lemma_race_help_lines, lemma_refreshes_help_lines, lemma_requests_help_lines,
};
use crate::isotime::{iso_in_range, parse_iso_utc, spec_parse_iso_utc};
use crate::text::{
    decimal, is_digit, lemma_digits_chars, lemma_find_char, lemma_find_char_at, push_decimal, same_text, spec_find_char,
    trim, trim_ws,
};

verus! {

/// A rider's distance as the metrics see it: its text as a gauge value, and two
/// facts about the number: it is above zero (the rider has started), and it is
/// within half a kilometre of a positive course total (the rider has finished).
pub struct DistanceReading {
    pub text: String,
    pub started: bool,
    pub finished: bool,
}

/// What the race metrics read of one participant. Text fields are empty where the
/// participant has none; numeric fields hold the gauge value's text.
pub struct RiderMetrics {
    pub bib: String,
    pub first_name: String,
    pub last_name: String,
    pub category: String,
    pub status: String,
    pub sleeping: bool,
    pub has_ping: bool,
    pub distance: Option<DistanceReading>,
    pub speed: Option<String>,
    pub overall_rank: Option<String>,
    pub category_rank: Option<String>,
    pub battery: Option<String>,
    pub distance_to_next_cp: Option<String>,
    /// The rider's distance minus the cactus pacer's position, in km, when both
    /// are known.
    pub cactus_delta: Option<String>,
}

/// What the race metrics read of the event: its start and end dates, if any, the
/// course total in km as a gauge value, and the cactus pacer's position in km
/// when the dates give one (see `cactus_fraction`).
pub struct RaceInfo {
    pub start_date: Option<String>,
    pub end_date: Option<String>,
    pub total_km: String,
    pub cactus_km: Option<String>,
}

/// One gauge line: `metric{labels} value`.
pub open spec fn gauge_line(metric: Seq<char>, labels: Seq<char>, value: Seq<char>) -> Seq<char> {
    metric + seq!['{'] + labels + seq!['}', ' '] + value + seq!['\n']
}

/// A gauge line when there is a value, nothing otherwise.
pub open spec fn opt_gauge_line(metric: Seq<char>, labels: Seq<char>, value: Option<String>) -> Seq<
    char,
> {
    match value {
        Some(v) => gauge_line(metric, labels, v@),
        None => Seq::empty(),
    }
}

/// The label set of an event gauge.
pub open spec fn event_labels(slug_esc: Seq<char>) -> Seq<char> {
    "slug=\""@ + slug_esc + seq!['"']
}

/// The rider's display name: first and last name joined by a space, trimmed.
pub open spec fn rider_name(r: RiderMetrics) -> Seq<char> {
    trim_ws(r.first_name@ + seq![' '] + r.last_name@)
}

/// The label set of a rider gauge.
pub open spec fn rider_labels(slug_esc: Seq<char>, r: RiderMetrics) -> Seq<char> {
    "slug=\""@ + slug_esc + "\",bib=\""@ + spec_esc_label(r.bib@) + "\",name=\""@ + spec_esc_label(
        rider_name(r),
    ) + "\",category=\""@ + spec_esc_label(r.category@) + seq!['"']
}

/// The gauge lines of one rider.
pub open spec fn rider_block(slug_esc: Seq<char>, r: RiderMetrics) -> Seq<char> {
    let l = rider_labels(slug_esc, r);
    let dist = match r.distance {
        Some(d) => gauge_line("madcap_rider_distance_km"@, l, d.text@),
        None => Seq::empty(),
    };
    dist + opt_gauge_line("madcap_rider_cactus_delta_km"@, l, r.cactus_delta) + opt_gauge_line("madcap_rider_speed_kmh"@, l, r.speed) + opt_gauge_line(
        "madcap_rider_overall_rank"@,
        l,
        r.overall_rank,
    ) + opt_gauge_line("madcap_rider_category_rank"@, l, r.category_rank) + opt_gauge_line(
        "madcap_rider_battery_pct"@,
        l,
        r.battery,
    ) + gauge_line(
        "madcap_rider_sleeping"@,
        l,
        if r.sleeping {
            seq!['1']
        } else {
            seq!['0']
        },
    ) + opt_gauge_line("madcap_rider_distance_to_next_cp_km"@, l, r.distance_to_next_cp)
}

/// The gauge lines of all riders, in order.
pub open spec fn riders_text(slug_esc: Seq<char>, rs: Seq<RiderMetrics>) -> Seq<char>
    decreases rs.len(),
{
    if rs.len() == 0 {
        Seq::empty()
    } else {
        riders_text(slug_esc, rs.drop_last()) + rider_block(slug_esc, rs.last())
    }
}

/// A rider who has withdrawn or been disqualified: status `DNF`, `DNS`, `SCRATCH`
/// or `DSQ`.
pub open spec fn is_withdrawn(r: RiderMetrics) -> bool {
    r.status@ == "DNF"@ || r.status@ == "DNS"@ || r.status@ == "SCRATCH"@ || r.status@ == "DSQ"@
}

/// The riders still in the race, in order: all but the withdrawn ones.
pub open spec fn racing(rs: Seq<RiderMetrics>) -> Seq<RiderMetrics>
    decreases rs.len(),
{
    if rs.len() == 0 {
        Seq::empty()
    } else {
        racing(rs.drop_last()) + if is_withdrawn(rs.last()) {
            Seq::empty()
        } else {
            seq![rs.last()]
        }
    }
}

/// A rider counts as active with any ping, or with status `REGISTERED` or `ACTIVE`.
pub open spec fn is_active(r: RiderMetrics) -> bool {
    r.has_ping || r.status@ == "REGISTERED"@ || r.status@ == "ACTIVE"@
}

/// How many riders satisfy `f`.
pub open spec fn count_riders(rs: Seq<RiderMetrics>, f: spec_fn(RiderMetrics) -> bool) -> nat
    decreases rs.len(),
{
    if rs.len() == 0 {
        0
    } else {
        count_riders(rs.drop_last(), f) + if f(rs.last()) {
            1nat
        } else {
            0nat
        }
    }
}

/// Riders counted as active.
pub open spec fn active_riders() -> spec_fn(RiderMetrics) -> bool {
    |r: RiderMetrics| is_active(r)
}

/// Riders flagged sleeping.
pub open spec fn sleeping_riders() -> spec_fn(RiderMetrics) -> bool {
    |r: RiderMetrics| r.sleeping
}

/// Riders with a distance above zero.
pub open spec fn started_riders() -> spec_fn(RiderMetrics) -> bool {
    |r: RiderMetrics| r.distance matches Some(d) && d.started
}

/// Riders within half a kilometre of the course total.
pub open spec fn finished_riders() -> spec_fn(RiderMetrics) -> bool {
    |r: RiderMetrics| r.distance matches Some(d) && d.finished
}

/// The race metrics of an event, over the riders still racing (withdrawn riders
/// are left out of every count and get no gauges): course total, the cactus
/// pacer's position when known, participant count, the riders' gauges, then the
/// counts of active, sleeping, started and finished riders.
pub open spec fn race_text(slug: Seq<char>, info: RaceInfo, all: Seq<RiderMetrics>) -> Seq<char> {
    let e = event_labels(spec_esc_label(slug));
    let rs = racing(all);
    gauge_line("madcap_event_total_km"@, e, info.total_km@) + opt_gauge_line(
        "madcap_event_cactus_km"@,
        e,
        info.cactus_km,
    ) + gauge_line("madcap_event_participants"@, e, decimal(rs.len())) + riders_text(
        spec_esc_label(slug),
        rs,
    ) + gauge_line(
        "madcap_event_active"@,
        e,
        decimal(count_riders(rs, active_riders())),
    ) + gauge_line(
        "madcap_event_sleeping"@,
        e,
        decimal(count_riders(rs, sleeping_riders())),
    ) + gauge_line(
        "madcap_event_started"@,
        e,
        decimal(count_riders(rs, started_riders())),
    ) + gauge_line(
        "madcap_event_finished"@,
        e,
        decimal(count_riders(rs, finished_riders())),
    )
}

/// The race is over at `now` (unix seconds): its end date parses to a time before
/// `now`.
pub open spec fn race_over(info: RaceInfo, now: int) -> bool {
    info.end_date matches Some(e) && spec_parse_iso_utc(e@) matches Some(end) && now > end
}

/// Appends `metric{labels} value` and a newline.
fn push_gauge(out: &mut String, metric: &str, labels: &str, value: &str)
    ensures
        final(out)@ == old(out)@ + gauge_line(metric@, labels@, value@),
{
    out.append(metric);
    out.push('{');
    out.append(labels);
    out.push('}');
    out.push(' ');
    out.append(value);
    out.push('\n');
}

fn push_opt_gauge(out: &mut String, metric: &str, labels: &str, value: &Option<String>)
    ensures
        final(out)@ == old(out)@ + opt_gauge_line(metric@, labels@, *value),
{
    match value {
        Some(v) => push_gauge(out, metric, labels, v.as_str()),
        None => {},
    }
}

fn decimal_string(n: u128) -> (r: String)
    ensures
        r@ == decimal(n as nat),
{
    let mut r = String::new();
    push_decimal(&mut r, n);
    r
}

fn build_rider_labels(slug_esc: &str, r: &RiderMetrics) -> (l: String)
    ensures
        l@ == rider_labels(slug_esc@, *r),
{
    let mut raw = String::new();
    raw.append(r.first_name.as_str());
    raw.push(' ');
    raw.append(r.last_name.as_str());
    assert(raw@ =~= r.first_name@ + seq![' '] + r.last_name@);
    let name = trim(raw.as_str());
    assert(name@ == rider_name(*r));
    let mut l = String::new();
    l.append("slug=\"");
    l.append(slug_esc);
    l.append("\",bib=\"");
    l.append(esc_label(r.bib.as_str()).as_str());
    l.append("\",name=\"");
    l.append(esc_label(name.as_str()).as_str());
    l.append("\",category=\"");
    l.append(esc_label(r.category.as_str()).as_str());
    l.push('"');
    assert(l@ =~= rider_labels(slug_esc@, *r));
    l
}

#[verifier::rlimit(40)]
fn push_rider_block(out: &mut String, slug_esc: &str, r: &RiderMetrics)
    ensures
        final(out)@ == old(out)@ + rider_block(slug_esc@, *r),
{
    let l = build_rider_labels(slug_esc, r);
    let labels = l.as_str();
    match &r.distance {
        Some(d) => push_gauge(out, "madcap_rider_distance_km", labels, d.text.as_str()),
        None => {},
    }
    push_opt_gauge(out, "madcap_rider_cactus_delta_km", labels, &r.cactus_delta);
    push_opt_gauge(out, "madcap_rider_speed_kmh", labels, &r.speed);
    push_opt_gauge(out, "madcap_rider_overall_rank", labels, &r.overall_rank);
    push_opt_gauge(out, "madcap_rider_category_rank", labels, &r.category_rank);
    push_opt_gauge(out, "madcap_rider_battery_pct", labels, &r.battery);
    proof {
        reveal_strlit("1");
        reveal_strlit("0");
    }
    push_gauge(out, "madcap_rider_sleeping", labels, if r.sleeping { "1" } else { "0" });
    push_opt_gauge(out, "madcap_rider_distance_to_next_cp_km", labels, &r.distance_to_next_cp);
}

/// No count of riders exceeds the number of riders, so the event counts never
/// exceed the participant count.
pub proof fn lemma_count_bound(rs: Seq<RiderMetrics>, f: spec_fn(RiderMetrics) -> bool)
    ensures
        count_riders(rs, f) <= rs.len(),
    decreases rs.len(),
{
    if rs.len() > 0 {
        lemma_count_bound(rs.drop_last(), f);
    }
}

/// Riders still racing are never more than the riders.
pub proof fn lemma_racing_len(rs: Seq<RiderMetrics>)
    ensures
        racing(rs).len() <= rs.len(),
    decreases rs.len(),
{
    if rs.len() > 0 {
        lemma_racing_len(rs.drop_last());
    }
}

/// Whether the rider has withdrawn or been disqualified.
fn withdrawn(r: &RiderMetrics) -> (b: bool)
    ensures
        b == is_withdrawn(*r),
{
    let st = r.status.as_str();
    same_text(st, "DNF") || same_text(st, "DNS") || same_text(st, "SCRATCH") || same_text(st, "DSQ")
}

/// The cactus pacer's progress as a fraction `elapsed / span` of the event: both
/// dates parse, the start comes before the end, `span` is the event's length in
/// seconds and `elapsed` the seconds since the start at `now`, clamped to
/// `0..=span`.
pub open spec fn spec_cactus_fraction(start: Option<String>, end: Option<String>, now: int) -> Option<
    (int, int),
> {
    match (start, end) {
        (Some(s), Some(e)) => match (spec_parse_iso_utc(s@), spec_parse_iso_utc(e@)) {
            (Some(st), Some(en)) => if st < en {
                let span = en - st;
                let el = now - st;
                Some(
                    (
                        if el < 0 {
                            0
                        } else if el > span {
                            span
                        } else {
                            el
                        },
                        span,
                    ),
                )
            } else {
                None
            },
            _ => None,
        },
        _ => None,
    }
}

/// The cactus pacer's progress at `now` as `(elapsed, span)` in seconds (see
/// `spec_cactus_fraction`); `None` when a date is missing or does not parse, or
/// the event does not end after it starts. The pacer stands at
/// `elapsed / span` of the course total.
pub fn cactus_fraction(start: &Option<String>, end: &Option<String>, now: i64) -> (r: Option<(i128, i128)>)
    requires
        start matches Some(s) ==> iso_in_range(s@),
        end matches Some(e) ==> iso_in_range(e@),
    ensures
        r matches Some((el, span)) ==> spec_cactus_fraction(*start, *end, now as int) == Some(
            (el as int, span as int),
        ),
        r is None ==> spec_cactus_fraction(*start, *end, now as int) is None,
{
    let (s, e) = match (start, end) {
        (Some(s), Some(e)) => (s, e),
        _ => return None,
    };
    let st = match parse_iso_utc(s.as_str()) {
        Some(v) => v,
        None => return None,
    };
    let en = match parse_iso_utc(e.as_str()) {
        Some(v) => v,
        None => return None,
    };
    if st >= en {
        return None;
    }
    let span = en as i128 - st as i128;
    let el = now as i128 - st as i128;
    let clamped = if el < 0 {
        0
    } else if el > span {
        span
    } else {
        el
    };
    Some((clamped, span))
}

/// The Prometheus value lines (no HELP or TYPE lines) of an event's race: `None`
/// once the race is over at `now`, so that its series stop. Riders with status
/// `DNF`, `DNS`, `SCRATCH` or `DSQ` are left out.
pub fn render_event_race_metrics(slug: &str, info: &RaceInfo, riders: &Vec<RiderMetrics>, now: i64) -> (r:
    Option<String>)
    requires
        info.end_date matches Some(e) ==> iso_in_range(e@),
        riders.len() <= u32::MAX,
    ensures
        race_over(*info, now as int) ==> r is None,
        !race_over(*info, now as int) ==> (r matches Some(t) && t@ == race_text(slug@, *info, riders@)),
{
    match &info.end_date {
        Some(e) => match parse_iso_utc(e.as_str()) {
            Some(end_ts) => {
                if now > end_ts {
                    return None;
                }
            },
            None => {},
        },
        None => {},
    }
    let slug_esc = esc_label(slug);
    let mut e = String::new();
    e.append("slug=\"");
    e.append(slug_esc.as_str());
    e.push('"');
    assert(e@ =~= event_labels(spec_esc_label(slug@)));
    let mut body = String::new();
    let mut kept: u32 = 0;
    let mut active: u32 = 0;
    let mut sleeping_total: u32 = 0;
    let mut started: u32 = 0;
    let mut finished: u32 = 0;
    for i in 0..riders.len()
        invariant
            riders.len() <= u32::MAX,
            body@ == riders_text(spec_esc_label(slug@), racing(riders@.take(i as int))),
            slug_esc@ == spec_esc_label(slug@),
            kept == racing(riders@.take(i as int)).len(),
            active == count_riders(racing(riders@.take(i as int)), active_riders()),
            sleeping_total == count_riders(racing(riders@.take(i as int)), sleeping_riders()),
            started == count_riders(racing(riders@.take(i as int)), started_riders()),
            finished == count_riders(racing(riders@.take(i as int)), finished_riders()),
    {
        let p = &riders[i];
        let ghost prev = racing(riders@.take(i as int));
        proof {
            let t = riders@.take(i + 1);
            assert(t.drop_last() == riders@.take(i as int));
            assert(t.last() == *p);
            lemma_racing_len(riders@.take(i as int));
            lemma_count_bound(prev, active_riders());
            lemma_count_bound(prev, sleeping_riders());
            lemma_count_bound(prev, started_riders());
            lemma_count_bound(prev, finished_riders());
        }
        if withdrawn(p) {
            assert(racing(riders@.take(i + 1)) =~= prev);
        } else {
            let ghost next = prev + seq![*p];
            assert(racing(riders@.take(i + 1)) =~= next);
            assert(next.drop_last() =~= prev);
            assert(next.last() == *p);
            push_rider_block(&mut body, slug_esc.as_str(), p);
            kept = kept + 1;
            if p.has_ping || same_text(p.status.as_str(), "REGISTERED") || same_text(
                p.status.as_str(),
                "ACTIVE",
            ) {
                active = active + 1;
            }
            if p.sleeping {
                sleeping_total = sleeping_total + 1;
            }
            match &p.distance {
                Some(d) => {
                    if d.started {
                        started = started + 1;
                    }
                    if d.finished {
                        finished = finished + 1;
                    }
                },
                None => {},
            }
        }
    }
    assert(riders@.take(riders.len() as int) == riders@);
    let mut out = String::new();
    push_gauge(&mut out, "madcap_event_total_km", e.as_str(), info.total_km.as_str());
    push_opt_gauge(&mut out, "madcap_event_cactus_km", e.as_str(), &info.cactus_km);
    push_gauge(&mut out, "madcap_event_participants", e.as_str(), decimal_string(kept as u128).as_str());
    out.append(body.as_str());
    push_gauge(&mut out, "madcap_event_active", e.as_str(), decimal_string(active as u128).as_str());
    push_gauge(
        &mut out,
        "madcap_event_sleeping",
        e.as_str(),
        decimal_string(sleeping_total as u128).as_str(),
    );
    push_gauge(&mut out, "madcap_event_started", e.as_str(), decimal_string(started as u128).as_str());
    push_gauge(
        &mut out,
        "madcap_event_finished",
        e.as_str(),
        decimal_string(finished as u128).as_str(),
    );
    assert(out@ =~= race_text(slug@, *info, riders@));
    Some(out)
}

/// The server's own counters at the time of a scrape.
pub struct CounterValues {
    pub requests_event: u64,
    pub requests_events_list: u64,
    pub csv_exports: u64,
    pub responses_304: u64,
    pub refreshes: u64,
    pub upstream_errors: u64,
}

/// The gauges of one cached snapshot: its age in seconds as a gauge value, its
/// raw body size and the duration of the upstream refresh that produced it.
pub struct SnapshotGauges {
    pub age_seconds: String,
    pub body_bytes: u64,
    pub upstream_ms: u64,
}

/// One cached event: its slug, the gauges of its snapshot if it has one, and its
/// rendered race metrics if there are any.
pub struct CacheMetrics {
    pub slug: String,
    pub snapshot: Option<SnapshotGauges>,
    pub race_lines: Option<String>,
}

/// The gauges of the cached events list.
pub struct ListGauges {
    pub age_seconds: String,
    pub body_bytes: u64,
}

/// The HELP/TYPE header of the request counter.
pub open spec fn requests_help() -> Seq<char> {
    "# HELP madcap_fast_requests_total Total API requests handled\n"@ + "# TYPE madcap_fast_requests_total counter\n"@
}

/// The HELP/TYPE header of the per-slug cache gauges.
pub open spec fn cache_help() -> Seq<char> {
    "# HELP madcap_fast_cache_age_seconds Age of the cached snapshot per slug\n"@ + "# TYPE madcap_fast_cache_age_seconds gauge\n"@ + "# HELP madcap_fast_cache_body_bytes Raw JSON body size per cached slug\n"@ + "# TYPE madcap_fast_cache_body_bytes gauge\n"@ + "# HELP madcap_fast_upstream_last_ms Last upstream refresh duration per slug\n"@ + "# TYPE madcap_fast_upstream_last_ms gauge\n"@
}

/// The HELP/TYPE headers of the race metrics.
pub open spec fn race_help() -> Seq<char> {
    "# HELP madcap_event_total_km Advertised total course distance in km (parsed from info.distance)\n"@ + "# TYPE madcap_event_total_km gauge\n"@ + "# HELP madcap_event_cactus_km Virtual cactus pacer position in km (elapsed fraction of event time x total km)\n"@ + "# TYPE madcap_event_cactus_km gauge\n"@ + "# HELP madcap_event_participants Participant count in the event\n"@ + "# TYPE madcap_event_participants gauge\n"@ + "# HELP madcap_event_active Riders with any ping or REGISTERED/ACTIVE status\n"@ + "# TYPE madcap_event_active gauge\n"@ + "# HELP madcap_event_sleeping Riders currently flagged sleeping\n"@ + "# TYPE madcap_event_sleeping gauge\n"@ + "# HELP madcap_event_started Riders with non-zero distance\n"@ + "# TYPE madcap_event_started gauge\n"@ + "# HELP madcap_event_finished Riders within 0.5 km of the course total\n"@ + "# TYPE madcap_event_finished gauge\n"@ + "# HELP madcap_rider_distance_km Distance covered by the rider in km\n"@ + "# TYPE madcap_rider_distance_km gauge\n"@ + "# HELP madcap_rider_cactus_delta_km Rider distance minus the cactus pacer position in km (positive = ahead)\n"@ + "# TYPE madcap_rider_cactus_delta_km gauge\n"@ + "# HELP madcap_rider_speed_kmh Current reported speed in km/h\n"@ + "# TYPE madcap_rider_speed_kmh gauge\n"@ + "# HELP madcap_rider_overall_rank Overall rank (1 = leader)\n"@ + "# TYPE madcap_rider_overall_rank gauge\n"@ + "# HELP madcap_rider_category_rank Rank within the rider's category\n"@ + "# TYPE madcap_rider_category_rank gauge\n"@ + "# HELP madcap_rider_battery_pct Tracker battery percentage\n"@ + "# TYPE madcap_rider_battery_pct gauge\n"@ + "# HELP madcap_rider_sleeping 1 if the rider is currently flagged sleeping, else 0\n"@ + "# TYPE madcap_rider_sleeping gauge\n"@ + "# HELP madcap_rider_distance_to_next_cp_km Straight-line distance to the next checkpoint\n"@ + "# TYPE madcap_rider_distance_to_next_cp_km gauge\n"@
}

/// `prefix` followed by `n` in decimal and a newline.
pub open spec fn value_line(prefix: Seq<char>, n: nat) -> Seq<char> {
    prefix + decimal(n) + seq!['\n']
}

/// The HELP/TYPE header of the 304 counter.
pub open spec fn not_modified_help() -> Seq<char> {
    "# HELP madcap_fast_responses_not_modified_total Total 304 responses\n"@ + "# TYPE madcap_fast_responses_not_modified_total counter\n"@
}

/// The HELP/TYPE header of the refresh counter.
pub open spec fn refreshes_help() -> Seq<char> {
    "# HELP madcap_fast_upstream_refreshes_total Successful upstream refreshes\n"@ + "# TYPE madcap_fast_upstream_refreshes_total counter\n"@
}

/// The HELP/TYPE header of the upstream error counter.
pub open spec fn errors_help() -> Seq<char> {
    "# HELP madcap_fast_upstream_errors_total Upstream refresh failures\n"@ + "# TYPE madcap_fast_upstream_errors_total counter\n"@
}

/// The counter part of the metrics page.
pub open spec fn counters_text(c: CounterValues) -> Seq<char> {
    requests_help() + value_line("madcap_fast_requests_total{path=\"event\"} "@, c.requests_event as nat)
        + value_line(
        "madcap_fast_requests_total{path=\"events_list\"} "@,
        c.requests_events_list as nat,
    ) + value_line("madcap_fast_requests_total{path=\"csv\"} "@, c.csv_exports as nat)
        + not_modified_help() + value_line(
        "madcap_fast_responses_not_modified_total "@,
        c.responses_304 as nat,
    ) + refreshes_help() + value_line("madcap_fast_upstream_refreshes_total "@, c.refreshes as nat)
        + errors_help() + value_line("madcap_fast_upstream_errors_total "@, c.upstream_errors as nat)
}

/// The gauge lines of one cached event's snapshot, if it has one.
pub open spec fn cache_lines(m: CacheMetrics) -> Seq<char> {
    match m.snapshot {
        Some(g) => gauge_line("madcap_fast_cache_age_seconds"@, "slug=\""@ + m.slug@ + seq!['"'], g.age_seconds@)
            + gauge_line(
            "madcap_fast_cache_body_bytes"@,
            "slug=\""@ + m.slug@ + seq!['"'],
            decimal(g.body_bytes as nat),
        ) + gauge_line(
            "madcap_fast_upstream_last_ms"@,
            "slug=\""@ + m.slug@ + seq!['"'],
            decimal(g.upstream_ms as nat),
        ),
        None => Seq::empty(),
    }
}

/// The snapshot gauges of all cached events, in order.
pub open spec fn caches_text(cs: Seq<CacheMetrics>) -> Seq<char>
    decreases cs.len(),
{
    if cs.len() == 0 {
        Seq::empty()
    } else {
        caches_text(cs.drop_last()) + cache_lines(cs.last())
    }
}

/// The race metrics of all cached events that have them, in order.
pub open spec fn race_blocks(cs: Seq<CacheMetrics>) -> Seq<char>
    decreases cs.len(),
{
    if cs.len() == 0 {
        Seq::empty()
    } else {
        race_blocks(cs.drop_last()) + match cs.last().race_lines {
            Some(t) => t@,
            None => Seq::empty(),
        }
    }
}

/// The gauges of the events list, if it is cached.
pub open spec fn list_text(l: Option<ListGauges>) -> Seq<char> {
    match l {
        Some(g) => "madcap_fast_events_list_cache_age_seconds "@ + g.age_seconds@ + seq!['\n']
            + value_line("madcap_fast_events_list_cache_body_bytes "@, g.body_bytes as nat),
        None => Seq::empty(),
    }
}

/// The whole metrics page.
pub open spec fn metrics_text(c: CounterValues, cs: Seq<CacheMetrics>, l: Option<ListGauges>) -> Seq<
    char,
> {
    counters_text(c) + cache_help() + caches_text(cs) + list_text(l) + race_help() + race_blocks(cs)
}

/// All the HELP and TYPE lines of the metrics page, in order.
pub open spec fn metrics_headers() -> Seq<char> {
    requests_help() + not_modified_help() + refreshes_help() + errors_help() + cache_help() + race_help()
}

/// `s` holds no newline.
pub open spec fn no_newline(s: Seq<char>) -> bool {
    forall|i: int| 0 <= i < s.len() ==> s[i] != '\n'
}

/// No line of `t` starts with `#`.
pub open spec fn no_comment_starts(t: Seq<char>) -> bool {
    forall|i: int| 0 <= i < t.len() && (i == 0 || t[i - 1] == '\n') ==> #[trigger] t[i] != '#'
}

/// `t` is made of whole lines: it is empty or ends with a newline.
pub open spec fn whole_lines(t: Seq<char>) -> bool {
    t.len() == 0 || t.last() == '\n'
}

/// Where the first line of `t` ends, its newline included.
pub open spec fn first_line_end(t: Seq<char>) -> int {
    match spec_find_char(t, '\n') {
        Some(i) => i + 1,
        None => t.len() as int,
    }
}

/// The lines of `t` that start with `#` (HELP and TYPE lines), in order, each
/// with its newline.
#[verifier::opaque]
pub open spec fn comment_lines(t: Seq<char>) -> Seq<Seq<char>>
    decreases t.len(),
{
    if t.len() == 0 {
        Seq::empty()
    } else {
        proof {
            lemma_find_char(t, '\n');
        }
        let e = first_line_end(t);
        (if t[0] == '#' {
            seq![t.take(e)]
        } else {
            Seq::empty()
        }) + comment_lines(t.skip(e))
    }
}

proof fn lemma_comment_lines_append(a: Seq<char>, b: Seq<char>)
    requires
        whole_lines(a),
    ensures
        comment_lines(a + b) == comment_lines(a) + comment_lines(b),
    decreases a.len(),
{
    reveal(comment_lines);
    if a.len() == 0 {
        assert(a + b == b);
    } else {
        let u = a + b;
        lemma_find_char(a, '\n');
        let i = spec_find_char(a, '\n')->0;
        assert forall|j: int| 0 <= j < i implies u[j] != '\n' by {
            assert(u[j] == a[j]);
        }
        assert(u[i] == a[i]);
        lemma_find_char_at(u, '\n', i);
        let e = i + 1;
        assert(first_line_end(u) == e);
        assert(first_line_end(a) == e);
        assert(u.take(e) == a.take(e));
        assert(u.skip(e) == a.skip(e) + b);
        assert(u[0] == a[0]);
        let r = a.skip(e);
        if r.len() > 0 {
            assert(r.last() == a.last());
        }
        lemma_comment_lines_append(r, b);
        let h = if a[0] == '#' {
            seq![a.take(e)]
        } else {
            Seq::<Seq<char>>::empty()
        };
        assert(comment_lines(u) == h + comment_lines(r + b));
        assert(comment_lines(a) == h + comment_lines(r));
        assert(h + (comment_lines(r) + comment_lines(b)) == (h + comment_lines(r)) + comment_lines(b));
    }
}

proof fn lemma_no_comment_lines(t: Seq<char>)
    requires
        no_comment_starts(t),
    ensures
        comment_lines(t) == Seq::<Seq<char>>::empty(),
    decreases t.len(),
{
    reveal(comment_lines);
    if t.len() > 0 {
        lemma_find_char(t, '\n');
        let e = first_line_end(t);
        let r = t.skip(e);
        assert forall|i: int| 0 <= i < r.len() && (i == 0 || r[i - 1] == '\n') implies #[trigger] r[i] != '#' by {
            assert(r[i] == t[i + e]);
            if i == 0 {
                assert(t[e - 1] == '\n');
            } else {
                assert(r[i - 1] == t[i + e - 1]);
            }
        }
        lemma_no_comment_lines(r);
        assert(t[0] != '#');
    }
}

proof fn lemma_no_comment_starts_append(a: Seq<char>, b: Seq<char>)
    requires
        no_comment_starts(a),
        no_comment_starts(b),
        whole_lines(a),
    ensures
        no_comment_starts(a + b),
        whole_lines(b) ==> whole_lines(a + b),
{
    let u = a + b;
    assert forall|i: int| 0 <= i < u.len() && (i == 0 || u[i - 1] == '\n') implies #[trigger] u[i] != '#' by {
        if i < a.len() {
            assert(u[i] == a[i]);
            if i > 0 {
                assert(u[i - 1] == a[i - 1]);
            }
        } else {
            assert(u[i] == b[i - a.len()]);
            if i > a.len() {
                assert(u[i - 1] == b[i - 1 - a.len()]);
            }
        }
    }
    if b.len() > 0 {
        assert(u.last() == b.last());
    } else {
        assert(u == a);
    }
}

/// A single line: no newline but the last character, and no `#` first.
proof fn lemma_single_line(x: Seq<char>)
    requires
        x.len() > 0,
        x[0] != '#',
        x.last() == '\n',
        forall|i: int| 0 <= i < x.len() - 1 ==> x[i] != '\n',
    ensures
        no_comment_starts(x),
        whole_lines(x),
{
}

proof fn lemma_gauge_line_plain(metric: Seq<char>, labels: Seq<char>, value: Seq<char>)
    requires
        metric.len() > 0,
        metric[0] != '#',
        no_newline(metric),
        no_newline(labels),
        no_newline(value),
    ensures
        no_comment_starts(gauge_line(metric, labels, value)),
        whole_lines(gauge_line(metric, labels, value)),
{
    let x = gauge_line(metric, labels, value);
    assert forall|i: int| 0 <= i < x.len() - 1 implies x[i] != '\n' by {
        let a = metric.len() as int;
        let b = a + 1 + labels.len();
        if i < a {
            assert(x[i] == metric[i]);
        } else if a < i < b {
            assert(x[i] == labels[i - a - 1]);
        } else if b + 2 <= i {
            assert(x[i] == value[i - b - 2]);
        }
    }
    assert(x[0] == metric[0]);
    lemma_single_line(x);
}

proof fn lemma_decimal_plain(n: nat)
    ensures
        no_newline(decimal(n)),
{
    lemma_digits_chars(n, 10);
    assert forall|i: int| 0 <= i < decimal(n).len() implies decimal(n)[i] != '\n' by {
        assert(is_digit(decimal(n)[i]));
    }
}

proof fn lemma_value_line_plain(prefix: Seq<char>, n: nat)
    requires
        prefix.len() > 0,
        prefix[0] != '#',
        no_newline(prefix),
    ensures
        no_comment_starts(value_line(prefix, n)),
        whole_lines(value_line(prefix, n)),
{
    let x = value_line(prefix, n);
    lemma_decimal_plain(n);
    assert forall|i: int| 0 <= i < x.len() - 1 implies x[i] != '\n' by {
        if i < prefix.len() {
            assert(x[i] == prefix[i]);
        } else {
            assert(x[i] == decimal(n)[i - prefix.len()]);
        }
    }
    assert(x[0] == prefix[0]);
    lemma_single_line(x);
}

proof fn lemma_slug_labels_plain(slug: Seq<char>)
    requires
        no_newline(slug),
    ensures
        no_newline("slug=\""@ + slug + seq!['"']),
{
    reveal_strlit("slug=\"");
    let x = "slug=\""@ + slug + seq!['"'];
    assert forall|i: int| 0 <= i < x.len() implies x[i] != '\n' by {
        if 6 <= i < 6 + slug.len() {
            assert(x[i] == slug[i - 6]);
        }
    }
}

proof fn lemma_cache_names()
    ensures
        "madcap_fast_cache_age_seconds"@.len() > 0 && "madcap_fast_cache_age_seconds"@[0] != '#'
            && no_newline("madcap_fast_cache_age_seconds"@),
        "madcap_fast_cache_body_bytes"@.len() > 0 && "madcap_fast_cache_body_bytes"@[0] != '#'
            && no_newline("madcap_fast_cache_body_bytes"@),
        "madcap_fast_upstream_last_ms"@.len() > 0 && "madcap_fast_upstream_last_ms"@[0] != '#'
            && no_newline("madcap_fast_upstream_last_ms"@),
{
    reveal_strlit("madcap_fast_cache_age_seconds");
    reveal_strlit("madcap_fast_cache_body_bytes");
    reveal_strlit("madcap_fast_upstream_last_ms");
}

proof fn lemma_cache_lines_plain(m: CacheMetrics)
    requires
        no_newline(m.slug@),
        m.snapshot matches Some(g) ==> no_newline(g.age_seconds@),
    ensures
        no_comment_starts(cache_lines(m)),
        whole_lines(cache_lines(m)),
{
    match m.snapshot {
        Some(g) => {
            let l = "slug=\""@ + m.slug@ + seq!['"'];
            lemma_slug_labels_plain(m.slug@);
            lemma_cache_names();
            lemma_decimal_plain(g.body_bytes as nat);
            lemma_decimal_plain(g.upstream_ms as nat);
            let g1 = gauge_line("madcap_fast_cache_age_seconds"@, l, g.age_seconds@);
            let g2 = gauge_line("madcap_fast_cache_body_bytes"@, l, decimal(g.body_bytes as nat));
            let g3 = gauge_line("madcap_fast_upstream_last_ms"@, l, decimal(g.upstream_ms as nat));
            lemma_gauge_line_plain("madcap_fast_cache_age_seconds"@, l, g.age_seconds@);
            lemma_gauge_line_plain("madcap_fast_cache_body_bytes"@, l, decimal(g.body_bytes as nat));
            lemma_gauge_line_plain("madcap_fast_upstream_last_ms"@, l, decimal(g.upstream_ms as nat));
            lemma_no_comment_starts_append(g1, g2);
            lemma_no_comment_starts_append(g1 + g2, g3);
            assert(cache_lines(m) == g1 + g2 + g3);
        },
        None => {},
    }
}

proof fn lemma_caches_text_plain(cs: Seq<CacheMetrics>)
    requires
        forall|k: int| 0 <= k < cs.len() ==> no_newline((#[trigger] cs[k]).slug@),
        forall|k: int|
            0 <= k < cs.len() ==> ((#[trigger] cs[k]).snapshot matches Some(g) ==> no_newline(g.age_seconds@)),
    ensures
        no_comment_starts(caches_text(cs)),
        whole_lines(caches_text(cs)),
    decreases cs.len(),
{
    if cs.len() > 0 {
        let d = cs.drop_last();
        assert forall|k: int| 0 <= k < d.len() implies no_newline((#[trigger] d[k]).slug@) by {
            assert(d[k] == cs[k]);
        }
        assert forall|k: int| 0 <= k < d.len() implies ((#[trigger] d[k]).snapshot matches Some(g)
            ==> no_newline(g.age_seconds@)) by {
            assert(d[k] == cs[k]);
        }
        lemma_caches_text_plain(d);
        let m = cs.last();
        assert(m == cs[cs.len() - 1]);
        lemma_cache_lines_plain(m);
        lemma_no_comment_starts_append(caches_text(d), cache_lines(m));
    }
}

proof fn lemma_race_blocks_plain(cs: Seq<CacheMetrics>)
    requires
        forall|k: int|
            0 <= k < cs.len() ==> ((#[trigger] cs[k]).race_lines matches Some(t) ==> no_comment_starts(t@)
                && whole_lines(t@)),
    ensures
        no_comment_starts(race_blocks(cs)),
        whole_lines(race_blocks(cs)),
    decreases cs.len(),
{
    if cs.len() > 0 {
        let d = cs.drop_last();
        assert forall|k: int| 0 <= k < d.len() implies ((#[trigger] d[k]).race_lines matches Some(t)
            ==> no_comment_starts(t@) && whole_lines(t@)) by {
            assert(d[k] == cs[k]);
        }
        lemma_race_blocks_plain(d);
        assert(cs.last() == cs[cs.len() - 1]);
        match cs.last().race_lines {
            Some(t) => {
                lemma_no_comment_starts_append(race_blocks(d), t@);
            },
            None => {
                assert(race_blocks(d) + Seq::<char>::empty() == race_blocks(d));
            },
        }
    }
}

/// A single line that starts with `#`.
pub(crate) proof fn lemma_comment_line(x: Seq<char>)
    requires
        x.len() > 0,
        x[0] == '#',
        x.last() == '\n',
        forall|j: int| 0 <= j < x.len() - 1 ==> x[j] != '\n',
    ensures
        comment_lines(x) == seq![x],
        whole_lines(x),
{
    reveal(comment_lines);
    lemma_find_char_at(x, '\n', x.len() - 1);
    assert(x.take(x.len() as int) == x);
    assert(x.skip(x.len() as int) == Seq::<char>::empty());
    assert(comment_lines(Seq::<char>::empty()) == Seq::<Seq<char>>::empty());
    assert(seq![x] + Seq::<Seq<char>>::empty() == seq![x]);
}

pub(crate) proof fn lemma_cl_step(x: Seq<char>, y: Seq<char>)
    requires
        whole_lines(x),
        whole_lines(y),
    ensures
        comment_lines(x + y) == comment_lines(x) + comment_lines(y),
        whole_lines(x + y),
{
    lemma_comment_lines_append(x, y);
    if y.len() > 0 {
        assert((x + y).last() == y.last());
    } else {
        assert(x + y == x);
    }
}

proof fn lemma_plain_step(x: Seq<char>, y: Seq<char>)
    requires
        whole_lines(x),
        whole_lines(y),
        no_comment_starts(y),
    ensures
        comment_lines(x + y) == comment_lines(x),
        whole_lines(x + y),
{
    lemma_cl_step(x, y);
    lemma_no_comment_lines(y);
    assert(comment_lines(x) + Seq::<Seq<char>>::empty() == comment_lines(x));
}

proof fn lemma_counter_names()
    ensures
        ({
            let n = "madcap_fast_requests_total{path=\"event\"} "@;
            n.len() > 0 && n[0] != '#' && no_newline(n)
        }),
        ({
            let n = "madcap_fast_requests_total{path=\"events_list\"} "@;
            n.len() > 0 && n[0] != '#' && no_newline(n)
        }),
        ({
            let n = "madcap_fast_requests_total{path=\"csv\"} "@;
            n.len() > 0 && n[0] != '#' && no_newline(n)
        }),
        ({
            let n = "madcap_fast_responses_not_modified_total "@;
            n.len() > 0 && n[0] != '#' && no_newline(n)
        }),
        ({
            let n = "madcap_fast_upstream_refreshes_total "@;
            n.len() > 0 && n[0] != '#' && no_newline(n)
        }),
        ({
            let n = "madcap_fast_upstream_errors_total "@;
            n.len() > 0 && n[0] != '#' && no_newline(n)
        }),
        ({
            let n = "madcap_fast_events_list_cache_age_seconds "@;
            n.len() > 0 && n[0] != '#' && no_newline(n)
        }),
        ({
            let n = "madcap_fast_events_list_cache_body_bytes "@;
            n.len() > 0 && n[0] != '#' && no_newline(n)
        }),
{
    reveal_strlit("madcap_fast_requests_total{path=\"event\"} ");
    reveal_strlit("madcap_fast_requests_total{path=\"events_list\"} ");
    reveal_strlit("madcap_fast_requests_total{path=\"csv\"} ");
    reveal_strlit("madcap_fast_responses_not_modified_total ");
    reveal_strlit("madcap_fast_upstream_refreshes_total ");
    reveal_strlit("madcap_fast_upstream_errors_total ");
    reveal_strlit("madcap_fast_events_list_cache_age_seconds ");
    reveal_strlit("madcap_fast_events_list_cache_body_bytes ");
}

proof fn lemma_headers_whole()
    ensures
        whole_lines(requests_help()),
        whole_lines(not_modified_help()),
        whole_lines(refreshes_help()),
        whole_lines(errors_help()),
        whole_lines(cache_help()),
        whole_lines(race_help()),
{
    lemma_requests_help_lines();
    lemma_not_modified_help_lines();
    lemma_refreshes_help_lines();
    lemma_errors_help_lines();
    lemma_cache_help_lines();
    lemma_race_help_lines();
}

/// The HELP/TYPE lines of the fixed headers are `header_lines()`.
proof fn lemma_metrics_headers_lines()
    ensures
        comment_lines(metrics_headers()) == header_lines(),
{
    lemma_requests_help_lines();
    lemma_not_modified_help_lines();
    lemma_refreshes_help_lines();
    lemma_errors_help_lines();
    lemma_cache_help_lines();
    lemma_race_help_lines();
    let h1 = requests_help();
    let h2 = not_modified_help();
    let h3 = refreshes_help();
    let h4 = errors_help();
    let h5 = cache_help();
    let h6 = race_help();
    lemma_cl_step(h1, h2);
    lemma_cl_step(h1 + h2, h3);
    lemma_cl_step(h1 + h2 + h3, h4);
    lemma_cl_step(h1 + h2 + h3 + h4, h5);
    lemma_cl_step(h1 + h2 + h3 + h4 + h5, h6);
    assert(comment_lines(metrics_headers()) =~= header_lines());
}

proof fn lemma_counters_comment_lines(c: CounterValues)
    ensures
        whole_lines(counters_text(c)),
        comment_lines(counters_text(c)) == comment_lines(
            requests_help() + not_modified_help() + refreshes_help() + errors_help(),
        ),
{
    lemma_counter_names();
    lemma_headers_whole();
    let v1 = value_line("madcap_fast_requests_total{path=\"event\"} "@, c.requests_event as nat);
    let v2 = value_line("madcap_fast_requests_total{path=\"events_list\"} "@, c.requests_events_list as nat);
    let v3 = value_line("madcap_fast_requests_total{path=\"csv\"} "@, c.csv_exports as nat);
    let v4 = value_line("madcap_fast_responses_not_modified_total "@, c.responses_304 as nat);
    let v5 = value_line("madcap_fast_upstream_refreshes_total "@, c.refreshes as nat);
    let v6 = value_line("madcap_fast_upstream_errors_total "@, c.upstream_errors as nat);
    lemma_value_line_plain("madcap_fast_requests_total{path=\"event\"} "@, c.requests_event as nat);
    lemma_value_line_plain(
        "madcap_fast_requests_total{path=\"events_list\"} "@,
        c.requests_events_list as nat,
    );
    lemma_value_line_plain("madcap_fast_requests_total{path=\"csv\"} "@, c.csv_exports as nat);
    lemma_value_line_plain("madcap_fast_responses_not_modified_total "@, c.responses_304 as nat);
    lemma_value_line_plain("madcap_fast_upstream_refreshes_total "@, c.refreshes as nat);
    lemma_value_line_plain("madcap_fast_upstream_errors_total "@, c.upstream_errors as nat);
    let h1 = requests_help();
    let h2 = not_modified_help();
    let h3 = refreshes_help();
    let h4 = errors_help();
    let x1 = h1 + v1;
    lemma_plain_step(h1, v1);
    let x2 = x1 + v2;
    lemma_plain_step(x1, v2);
    let x3 = x2 + v3;
    lemma_plain_step(x2, v3);
    let x4 = x3 + h2;
    lemma_cl_step(x3, h2);
    let x5 = x4 + v4;
    lemma_plain_step(x4, v4);
    let x6 = x5 + h3;
    lemma_cl_step(x5, h3);
    let x7 = x6 + v5;
    lemma_plain_step(x6, v5);
    let x8 = x7 + h4;
    lemma_cl_step(x7, h4);
    let x9 = x8 + v6;
    lemma_plain_step(x8, v6);
    assert(counters_text(c) == x9);
    let y2 = h1 + h2;
    lemma_cl_step(h1, h2);
    let y3 = y2 + h3;
    lemma_cl_step(y2, h3);
    lemma_cl_step(y3, h4);
}

/// Each HELP and TYPE line of the metrics page occurs once, whatever the number
/// of cached events: the page's `#` lines are those of the fixed headers, in
/// order, provided the slugs and age texts hold no newline and every event's race
/// lines are whole lines none of which starts with `#`. The race lines come after
/// all of them, at the end of the page.
pub proof fn lemma_metrics_headers_once(c: CounterValues, cs: Seq<CacheMetrics>, l: Option<ListGauges>)
    requires
        forall|k: int| 0 <= k < cs.len() ==> no_newline((#[trigger] cs[k]).slug@),
        forall|k: int|
            0 <= k < cs.len() ==> ((#[trigger] cs[k]).snapshot matches Some(g) ==> no_newline(g.age_seconds@)),
        forall|k: int|
            0 <= k < cs.len() ==> ((#[trigger] cs[k]).race_lines matches Some(t) ==> no_comment_starts(t@)
                && whole_lines(t@)),
        l matches Some(g) ==> no_newline(g.age_seconds@),
    ensures
        comment_lines(metrics_text(c, cs, l)) == comment_lines(metrics_headers()),
        comment_lines(metrics_text(c, cs, l)) == header_lines(),
        header_lines().no_duplicates(),
        metrics_text(c, cs, l) == (counters_text(c) + cache_help() + caches_text(cs) + list_text(l)
            + race_help()) + race_blocks(cs),
{
    let ct = counters_text(c);
    let ch = cache_help();
    let xt = caches_text(cs);
    let lt = list_text(l);
    let rh = race_help();
    let rb = race_blocks(cs);
    lemma_headers_whole();
    lemma_counter_names();
    lemma_counters_comment_lines(c);
    lemma_caches_text_plain(cs);
    lemma_race_blocks_plain(cs);
    match l {
        Some(g) => {
            let p = "madcap_fast_events_list_cache_age_seconds "@;
            let a = p + g.age_seconds@ + seq!['\n'];
            assert forall|i: int| 0 <= i < a.len() - 1 implies a[i] != '\n' by {
                if i < p.len() {
                    assert(a[i] == p[i]);
                } else {
                    assert(a[i] == g.age_seconds@[i - p.len()]);
                }
            }
            assert(a[0] == p[0]);
            lemma_single_line(a);
            let b = value_line("madcap_fast_events_list_cache_body_bytes "@, g.body_bytes as nat);
            lemma_value_line_plain("madcap_fast_events_list_cache_body_bytes "@, g.body_bytes as nat);
            lemma_no_comment_starts_append(a, b);
            assert(lt == a + b);
        },
        None => {},
    }
    let x1 = ct + ch;
    lemma_cl_step(ct, ch);
    let x2 = x1 + xt;
    lemma_plain_step(x1, xt);
    let x3 = x2 + lt;
    lemma_plain_step(x2, lt);
    let x4 = x3 + rh;
    lemma_cl_step(x3, rh);
    lemma_plain_step(x4, rb);
    assert(metrics_text(c, cs, l) == x4 + rb);
    let hc = requests_help() + not_modified_help() + refreshes_help() + errors_help();
    lemma_cl_step(requests_help(), not_modified_help());
    lemma_cl_step(requests_help() + not_modified_help(), refreshes_help());
    lemma_cl_step(requests_help() + not_modified_help() + refreshes_help(), errors_help());
    let y1 = hc + ch;
    lemma_cl_step(hc, ch);
    lemma_cl_step(y1, rh);
    assert(metrics_headers() == y1 + rh);
    lemma_metrics_headers_lines();
    lemma_header_lines_distinct();
}

/// The value texts of a rider hold no newline.
pub open spec fn rider_values_plain(r: RiderMetrics) -> bool {
    &&& (r.distance matches Some(d) ==> no_newline(d.text@))
    &&& (r.cactus_delta matches Some(v) ==> no_newline(v@))
    &&& (r.speed matches Some(v) ==> no_newline(v@))
    &&& (r.overall_rank matches Some(v) ==> no_newline(v@))
    &&& (r.category_rank matches Some(v) ==> no_newline(v@))
    &&& (r.battery matches Some(v) ==> no_newline(v@))
    &&& (r.distance_to_next_cp matches Some(v) ==> no_newline(v@))
}

/// A metric name fit to start a gauge line.
pub open spec fn plain_name(n: Seq<char>) -> bool {
    n.len() > 0 && n[0] != '#' && no_newline(n)
}

proof fn lemma_rider_names()
    ensures
        plain_name("madcap_rider_distance_km"@),
        plain_name("madcap_rider_cactus_delta_km"@),
        plain_name("madcap_rider_speed_kmh"@),
        plain_name("madcap_rider_overall_rank"@),
        plain_name("madcap_rider_category_rank"@),
        plain_name("madcap_rider_battery_pct"@),
        plain_name("madcap_rider_sleeping"@),
        plain_name("madcap_rider_distance_to_next_cp_km"@),
{
    reveal_strlit("madcap_rider_distance_km");
    reveal_strlit("madcap_rider_cactus_delta_km");
    reveal_strlit("madcap_rider_speed_kmh");
    reveal_strlit("madcap_rider_overall_rank");
    reveal_strlit("madcap_rider_category_rank");
    reveal_strlit("madcap_rider_battery_pct");
    reveal_strlit("madcap_rider_sleeping");
    reveal_strlit("madcap_rider_distance_to_next_cp_km");
}

proof fn lemma_event_names()
    ensures
        plain_name("madcap_event_total_km"@),
        plain_name("madcap_event_cactus_km"@),
        plain_name("madcap_event_participants"@),
        plain_name("madcap_event_active"@),
        plain_name("madcap_event_sleeping"@),
        plain_name("madcap_event_started"@),
        plain_name("madcap_event_finished"@),
{
    reveal_strlit("madcap_event_total_km");
    reveal_strlit("madcap_event_cactus_km");
    reveal_strlit("madcap_event_participants");
    reveal_strlit("madcap_event_active");
    reveal_strlit("madcap_event_sleeping");
    reveal_strlit("madcap_event_started");
    reveal_strlit("madcap_event_finished");
}

proof fn lemma_esc_plain(x: Seq<char>)
    ensures
        no_newline(spec_esc_label(x)),
{
    lemma_esc_label_roundtrip(x);
}

proof fn lemma_concat_plain(a: Seq<char>, b: Seq<char>)
    requires
        no_newline(a),
        no_newline(b),
    ensures
        no_newline(a + b),
{
    assert forall|i: int| 0 <= i < (a + b).len() implies (a + b)[i] != '\n' by {
        if i < a.len() {
            assert((a + b)[i] == a[i]);
        } else {
            assert((a + b)[i] == b[i - a.len()]);
        }
    }
}

proof fn lemma_label_parts_plain()
    ensures
        no_newline("slug=\""@),
        no_newline("\",bib=\""@),
        no_newline("\",name=\""@),
        no_newline("\",category=\""@),
        no_newline(seq!['"']),
{
    reveal_strlit("slug=\"");
    reveal_strlit("\",bib=\"");
    reveal_strlit("\",name=\"");
    reveal_strlit("\",category=\"");
}

proof fn lemma_rider_labels_plain(slug_esc: Seq<char>, r: RiderMetrics)
    requires
        no_newline(slug_esc),
    ensures
        no_newline(rider_labels(slug_esc, r)),
{
    lemma_label_parts_plain();
    lemma_esc_plain(r.bib@);
    lemma_esc_plain(rider_name(r));
    lemma_esc_plain(r.category@);
    let p1 = "slug=\""@ + slug_esc;
    lemma_concat_plain("slug=\""@, slug_esc);
    let p2 = p1 + "\",bib=\""@;
    lemma_concat_plain(p1, "\",bib=\""@);
    let p3 = p2 + spec_esc_label(r.bib@);
    lemma_concat_plain(p2, spec_esc_label(r.bib@));
    let p4 = p3 + "\",name=\""@;
    lemma_concat_plain(p3, "\",name=\""@);
    let p5 = p4 + spec_esc_label(rider_name(r));
    lemma_concat_plain(p4, spec_esc_label(rider_name(r)));
    let p6 = p5 + "\",category=\""@;
    lemma_concat_plain(p5, "\",category=\""@);
    let p7 = p6 + spec_esc_label(r.category@);
    lemma_concat_plain(p6, spec_esc_label(r.category@));
    lemma_concat_plain(p7, seq!['"']);
    assert(rider_labels(slug_esc, r) == p7 + seq!['"']);
}

proof fn lemma_opt_gauge_plain(metric: Seq<char>, labels: Seq<char>, value: Option<String>)
    requires
        plain_name(metric),
        no_newline(labels),
        value matches Some(v) ==> no_newline(v@),
    ensures
        no_comment_starts(opt_gauge_line(metric, labels, value)),
        whole_lines(opt_gauge_line(metric, labels, value)),
{
    match value {
        Some(v) => lemma_gauge_line_plain(metric, labels, v@),
        None => {},
    }
}

proof fn lemma_lines_step(x: Seq<char>, y: Seq<char>)
    requires
        no_comment_starts(x),
        whole_lines(x),
        no_comment_starts(y),
        whole_lines(y),
    ensures
        no_comment_starts(x + y),
        whole_lines(x + y),
{
    lemma_no_comment_starts_append(x, y);
}

proof fn lemma_rider_block_plain(slug_esc: Seq<char>, r: RiderMetrics)
    requires
        no_newline(slug_esc),
        rider_values_plain(r),
    ensures
        no_comment_starts(rider_block(slug_esc, r)),
        whole_lines(rider_block(slug_esc, r)),
{
    let l = rider_labels(slug_esc, r);
    lemma_rider_labels_plain(slug_esc, r);
    lemma_rider_names();
    let dist = match r.distance {
        Some(d) => gauge_line("madcap_rider_distance_km"@, l, d.text@),
        None => Seq::empty(),
    };
    match r.distance {
        Some(d) => lemma_gauge_line_plain("madcap_rider_distance_km"@, l, d.text@),
        None => {},
    }
    let g1 = opt_gauge_line("madcap_rider_cactus_delta_km"@, l, r.cactus_delta);
    let g2 = opt_gauge_line("madcap_rider_speed_kmh"@, l, r.speed);
    let g3 = opt_gauge_line("madcap_rider_overall_rank"@, l, r.overall_rank);
    let g4 = opt_gauge_line("madcap_rider_category_rank"@, l, r.category_rank);
    let g5 = opt_gauge_line("madcap_rider_battery_pct"@, l, r.battery);
    let sv = if r.sleeping {
        seq!['1']
    } else {
        seq!['0']
    };
    let g6 = gauge_line("madcap_rider_sleeping"@, l, sv);
    let g7 = opt_gauge_line("madcap_rider_distance_to_next_cp_km"@, l, r.distance_to_next_cp);
    lemma_opt_gauge_plain("madcap_rider_cactus_delta_km"@, l, r.cactus_delta);
    lemma_opt_gauge_plain("madcap_rider_speed_kmh"@, l, r.speed);
    lemma_opt_gauge_plain("madcap_rider_overall_rank"@, l, r.overall_rank);
    lemma_opt_gauge_plain("madcap_rider_category_rank"@, l, r.category_rank);
    lemma_opt_gauge_plain("madcap_rider_battery_pct"@, l, r.battery);
    assert(no_newline(sv));
    lemma_gauge_line_plain("madcap_rider_sleeping"@, l, sv);
    lemma_opt_gauge_plain("madcap_rider_distance_to_next_cp_km"@, l, r.distance_to_next_cp);
    lemma_lines_step(dist, g1);
    lemma_lines_step(dist + g1, g2);
    lemma_lines_step(dist + g1 + g2, g3);
    lemma_lines_step(dist + g1 + g2 + g3, g4);
    lemma_lines_step(dist + g1 + g2 + g3 + g4, g5);
    lemma_lines_step(dist + g1 + g2 + g3 + g4 + g5, g6);
    lemma_lines_step(dist + g1 + g2 + g3 + g4 + g5 + g6, g7);
    assert(rider_block(slug_esc, r) == dist + g1 + g2 + g3 + g4 + g5 + g6 + g7);
}

proof fn lemma_riders_text_plain(slug_esc: Seq<char>, rs: Seq<RiderMetrics>)
    requires
        no_newline(slug_esc),
        forall|k: int| 0 <= k < rs.len() ==> rider_values_plain(#[trigger] rs[k]),
    ensures
        no_comment_starts(riders_text(slug_esc, rs)),
        whole_lines(riders_text(slug_esc, rs)),
    decreases rs.len(),
{
    if rs.len() > 0 {
        let d = rs.drop_last();
        assert forall|k: int| 0 <= k < d.len() implies rider_values_plain(#[trigger] d[k]) by {
            assert(d[k] == rs[k]);
        }
        lemma_riders_text_plain(slug_esc, d);
        assert(rs.last() == rs[rs.len() - 1]);
        lemma_rider_block_plain(slug_esc, rs.last());
        lemma_lines_step(riders_text(slug_esc, d), rider_block(slug_esc, rs.last()));
    }
}

proof fn lemma_racing_members(rs: Seq<RiderMetrics>)
    ensures
        forall|k: int| 0 <= k < racing(rs).len() ==> rs.contains(#[trigger] racing(rs)[k]),
    decreases rs.len(),
{
    if rs.len() > 0 {
        let d = rs.drop_last();
        lemma_racing_members(d);
        let p = racing(d);
        let q = racing(rs);
        assert forall|k: int| 0 <= k < q.len() implies rs.contains(#[trigger] q[k]) by {
            if k < p.len() {
                assert(q[k] == p[k]);
                assert(d.contains(p[k]));
                let j = choose|j: int| 0 <= j < d.len() && d[j] == p[k];
                assert(rs[j] == d[j]);
            } else {
                assert(q[k] == rs.last());
                assert(rs[rs.len() - 1] == rs.last());
            }
        }
    }
}

/// The race metrics of an event are whole lines, none of which starts with `#`,
/// when the value texts hold no newline; so they fit the metrics page's
/// HELP/TYPE structure (see `lemma_metrics_headers_once`).
pub proof fn lemma_race_text_plain(slug: Seq<char>, info: RaceInfo, rs: Seq<RiderMetrics>)
    requires
        no_newline(info.total_km@),
        info.cactus_km matches Some(v) ==> no_newline(v@),
        forall|k: int| 0 <= k < rs.len() ==> rider_values_plain(#[trigger] rs[k]),
    ensures
        no_comment_starts(race_text(slug, info, rs)),
        whole_lines(race_text(slug, info, rs)),
{
    let se = spec_esc_label(slug);
    let e = event_labels(se);
    let kept = racing(rs);
    lemma_esc_plain(slug);
    lemma_label_parts_plain();
    lemma_concat_plain("slug=\""@, se);
    lemma_concat_plain("slug=\""@ + se, seq!['"']);
    lemma_event_names();
    lemma_racing_members(rs);
    assert forall|k: int| 0 <= k < kept.len() implies rider_values_plain(#[trigger] kept[k]) by {
        assert(rs.contains(kept[k]));
        let j = choose|j: int| 0 <= j < rs.len() && rs[j] == kept[k];
        assert(rider_values_plain(rs[j]));
    }
    lemma_riders_text_plain(se, kept);
    lemma_decimal_plain(kept.len());
    lemma_decimal_plain(count_riders(kept, active_riders()));
    lemma_decimal_plain(count_riders(kept, sleeping_riders()));
    lemma_decimal_plain(count_riders(kept, started_riders()));
    lemma_decimal_plain(count_riders(kept, finished_riders()));
    let t1 = gauge_line("madcap_event_total_km"@, e, info.total_km@);
    let t2 = opt_gauge_line("madcap_event_cactus_km"@, e, info.cactus_km);
    let t3 = gauge_line("madcap_event_participants"@, e, decimal(kept.len()));
    let t4 = riders_text(se, kept);
    let t5 = gauge_line("madcap_event_active"@, e, decimal(count_riders(kept, active_riders())));
    let t6 = gauge_line("madcap_event_sleeping"@, e, decimal(count_riders(kept, sleeping_riders())));
    let t7 = gauge_line("madcap_event_started"@, e, decimal(count_riders(kept, started_riders())));
    let t8 = gauge_line("madcap_event_finished"@, e, decimal(count_riders(kept, finished_riders())));
    lemma_gauge_line_plain("madcap_event_total_km"@, e, info.total_km@);
    lemma_opt_gauge_plain("madcap_event_cactus_km"@, e, info.cactus_km);
    lemma_gauge_line_plain("madcap_event_participants"@, e, decimal(kept.len()));
    lemma_gauge_line_plain("madcap_event_active"@, e, decimal(count_riders(kept, active_riders())));
    lemma_gauge_line_plain("madcap_event_sleeping"@, e, decimal(count_riders(kept, sleeping_riders())));
    lemma_gauge_line_plain("madcap_event_started"@, e, decimal(count_riders(kept, started_riders())));
    lemma_gauge_line_plain("madcap_event_finished"@, e, decimal(count_riders(kept, finished_riders())));
    lemma_lines_step(t1, t2);
    lemma_lines_step(t1 + t2, t3);
    lemma_lines_step(t1 + t2 + t3, t4);
    lemma_lines_step(t1 + t2 + t3 + t4, t5);
    lemma_lines_step(t1 + t2 + t3 + t4 + t5, t6);
    lemma_lines_step(t1 + t2 + t3 + t4 + t5 + t6, t7);
    lemma_lines_step(t1 + t2 + t3 + t4 + t5 + t6 + t7, t8);
    assert(race_text(slug, info, rs) == t1 + t2 + t3 + t4 + t5 + t6 + t7 + t8);
}


/// The cache gauges of a run of cached events are those of its parts, one after
/// the other.
pub proof fn lemma_caches_text_append(a: Seq<CacheMetrics>, b: Seq<CacheMetrics>)
    ensures
        caches_text(a + b) == caches_text(a) + caches_text(b),
    decreases b.len(),
{
    if b.len() == 0 {
        assert(a + b == a);
    } else {
        assert((a + b).drop_last() == a + b.drop_last());
        assert((a + b).last() == b.last());
        lemma_caches_text_append(a, b.drop_last());
    }
}

/// The three cache gauge lines of a cached event, written out.
proof fn lemma_cache_lines_text(m: CacheMetrics)
    requires
        m.snapshot is Some,
    ensures
        ({
            let g = m.snapshot->0;
            cache_lines(m) == "madcap_fast_cache_age_seconds{slug=\""@ + m.slug@ + "\"} "@ + g.age_seconds@
                + "\n"@ + "madcap_fast_cache_body_bytes{slug=\""@ + m.slug@ + "\"} "@ + decimal(
                g.body_bytes as nat,
            ) + "\n"@ + "madcap_fast_upstream_last_ms{slug=\""@ + m.slug@ + "\"} "@ + decimal(
                g.upstream_ms as nat,
            ) + "\n"@
        }),
{
    reveal_strlit("madcap_fast_cache_age_seconds{slug=\"");
    reveal_strlit("madcap_fast_cache_body_bytes{slug=\"");
    reveal_strlit("madcap_fast_upstream_last_ms{slug=\"");
    reveal_strlit("madcap_fast_cache_age_seconds");
    reveal_strlit("madcap_fast_cache_body_bytes");
    reveal_strlit("madcap_fast_upstream_last_ms");
    reveal_strlit("slug=\"");
    reveal_strlit("\"} ");
    reveal_strlit("\n");
    let g = m.snapshot->0;
    assert(cache_lines(m) =~= "madcap_fast_cache_age_seconds{slug=\""@ + m.slug@ + "\"} "@ + g.age_seconds@
        + "\n"@ + "madcap_fast_cache_body_bytes{slug=\""@ + m.slug@ + "\"} "@ + decimal(g.body_bytes as nat)
        + "\n"@ + "madcap_fast_upstream_last_ms{slug=\""@ + m.slug@ + "\"} "@ + decimal(g.upstream_ms as nat)
        + "\n"@);
}

/// Every cached event that has a snapshot gets its cache gauges on the metrics
/// page: its age, body size and upstream time, labelled with its slug, as three
/// consecutive lines.
#[verifier::rlimit(60)]
pub proof fn lemma_metrics_lists_every_cache(
    c: CounterValues,
    cs: Seq<CacheMetrics>,
    l: Option<ListGauges>,
    k: int,
)
    requires
        0 <= k < cs.len(),
        cs[k].snapshot is Some,
    ensures
        ({
            let m = cs[k];
            let g = m.snapshot->0;
            occurs_in(
                metrics_text(c, cs, l),
                "madcap_fast_cache_age_seconds{slug=\""@ + m.slug@ + "\"} "@ + g.age_seconds@ + "\n"@
                    + "madcap_fast_cache_body_bytes{slug=\""@ + m.slug@ + "\"} "@ + decimal(g.body_bytes as nat)
                    + "\n"@ + "madcap_fast_upstream_last_ms{slug=\""@ + m.slug@ + "\"} "@ + decimal(
                    g.upstream_ms as nat,
                ) + "\n"@,
            )
        }),
{
    let a = cs.take(k);
    let b = cs.skip(k + 1);
    let x = seq![cs[k]];
    assert(cs == a + x + b);
    lemma_caches_text_append(a + x, b);
    lemma_caches_text_append(a, x);
    assert(x.drop_last() == Seq::<CacheMetrics>::empty());
    assert(caches_text(x) == caches_text(Seq::<CacheMetrics>::empty()) + cache_lines(cs[k]));
    assert(caches_text(x) == cache_lines(cs[k]));
    lemma_cache_lines_text(cs[k]);
    let blk = cache_lines(cs[k]);
    let pre = counters_text(c) + cache_help() + caches_text(a);
    let t = metrics_text(c, cs, l);
    let post = caches_text(b) + list_text(l) + race_help() + race_blocks(cs);
    assert(caches_text(cs) == caches_text(a) + blk + caches_text(b));
    assert(t =~= pre + blk + post);
    let i = pre.len() as int;
    assert(t.subrange(i, i + blk.len()) =~= blk);
}

proof fn lemma_count_is_filter(xs: Seq<RiderMetrics>, f: spec_fn(RiderMetrics) -> bool)
    ensures
        count_riders(xs, f) == xs.filter(f).len(),
    decreases xs.len(),
{
    reveal(Seq::filter);
    if xs.len() > 0 {
        lemma_count_is_filter(xs.drop_last(), f);
    }
}

/// The riders still in the race are exactly those whose status is none of `DNF`,
/// `DNS`, `SCRATCH` and `DSQ`, in their order.
pub proof fn lemma_racing_riders(rs: Seq<RiderMetrics>)
    ensures
        racing(rs) == rs.filter(
            |r: RiderMetrics|
                !(r.status@ == "DNF"@ || r.status@ == "DNS"@ || r.status@ == "SCRATCH"@ || r.status@ == "DSQ"@),
        ),
    decreases rs.len(),
{
    reveal(Seq::filter);
    if rs.len() > 0 {
        lemma_racing_riders(rs.drop_last());
    }
}

/// An event gauge line, written out: `metric{slug="<slug>"} value`.
proof fn lemma_event_line(metric: Seq<char>, brace: Seq<char>, slug_esc: Seq<char>, value: Seq<char>)
    requires
        brace == metric + seq!['{'],
    ensures
        gauge_line(metric, event_labels(slug_esc), value) == brace + "slug=\""@ + slug_esc + "\"} "@ + value
            + "\n"@,
{
    reveal_strlit("\"} ");
    reveal_strlit("\n");
    assert(gauge_line(metric, event_labels(slug_esc), value) =~= brace + "slug=\""@ + slug_esc + "\"} "@
        + value + "\n"@);
}

proof fn lemma_event_braces()
    ensures
        "madcap_event_total_km{"@ == "madcap_event_total_km"@ + seq!['{'],
        "madcap_event_cactus_km{"@ == "madcap_event_cactus_km"@ + seq!['{'],
        "madcap_event_participants{"@ == "madcap_event_participants"@ + seq!['{'],
        "madcap_event_active{"@ == "madcap_event_active"@ + seq!['{'],
        "madcap_event_sleeping{"@ == "madcap_event_sleeping"@ + seq!['{'],
        "madcap_event_started{"@ == "madcap_event_started"@ + seq!['{'],
        "madcap_event_finished{"@ == "madcap_event_finished"@ + seq!['{'],
{
    reveal_strlit("madcap_event_total_km{");
    reveal_strlit("madcap_event_total_km");
    reveal_strlit("madcap_event_cactus_km{");
    reveal_strlit("madcap_event_cactus_km");
    reveal_strlit("madcap_event_participants{");
    reveal_strlit("madcap_event_participants");
    reveal_strlit("madcap_event_active{");
    reveal_strlit("madcap_event_active");
    reveal_strlit("madcap_event_sleeping{");
    reveal_strlit("madcap_event_sleeping");
    reveal_strlit("madcap_event_started{");
    reveal_strlit("madcap_event_started");
    reveal_strlit("madcap_event_finished{");
    reveal_strlit("madcap_event_finished");
    assert("madcap_event_total_km{"@ =~= "madcap_event_total_km"@ + seq!['{']);
    assert("madcap_event_cactus_km{"@ =~= "madcap_event_cactus_km"@ + seq!['{']);
    assert("madcap_event_participants{"@ =~= "madcap_event_participants"@ + seq!['{']);
    assert("madcap_event_active{"@ =~= "madcap_event_active"@ + seq!['{']);
    assert("madcap_event_sleeping{"@ =~= "madcap_event_sleeping"@ + seq!['{']);
    assert("madcap_event_started{"@ =~= "madcap_event_started"@ + seq!['{']);
    assert("madcap_event_finished{"@ =~= "madcap_event_finished"@ + seq!['{']);
}

/// An event gauge line as the laws below spell it.
pub open spec fn event_line(brace: Seq<char>, slug: Seq<char>, value: Seq<char>) -> Seq<char> {
    brace + "slug=\""@ + spec_esc_label(slug) + "\"} "@ + value + "\n"@
}

/// What the race metrics say of the event, over the riders whose status is none
/// of `DNF`, `DNS`, `SCRATCH` and `DSQ`: the course total, the cactus position
/// when known, the number of such riders, then (after the riders' own gauges)
/// how many of them are active (a ping, or status `REGISTERED` or `ACTIVE`),
/// flagged sleeping, started, and finished, each counted on its own flag
/// whatever the others are.
pub proof fn lemma_race_event_counts(slug: Seq<char>, info: RaceInfo, rs: Seq<RiderMetrics>)
    ensures
        ({
            let kept = rs.filter(
                |r: RiderMetrics|
                    !(r.status@ == "DNF"@ || r.status@ == "DNS"@ || r.status@ == "SCRATCH"@ || r.status@
                        == "DSQ"@),
            );
            let t = race_text(slug, info, rs);
            let head = event_line("madcap_event_total_km{"@, slug, info.total_km@) + match info.cactus_km {
                Some(v) => event_line("madcap_event_cactus_km{"@, slug, v@),
                None => Seq::<char>::empty(),
            } + event_line("madcap_event_participants{"@, slug, decimal(kept.len()));
            let tail = event_line(
                "madcap_event_active{"@,
                slug,
                decimal(
                    kept.filter(
                        |r: RiderMetrics| r.has_ping || r.status@ == "REGISTERED"@ || r.status@ == "ACTIVE"@,
                    ).len(),
                ),
            ) + event_line("madcap_event_sleeping{"@, slug, decimal(kept.filter(|r: RiderMetrics| r.sleeping).len()))
                + event_line(
                "madcap_event_started{"@,
                slug,
                decimal(kept.filter(|r: RiderMetrics| r.distance matches Some(d) && d.started).len()),
            ) + event_line(
                "madcap_event_finished{"@,
                slug,
                decimal(kept.filter(|r: RiderMetrics| r.distance matches Some(d) && d.finished).len()),
            );
            &&& t.len() >= head.len() + tail.len()
            &&& t.take(head.len() as int) == head
            &&& t.skip(t.len() - tail.len()) == tail
        }),
{
    let se = spec_esc_label(slug);
    let e = event_labels(se);
    let kept = racing(rs);
    lemma_racing_riders(rs);
    lemma_event_braces();
    let fa = |r: RiderMetrics| r.has_ping || r.status@ == "REGISTERED"@ || r.status@ == "ACTIVE"@;
    let fs = |r: RiderMetrics| r.sleeping;
    let fst = |r: RiderMetrics| r.distance matches Some(d) && d.started;
    let ff = |r: RiderMetrics| r.distance matches Some(d) && d.finished;
    assert(active_riders() =~= fa);
    assert(sleeping_riders() =~= fs);
    assert(started_riders() =~= fst);
    assert(finished_riders() =~= ff);
    lemma_count_is_filter(kept, active_riders());
    lemma_count_is_filter(kept, sleeping_riders());
    lemma_count_is_filter(kept, started_riders());
    lemma_count_is_filter(kept, finished_riders());
    let na = decimal(count_riders(kept, active_riders()));
    let ns = decimal(count_riders(kept, sleeping_riders()));
    let nst = decimal(count_riders(kept, started_riders()));
    let nf = decimal(count_riders(kept, finished_riders()));
    lemma_event_line("madcap_event_total_km"@, "madcap_event_total_km{"@, se, info.total_km@);
    lemma_event_line("madcap_event_participants"@, "madcap_event_participants{"@, se, decimal(kept.len()));
    lemma_event_line("madcap_event_active"@, "madcap_event_active{"@, se, na);
    lemma_event_line("madcap_event_sleeping"@, "madcap_event_sleeping{"@, se, ns);
    lemma_event_line("madcap_event_started"@, "madcap_event_started{"@, se, nst);
    lemma_event_line("madcap_event_finished"@, "madcap_event_finished{"@, se, nf);
    match info.cactus_km {
        Some(v) => {
            lemma_event_line("madcap_event_cactus_km"@, "madcap_event_cactus_km{"@, se, v@);
        },
        None => {},
    }
    let m = riders_text(se, kept);
    let t = race_text(slug, info, rs);
    let head = event_line("madcap_event_total_km{"@, slug, info.total_km@) + match info.cactus_km {
        Some(v) => event_line("madcap_event_cactus_km{"@, slug, v@),
        None => Seq::<char>::empty(),
    } + event_line("madcap_event_participants{"@, slug, decimal(kept.len()));
    let tail = event_line("madcap_event_active{"@, slug, na) + event_line("madcap_event_sleeping{"@, slug, ns)
        + event_line("madcap_event_started{"@, slug, nst) + event_line("madcap_event_finished{"@, slug, nf);
    assert(t =~= head + m + tail);
    assert(t.take(head.len() as int) =~= head);
    assert(t.skip(t.len() - tail.len()) =~= tail);
}

/// The riders' gauges of a run of riders are those of its parts, one after the
/// other.
pub proof fn lemma_riders_text_append(se: Seq<char>, a: Seq<RiderMetrics>, b: Seq<RiderMetrics>)
    ensures
        riders_text(se, a + b) == riders_text(se, a) + riders_text(se, b),
    decreases b.len(),
{
    if b.len() == 0 {
        assert(a + b == a);
    } else {
        assert((a + b).drop_last() == a + b.drop_last());
        assert((a + b).last() == b.last());
        lemma_riders_text_append(se, a, b.drop_last());
    }
}

proof fn lemma_gauge_line_text(metric: Seq<char>, brace: Seq<char>, labels: Seq<char>, value: Seq<char>)
    requires
        brace == metric + seq!['{'],
    ensures
        gauge_line(metric, labels, value) == brace + labels + "} "@ + value + "\n"@,
{
    reveal_strlit("} ");
    reveal_strlit("\n");
    assert(gauge_line(metric, labels, value) =~= brace + labels + "} "@ + value + "\n"@);
}

proof fn lemma_rider_braces()
    ensures
        "madcap_rider_distance_km{"@ == "madcap_rider_distance_km"@ + seq!['{'],
        "madcap_rider_cactus_delta_km{"@ == "madcap_rider_cactus_delta_km"@ + seq!['{'],
        "madcap_rider_speed_kmh{"@ == "madcap_rider_speed_kmh"@ + seq!['{'],
        "madcap_rider_overall_rank{"@ == "madcap_rider_overall_rank"@ + seq!['{'],
        "madcap_rider_category_rank{"@ == "madcap_rider_category_rank"@ + seq!['{'],
        "madcap_rider_battery_pct{"@ == "madcap_rider_battery_pct"@ + seq!['{'],
        "madcap_rider_sleeping{"@ == "madcap_rider_sleeping"@ + seq!['{'],
        "madcap_rider_distance_to_next_cp_km{"@ == "madcap_rider_distance_to_next_cp_km"@ + seq!['{'],
        "1"@ == seq!['1'],
        "0"@ == seq!['0'],
{
    reveal_strlit("madcap_rider_distance_km{");
    reveal_strlit("madcap_rider_distance_km");
    reveal_strlit("madcap_rider_cactus_delta_km{");
    reveal_strlit("madcap_rider_cactus_delta_km");
    reveal_strlit("madcap_rider_speed_kmh{");
    reveal_strlit("madcap_rider_speed_kmh");
    reveal_strlit("madcap_rider_overall_rank{");
    reveal_strlit("madcap_rider_overall_rank");
    reveal_strlit("madcap_rider_category_rank{");
    reveal_strlit("madcap_rider_category_rank");
    reveal_strlit("madcap_rider_battery_pct{");
    reveal_strlit("madcap_rider_battery_pct");
    reveal_strlit("madcap_rider_sleeping{");
    reveal_strlit("madcap_rider_sleeping");
    reveal_strlit("madcap_rider_distance_to_next_cp_km{");
    reveal_strlit("madcap_rider_distance_to_next_cp_km");
    reveal_strlit("1");
    reveal_strlit("0");
    assert("madcap_rider_distance_km{"@ =~= "madcap_rider_distance_km"@ + seq!['{']);
    assert("madcap_rider_cactus_delta_km{"@ =~= "madcap_rider_cactus_delta_km"@ + seq!['{']);
    assert("madcap_rider_speed_kmh{"@ =~= "madcap_rider_speed_kmh"@ + seq!['{']);
    assert("madcap_rider_overall_rank{"@ =~= "madcap_rider_overall_rank"@ + seq!['{']);
    assert("madcap_rider_category_rank{"@ =~= "madcap_rider_category_rank"@ + seq!['{']);
    assert("madcap_rider_battery_pct{"@ =~= "madcap_rider_battery_pct"@ + seq!['{']);
    assert("madcap_rider_sleeping{"@ =~= "madcap_rider_sleeping"@ + seq!['{']);
    assert("madcap_rider_distance_to_next_cp_km{"@ =~= "madcap_rider_distance_to_next_cp_km"@ + seq!['{']);
    assert("1"@ =~= seq!['1']);
    assert("0"@ =~= seq!['0']);
}

/// A rider's label set as the laws below spell it: slug, bib, trimmed "first
/// last" name and category, each escaped.
pub open spec fn labels_of(slug: Seq<char>, r: RiderMetrics) -> Seq<char> {
    "slug=\""@ + spec_esc_label(slug) + "\",bib=\""@ + spec_esc_label(r.bib@) + "\",name=\""@
        + spec_esc_label(trim_ws(r.first_name@ + " "@ + r.last_name@)) + "\",category=\""@ + spec_esc_label(
        r.category@,
    ) + "\""@
}

/// A rider gauge line as the laws below spell it, present only with a value.
pub open spec fn rider_line(brace: Seq<char>, labels: Seq<char>, value: Option<String>) -> Seq<char> {
    match value {
        Some(v) => brace + labels + "} "@ + v@ + "\n"@,
        None => Seq::empty(),
    }
}

/// A rider's gauge lines as the laws below spell them: distance, cactus delta,
/// speed, overall and category ranks and battery when known, whether it is
/// sleeping (1 or 0), and distance to the next checkpoint when known.
pub open spec fn rider_lines_of(slug: Seq<char>, r: RiderMetrics) -> Seq<char> {
    let l = labels_of(slug, r);
    (match r.distance {
        Some(d) => "madcap_rider_distance_km{"@ + l + "} "@ + d.text@ + "\n"@,
        None => Seq::<char>::empty(),
    }) + rider_line("madcap_rider_cactus_delta_km{"@, l, r.cactus_delta) + rider_line(
        "madcap_rider_speed_kmh{"@,
        l,
        r.speed,
    ) + rider_line("madcap_rider_overall_rank{"@, l, r.overall_rank) + rider_line(
        "madcap_rider_category_rank{"@,
        l,
        r.category_rank,
    ) + rider_line("madcap_rider_battery_pct{"@, l, r.battery) + ("madcap_rider_sleeping{"@ + l + "} "@
        + (if r.sleeping {
        "1"@
    } else {
        "0"@
    }) + "\n"@) + rider_line("madcap_rider_distance_to_next_cp_km{"@, l, r.distance_to_next_cp)
}

proof fn lemma_labels_of(slug: Seq<char>, r: RiderMetrics)
    ensures
        rider_labels(spec_esc_label(slug), r) == labels_of(slug, r),
{
    reveal_strlit(" ");
    reveal_strlit("\"");
    assert(" "@ =~= seq![' ']);
    assert("\""@ =~= seq!['"']);
    assert(r.first_name@ + " "@ + r.last_name@ =~= r.first_name@ + seq![' '] + r.last_name@);
    assert(rider_labels(spec_esc_label(slug), r) =~= labels_of(slug, r));
}

proof fn lemma_opt_line(metric: Seq<char>, brace: Seq<char>, labels: Seq<char>, value: Option<String>)
    requires
        brace == metric + seq!['{'],
    ensures
        opt_gauge_line(metric, labels, value) == rider_line(brace, labels, value),
{
    match value {
        Some(v) => lemma_gauge_line_text(metric, brace, labels, v@),
        None => {},
    }
}

proof fn lemma_rider_block_text(slug: Seq<char>, r: RiderMetrics)
    ensures
        rider_block(spec_esc_label(slug), r) == rider_lines_of(slug, r),
{
    let se = spec_esc_label(slug);
    let l = labels_of(slug, r);
    lemma_labels_of(slug, r);
    lemma_rider_braces();
    let sv = if r.sleeping {
        seq!['1']
    } else {
        seq!['0']
    };
    lemma_gauge_line_text("madcap_rider_sleeping"@, "madcap_rider_sleeping{"@, l, sv);
    match r.distance {
        Some(d) => lemma_gauge_line_text("madcap_rider_distance_km"@, "madcap_rider_distance_km{"@, l, d.text@),
        None => {},
    }
    lemma_opt_line("madcap_rider_cactus_delta_km"@, "madcap_rider_cactus_delta_km{"@, l, r.cactus_delta);
    lemma_opt_line("madcap_rider_speed_kmh"@, "madcap_rider_speed_kmh{"@, l, r.speed);
    lemma_opt_line("madcap_rider_overall_rank"@, "madcap_rider_overall_rank{"@, l, r.overall_rank);
    lemma_opt_line("madcap_rider_category_rank"@, "madcap_rider_category_rank{"@, l, r.category_rank);
    lemma_opt_line("madcap_rider_battery_pct"@, "madcap_rider_battery_pct{"@, l, r.battery);
    lemma_opt_line(
        "madcap_rider_distance_to_next_cp_km"@,
        "madcap_rider_distance_to_next_cp_km{"@,
        l,
        r.distance_to_next_cp,
    );
    assert(rider_labels(se, r) == l);
}

proof fn lemma_block_in_riders_text(se: Seq<char>, kept: Seq<RiderMetrics>, j: int)
    requires
        0 <= j < kept.len(),
    ensures
        riders_text(se, kept) == riders_text(se, kept.take(j)) + rider_block(se, kept[j]) + riders_text(
            se,
            kept.skip(j + 1),
        ),
{
    let a = kept.take(j);
    let b = kept.skip(j + 1);
    let x = seq![kept[j]];
    assert(kept == a + x + b);
    lemma_riders_text_append(se, a + x, b);
    lemma_riders_text_append(se, a, x);
    assert(x.drop_last() == Seq::<RiderMetrics>::empty());
    assert(riders_text(se, x) == riders_text(se, Seq::<RiderMetrics>::empty()) + rider_block(se, kept[j]));
    assert(riders_text(se, x) == rider_block(se, kept[j]));
}

/// Every rider still in the race (status none of `DNF`, `DNS`, `SCRATCH`, `DSQ`)
/// gets its block of gauges, labelled with the slug and its bib, name and
/// category: its distance, cactus delta, speed, overall and category ranks and
/// battery when known, whether it is sleeping, and its distance to the next
/// checkpoint when known.
pub proof fn lemma_race_lists_every_rider(slug: Seq<char>, info: RaceInfo, rs: Seq<RiderMetrics>, k: int)
    requires
        0 <= k < rs.len(),
        !(rs[k].status@ == "DNF"@ || rs[k].status@ == "DNS"@ || rs[k].status@ == "SCRATCH"@ || rs[k].status@
            == "DSQ"@),
    ensures
        occurs_in(race_text(slug, info, rs), rider_lines_of(slug, rs[k])),
{
    let r = rs[k];
    let se = spec_esc_label(slug);
    let pred = |x: RiderMetrics|
        !(x.status@ == "DNF"@ || x.status@ == "DNS"@ || x.status@ == "SCRATCH"@ || x.status@ == "DSQ"@);
    lemma_racing_riders(rs);
    rs.lemma_filter_contains(pred, k);
    let kept = racing(rs);
    assert(kept.contains(r));
    let j = choose|j: int| 0 <= j < kept.len() && kept[j] == r;
    lemma_block_in_riders_text(se, kept, j);
    lemma_rider_block_text(slug, r);
    let blk = rider_lines_of(slug, r);
    lemma_race_text_around_riders(slug, info, rs);
    lemma_occurs_split(
        race_head(slug, info, rs),
        riders_text(se, kept.take(j)),
        blk,
        riders_text(se, kept.skip(j + 1)),
        race_tail(slug, rs),
    );
}

/// The event lines before the riders' gauges.
spec fn race_head(slug: Seq<char>, info: RaceInfo, rs: Seq<RiderMetrics>) -> Seq<char> {
    let e = event_labels(spec_esc_label(slug));
    gauge_line("madcap_event_total_km"@, e, info.total_km@) + opt_gauge_line(
        "madcap_event_cactus_km"@,
        e,
        info.cactus_km,
    ) + gauge_line("madcap_event_participants"@, e, decimal(racing(rs).len()))
}

/// The event lines after the riders' gauges.
spec fn race_tail(slug: Seq<char>, rs: Seq<RiderMetrics>) -> Seq<char> {
    let e = event_labels(spec_esc_label(slug));
    let kept = racing(rs);
    gauge_line("madcap_event_active"@, e, decimal(count_riders(kept, active_riders()))) + gauge_line(
        "madcap_event_sleeping"@,
        e,
        decimal(count_riders(kept, sleeping_riders())),
    ) + gauge_line("madcap_event_started"@, e, decimal(count_riders(kept, started_riders()))) + gauge_line(
        "madcap_event_finished"@,
        e,
        decimal(count_riders(kept, finished_riders())),
    )
}

proof fn lemma_race_text_around_riders(slug: Seq<char>, info: RaceInfo, rs: Seq<RiderMetrics>)
    ensures
        race_text(slug, info, rs) == race_head(slug, info, rs) + riders_text(spec_esc_label(slug), racing(rs))
            + race_tail(slug, rs),
{
    assert(race_text(slug, info, rs) =~= race_head(slug, info, rs) + riders_text(
        spec_esc_label(slug),
        racing(rs),
    ) + race_tail(slug, rs));
}

proof fn lemma_occurs_split(p: Seq<char>, a: Seq<char>, x: Seq<char>, b: Seq<char>, q: Seq<char>)
    ensures
        occurs_in(p + (a + x + b) + q, x),
{
    let t = p + (a + x + b) + q;
    let i = (p.len() + a.len()) as int;
    assert(t.subrange(i, i + x.len()) =~= x);
}

/// The metrics page reports each counter under its own name: requests by path,
/// 304 responses, refreshes and upstream errors.
pub proof fn lemma_metrics_counters(c: CounterValues, cs: Seq<CacheMetrics>, l: Option<ListGauges>)
    ensures
        ({
            let t = metrics_text(c, cs, l);
            &&& occurs_in(t, "madcap_fast_requests_total{path=\"event\"} "@ + decimal(c.requests_event as nat) + seq!['\n'])
            &&& occurs_in(
                t,
                "madcap_fast_requests_total{path=\"events_list\"} "@ + decimal(c.requests_events_list as nat) + seq!['\n'],
            )
            &&& occurs_in(t, "madcap_fast_requests_total{path=\"csv\"} "@ + decimal(c.csv_exports as nat) + seq!['\n'])
            &&& occurs_in(t, "madcap_fast_responses_not_modified_total "@ + decimal(c.responses_304 as nat) + seq!['\n'])
            &&& occurs_in(t, "madcap_fast_upstream_refreshes_total "@ + decimal(c.refreshes as nat) + seq!['\n'])
            &&& occurs_in(t, "madcap_fast_upstream_errors_total "@ + decimal(c.upstream_errors as nat) + seq!['\n'])
        }),
{
    let v1 = value_line("madcap_fast_requests_total{path=\"event\"} "@, c.requests_event as nat);
    let v2 = value_line("madcap_fast_requests_total{path=\"events_list\"} "@, c.requests_events_list as nat);
    let v3 = value_line("madcap_fast_requests_total{path=\"csv\"} "@, c.csv_exports as nat);
    let v4 = value_line("madcap_fast_responses_not_modified_total "@, c.responses_304 as nat);
    let v5 = value_line("madcap_fast_upstream_refreshes_total "@, c.refreshes as nat);
    let v6 = value_line("madcap_fast_upstream_errors_total "@, c.upstream_errors as nat);
    let h1 = requests_help();
    let h2 = not_modified_help();
    let h3 = refreshes_help();
    let h4 = errors_help();
    lemma_occurs_self(v1);
    lemma_occurs_right(h1, v1, v1);
    lemma_occurs_left(h1 + v1, v2, v1);
    lemma_occurs_left(h1 + v1 + v2, v3, v1);
    lemma_occurs_left(h1 + v1 + v2 + v3, h2, v1);
    lemma_occurs_left(h1 + v1 + v2 + v3 + h2, v4, v1);
    lemma_occurs_left(h1 + v1 + v2 + v3 + h2 + v4, h3, v1);
    lemma_occurs_left(h1 + v1 + v2 + v3 + h2 + v4 + h3, v5, v1);
    lemma_occurs_left(h1 + v1 + v2 + v3 + h2 + v4 + h3 + v5, h4, v1);
    lemma_occurs_left(h1 + v1 + v2 + v3 + h2 + v4 + h3 + v5 + h4, v6, v1);
    lemma_metrics_from_counters(c, cs, l, v1);
    lemma_occurs_self(v2);
    lemma_occurs_right(h1 + v1, v2, v2);
    lemma_occurs_left(h1 + v1 + v2, v3, v2);
    lemma_occurs_left(h1 + v1 + v2 + v3, h2, v2);
    lemma_occurs_left(h1 + v1 + v2 + v3 + h2, v4, v2);
    lemma_occurs_left(h1 + v1 + v2 + v3 + h2 + v4, h3, v2);
    lemma_occurs_left(h1 + v1 + v2 + v3 + h2 + v4 + h3, v5, v2);
    lemma_occurs_left(h1 + v1 + v2 + v3 + h2 + v4 + h3 + v5, h4, v2);
    lemma_occurs_left(h1 + v1 + v2 + v3 + h2 + v4 + h3 + v5 + h4, v6, v2);
    lemma_metrics_from_counters(c, cs, l, v2);
    lemma_occurs_self(v3);
    lemma_occurs_right(h1 + v1 + v2, v3, v3);
    lemma_occurs_left(h1 + v1 + v2 + v3, h2, v3);
    lemma_occurs_left(h1 + v1 + v2 + v3 + h2, v4, v3);
    lemma_occurs_left(h1 + v1 + v2 + v3 + h2 + v4, h3, v3);
    lemma_occurs_left(h1 + v1 + v2 + v3 + h2 + v4 + h3, v5, v3);
    lemma_occurs_left(h1 + v1 + v2 + v3 + h2 + v4 + h3 + v5, h4, v3);
    lemma_occurs_left(h1 + v1 + v2 + v3 + h2 + v4 + h3 + v5 + h4, v6, v3);
    lemma_metrics_from_counters(c, cs, l, v3);
    lemma_occurs_self(v4);
    lemma_occurs_right(h1 + v1 + v2 + v3 + h2, v4, v4);
    lemma_occurs_left(h1 + v1 + v2 + v3 + h2 + v4, h3, v4);
    lemma_occurs_left(h1 + v1 + v2 + v3 + h2 + v4 + h3, v5, v4);
    lemma_occurs_left(h1 + v1 + v2 + v3 + h2 + v4 + h3 + v5, h4, v4);
    lemma_occurs_left(h1 + v1 + v2 + v3 + h2 + v4 + h3 + v5 + h4, v6, v4);
    lemma_metrics_from_counters(c, cs, l, v4);
    lemma_occurs_self(v5);
    lemma_occurs_right(h1 + v1 + v2 + v3 + h2 + v4 + h3, v5, v5);
    lemma_occurs_left(h1 + v1 + v2 + v3 + h2 + v4 + h3 + v5, h4, v5);
    lemma_occurs_left(h1 + v1 + v2 + v3 + h2 + v4 + h3 + v5 + h4, v6, v5);
    lemma_metrics_from_counters(c, cs, l, v5);
    lemma_occurs_self(v6);
    lemma_occurs_right(h1 + v1 + v2 + v3 + h2 + v4 + h3 + v5 + h4, v6, v6);
    lemma_metrics_from_counters(c, cs, l, v6);
}

proof fn lemma_metrics_from_counters(c: CounterValues, cs: Seq<CacheMetrics>, l: Option<ListGauges>, x: Seq<char>)
    requires
        occurs_in(counters_text(c), x),
    ensures
        occurs_in(metrics_text(c, cs, l), x),
{
    let a = counters_text(c);
    lemma_occurs_left(a, cache_help(), x);
    lemma_occurs_left(a + cache_help(), caches_text(cs), x);
    lemma_occurs_left(a + cache_help() + caches_text(cs), list_text(l), x);
    lemma_occurs_left(a + cache_help() + caches_text(cs) + list_text(l), race_help(), x);
    lemma_occurs_left(a + cache_help() + caches_text(cs) + list_text(l) + race_help(), race_blocks(cs), x);
}

proof fn lemma_occurs_self(x: Seq<char>)
    ensures
        occurs_in(x, x),
{
    let i: int = 0;
    assert(x.subrange(i, i + x.len()) =~= x);
}

proof fn lemma_occurs_left(a: Seq<char>, b: Seq<char>, x: Seq<char>)
    requires
        occurs_in(a, x),
    ensures
        occurs_in(a + b, x),
{
    let i = choose|i: int| 0 <= i <= a.len() - x.len() && #[trigger] a.subrange(i, i + x.len()) == x;
    assert((a + b).subrange(i, i + x.len()) =~= a.subrange(i, i + x.len()));
}

proof fn lemma_occurs_right(a: Seq<char>, b: Seq<char>, x: Seq<char>)
    requires
        occurs_in(b, x),
    ensures
        occurs_in(a + b, x),
{
    let i = choose|i: int| 0 <= i <= b.len() - x.len() && #[trigger] b.subrange(i, i + x.len()) == x;
    let j = a.len() + i;
    assert((a + b).subrange(j, j + x.len()) =~= b.subrange(i, i + x.len()));
}

/// The race lines of a run of cached events are those of its parts, one after the
/// other.
pub proof fn lemma_race_blocks_append(a: Seq<CacheMetrics>, b: Seq<CacheMetrics>)
    ensures
        race_blocks(a + b) == race_blocks(a) + race_blocks(b),
    decreases b.len(),
{
    if b.len() == 0 {
        assert(a + b == a);
    } else {
        assert((a + b).drop_last() == a + b.drop_last());
        assert((a + b).last() == b.last());
        lemma_race_blocks_append(a, b.drop_last());
    }
}

/// Every cached event's rendered race lines are on the metrics page, after all
/// the HELP and TYPE lines.
pub proof fn lemma_metrics_lists_every_race(c: CounterValues, cs: Seq<CacheMetrics>, l: Option<ListGauges>, k: int)
    requires
        0 <= k < cs.len(),
        cs[k].race_lines is Some,
    ensures
        occurs_in(race_help() + race_blocks(cs), cs[k].race_lines->0@),
        occurs_in(metrics_text(c, cs, l), cs[k].race_lines->0@),
{
    let a = cs.take(k);
    let b = cs.skip(k + 1);
    let x = seq![cs[k]];
    assert(cs == a + x + b);
    lemma_race_blocks_append(a + x, b);
    lemma_race_blocks_append(a, x);
    assert(x.drop_last() == Seq::<CacheMetrics>::empty());
    assert(race_blocks(x) == race_blocks(Seq::<CacheMetrics>::empty()) + cs[k].race_lines->0@);
    assert(race_blocks(x) =~= cs[k].race_lines->0@);
    lemma_occurs_split(race_help(), race_blocks(a), cs[k].race_lines->0@, race_blocks(b), Seq::empty());
    assert(race_help() + (race_blocks(a) + cs[k].race_lines->0@ + race_blocks(b)) + Seq::<char>::empty()
        =~= race_help() + race_blocks(cs));
    let pre = counters_text(c) + cache_help() + caches_text(cs) + list_text(l);
    lemma_occurs_right(pre, race_help() + race_blocks(cs), cs[k].race_lines->0@);
    assert(pre + (race_help() + race_blocks(cs)) =~= metrics_text(c, cs, l));
}

/// When the events list is cached, the page reports its age and body size.
pub proof fn lemma_metrics_lists_events_list(c: CounterValues, cs: Seq<CacheMetrics>, g: ListGauges)
    ensures
        occurs_in(
            metrics_text(c, cs, Some(g)),
            "madcap_fast_events_list_cache_age_seconds "@ + g.age_seconds@ + seq!['\n']
                + "madcap_fast_events_list_cache_body_bytes "@ + decimal(g.body_bytes as nat) + seq!['\n'],
        ),
{
    let x = list_text(Some(g));
    assert(x =~= "madcap_fast_events_list_cache_age_seconds "@ + g.age_seconds@ + seq!['\n']
        + "madcap_fast_events_list_cache_body_bytes "@ + decimal(g.body_bytes as nat) + seq!['\n']);
    lemma_occurs_split(
        counters_text(c) + cache_help() + caches_text(cs),
        Seq::empty(),
        x,
        Seq::empty(),
        race_help() + race_blocks(cs),
    );
    assert((counters_text(c) + cache_help() + caches_text(cs)) + (Seq::<char>::empty() + x
        + Seq::<char>::empty()) + (race_help() + race_blocks(cs)) =~= metrics_text(c, cs, Some(g)));
}

/// The cactus pacer's progress is a fraction of the event: when both dates parse
/// and the end comes after the start, the span is the event's length in seconds,
/// the elapsed part lies within it, it is the time since the start while the
/// event runs, none before the start and all of it after the end.
pub proof fn lemma_cactus_fraction_bounds(start: String, end: String, now: int)
    requires
        spec_parse_iso_utc(start@) is Some,
        spec_parse_iso_utc(end@) is Some,
        spec_parse_iso_utc(start@)->0 < spec_parse_iso_utc(end@)->0,
    ensures
        ({
            let st = spec_parse_iso_utc(start@)->0;
            let en = spec_parse_iso_utc(end@)->0;
            let r = spec_cactus_fraction(Some(start), Some(end), now);
            let elapsed = (r->0).0;
            let span = (r->0).1;
            &&& r is Some
            &&& span == en - st
            &&& 0 <= elapsed <= span
            &&& st <= now <= en ==> elapsed == now - st
            &&& now < st ==> elapsed == 0
            &&& now > en ==> elapsed == en - st
        }),
{
}

/// Without both dates, or with an end not after the start, there is no pacer.
pub proof fn lemma_cactus_fraction_absent(start: Option<String>, end: Option<String>, now: int)
    requires
        start is None || end is None || spec_parse_iso_utc(start->0@) is None || spec_parse_iso_utc(end->0@)
            is None || spec_parse_iso_utc(start->0@)->0 >= spec_parse_iso_utc(end->0@)->0,
    ensures
        spec_cactus_fraction(start, end, now) is None,
{
}

/// A race is over exactly after the second its end date names: not at that
/// second, and from the next one on for good.
pub proof fn lemma_race_over_after_end(info: RaceInfo, now: int, later: int)
    ensures
        race_over(info, now) && now <= later ==> race_over(info, later),
        (info.end_date matches Some(e) && spec_parse_iso_utc(e@) is Some) ==> (!race_over(
            info,
            spec_parse_iso_utc(info.end_date->0@)->0,
        ) && race_over(info, spec_parse_iso_utc(info.end_date->0@)->0 + 1)),
        (info.end_date is None || spec_parse_iso_utc(info.end_date->0@) is None) ==> !race_over(info, now),
{
}

fn push_value_line(out: &mut String, prefix: &str, n: u64)
    ensures
        final(out)@ == old(out)@ + value_line(prefix@, n as nat),
{
    out.append(prefix);
    push_decimal(out, n as u128);
    out.push('\n');
}

fn push_cache_lines(out: &mut String, m: &CacheMetrics)
    ensures
        final(out)@ == old(out)@ + cache_lines(*m),
{
    match &m.snapshot {
        Some(g) => {
            let mut l = String::new();
            l.append("slug=\"");
            l.append(m.slug.as_str());
            l.push('"');
            assert(l@ =~= "slug=\""@ + m.slug@ + seq!['"']);
            push_gauge(out, "madcap_fast_cache_age_seconds", l.as_str(), g.age_seconds.as_str());
            push_gauge(
                out,
                "madcap_fast_cache_body_bytes",
                l.as_str(),
                decimal_string(g.body_bytes as u128).as_str(),
            );
            push_gauge(
                out,
                "madcap_fast_upstream_last_ms",
                l.as_str(),
                decimal_string(g.upstream_ms as u128).as_str(),
            );
        },
        None => {},
    }
}

/// The Prometheus text of the metrics page: counters, per-slug cache gauges, the
/// events list gauges, then the race metrics under one set of HELP/TYPE lines.
fn push_cache_help(out: &mut String)
    ensures
        final(out)@ == old(out)@ + cache_help(),
{
    let ghost start = out@;
    out.append("# HELP madcap_fast_cache_age_seconds Age of the cached snapshot per slug\n");
    out.append("# TYPE madcap_fast_cache_age_seconds gauge\n");
    out.append("# HELP madcap_fast_cache_body_bytes Raw JSON body size per cached slug\n");
    out.append("# TYPE madcap_fast_cache_body_bytes gauge\n");
    out.append("# HELP madcap_fast_upstream_last_ms Last upstream refresh duration per slug\n");
    out.append("# TYPE madcap_fast_upstream_last_ms gauge\n");
    assert(out@ =~= start + cache_help());
}

#[verifier::rlimit(40)]
fn push_race_help(out: &mut String)
    ensures
        final(out)@ == old(out)@ + race_help(),
{
    let ghost start = out@;
    out.append("# HELP madcap_event_total_km Advertised total course distance in km (parsed from info.distance)\n");
    out.append("# TYPE madcap_event_total_km gauge\n");
    out.append("# HELP madcap_event_cactus_km Virtual cactus pacer position in km (elapsed fraction of event time x total km)\n");
    out.append("# TYPE madcap_event_cactus_km gauge\n");
    out.append("# HELP madcap_event_participants Participant count in the event\n");
    out.append("# TYPE madcap_event_participants gauge\n");
    out.append("# HELP madcap_event_active Riders with any ping or REGISTERED/ACTIVE status\n");
    out.append("# TYPE madcap_event_active gauge\n");
    out.append("# HELP madcap_event_sleeping Riders currently flagged sleeping\n");
    out.append("# TYPE madcap_event_sleeping gauge\n");
    out.append("# HELP madcap_event_started Riders with non-zero distance\n");
    out.append("# TYPE madcap_event_started gauge\n");
    out.append("# HELP madcap_event_finished Riders within 0.5 km of the course total\n");
    out.append("# TYPE madcap_event_finished gauge\n");
    out.append("# HELP madcap_rider_distance_km Distance covered by the rider in km\n");
    out.append("# TYPE madcap_rider_distance_km gauge\n");
    out.append("# HELP madcap_rider_cactus_delta_km Rider distance minus the cactus pacer position in km (positive = ahead)\n");
    out.append("# TYPE madcap_rider_cactus_delta_km gauge\n");
    out.append("# HELP madcap_rider_speed_kmh Current reported speed in km/h\n");
    out.append("# TYPE madcap_rider_speed_kmh gauge\n");
    out.append("# HELP madcap_rider_overall_rank Overall rank (1 = leader)\n");
    out.append("# TYPE madcap_rider_overall_rank gauge\n");
    out.append("# HELP madcap_rider_category_rank Rank within the rider's category\n");
    out.append("# TYPE madcap_rider_category_rank gauge\n");
    out.append("# HELP madcap_rider_battery_pct Tracker battery percentage\n");
    out.append("# TYPE madcap_rider_battery_pct gauge\n");
    out.append("# HELP madcap_rider_sleeping 1 if the rider is currently flagged sleeping, else 0\n");
    out.append("# TYPE madcap_rider_sleeping gauge\n");
    out.append("# HELP madcap_rider_distance_to_next_cp_km Straight-line distance to the next checkpoint\n");
    out.append("# TYPE madcap_rider_distance_to_next_cp_km gauge\n");
    assert(out@ =~= start + race_help());
}

pub fn render_metrics(c: &CounterValues, caches: &Vec<CacheMetrics>, list: &Option<ListGauges>) -> (r:
    String)
    ensures
        r@ == metrics_text(*c, caches@, *list),
{
    let mut out = String::new();
    out.append("# HELP madcap_fast_requests_total Total API requests handled\n");
    out.append("# TYPE madcap_fast_requests_total counter\n");
    push_value_line(&mut out, "madcap_fast_requests_total{path=\"event\"} ", c.requests_event);
    push_value_line(
        &mut out,
        "madcap_fast_requests_total{path=\"events_list\"} ",
        c.requests_events_list,
    );
    push_value_line(&mut out, "madcap_fast_requests_total{path=\"csv\"} ", c.csv_exports);
    out.append("# HELP madcap_fast_responses_not_modified_total Total 304 responses\n");
    out.append("# TYPE madcap_fast_responses_not_modified_total counter\n");
    push_value_line(&mut out, "madcap_fast_responses_not_modified_total ", c.responses_304);
    out.append("# HELP madcap_fast_upstream_refreshes_total Successful upstream refreshes\n");
    out.append("# TYPE madcap_fast_upstream_refreshes_total counter\n");
    push_value_line(&mut out, "madcap_fast_upstream_refreshes_total ", c.refreshes);
    out.append("# HELP madcap_fast_upstream_errors_total Upstream refresh failures\n");
    out.append("# TYPE madcap_fast_upstream_errors_total counter\n");
    push_value_line(&mut out, "madcap_fast_upstream_errors_total ", c.upstream_errors);
    assert(out@ =~= counters_text(*c));
    push_cache_help(&mut out);
    let ghost head = out@;
    for i in 0..caches.len()
        invariant
            out@ == head + caches_text(caches@.take(i as int)),
    {
        proof {
            assert(caches@.take(i + 1).drop_last() == caches@.take(i as int));
        }
        push_cache_lines(&mut out, &caches[i]);
    }
    assert(caches@.take(caches.len() as int) == caches@);
    match list {
        Some(g) => {
            out.append("madcap_fast_events_list_cache_age_seconds ");
            out.append(g.age_seconds.as_str());
            out.push('\n');
            push_value_line(&mut out, "madcap_fast_events_list_cache_body_bytes ", g.body_bytes);
        },
        None => {},
    }
    push_race_help(&mut out);
    let ghost head2 = out@;
    for i in 0..caches.len()
        invariant
            out@ == head2 + race_blocks(caches@.take(i as int)),
    {
        proof {
            assert(caches@.take(i + 1).drop_last() == caches@.take(i as int));
        }
        match &caches[i].race_lines {
            Some(t) => out.append(t.as_str()),
            None => {},
        }
    }
    assert(out@ =~= metrics_text(*c, caches@, *list));
    out
}

} // verus!
