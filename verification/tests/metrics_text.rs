use madcap_fast::prometheus::{
    cactus_fraction, render_event_race_metrics, render_metrics, CacheMetrics, CounterValues, DistanceReading, ListGauges, RaceInfo,
    RiderMetrics, SnapshotGauges,
};

fn rider() -> RiderMetrics {
    RiderMetrics {
        bib: "12".to_string(),
        first_name: "Ada".to_string(),
        last_name: "Love\"lace".to_string(),
        category: "F".to_string(),
        status: "ACTIVE".to_string(),
        sleeping: true,
        has_ping: false,
        distance: Some(DistanceReading { text: "812.5".to_string(), started: true, finished: false }),
        speed: Some("21.3".to_string()),
        overall_rank: Some("3".to_string()),
        category_rank: None,
        battery: Some("80".to_string()),
        distance_to_next_cp: None,
        cactus_delta: None,
    }
}

fn race_info(end_date: Option<&str>, total_km: &str) -> RaceInfo {
    RaceInfo {
        start_date: None,
        end_date: end_date.map(String::from),
        total_km: total_km.to_string(),
        cactus_km: None,
    }
}

#[test]
fn race_metrics_exact_text() {
    let info = race_info(Some("2999-01-01T00:00:00"), "1200");
    let mut quiet = rider();
    quiet.first_name = String::new();
    quiet.last_name = " Bo ".to_string();
    quiet.status = "FINISHED".to_string();
    quiet.sleeping = false;
    quiet.distance = None;
    quiet.speed = None;
    quiet.overall_rank = None;
    quiet.battery = None;
    quiet.distance_to_next_cp = Some("4.2".to_string());
    let out = render_event_race_metrics("race-1", &info, &vec![rider(), quiet], 1_776_774_896).unwrap();
    let l1 = "slug=\"race-1\",bib=\"12\",name=\"Ada Love\\\"lace\",category=\"F\"";
    let l2 = "slug=\"race-1\",bib=\"12\",name=\"Bo\",category=\"F\"";
    let expected = format!(
        "madcap_event_total_km{{slug=\"race-1\"}} 1200\n\
         madcap_event_participants{{slug=\"race-1\"}} 2\n\
         madcap_rider_distance_km{{{l1}}} 812.5\n\
         madcap_rider_speed_kmh{{{l1}}} 21.3\n\
         madcap_rider_overall_rank{{{l1}}} 3\n\
         madcap_rider_battery_pct{{{l1}}} 80\n\
         madcap_rider_sleeping{{{l1}}} 1\n\
         madcap_rider_sleeping{{{l2}}} 0\n\
         madcap_rider_distance_to_next_cp_km{{{l2}}} 4.2\n\
         madcap_event_active{{slug=\"race-1\"}} 1\n\
         madcap_event_sleeping{{slug=\"race-1\"}} 1\n\
         madcap_event_started{{slug=\"race-1\"}} 1\n\
         madcap_event_finished{{slug=\"race-1\"}} 0\n"
    );
    assert_eq!(out, expected);
}

#[test]
fn race_metrics_stop_after_the_end_date() {
    let info = race_info(Some("2026-04-21T12:34:56"), "0");
    assert!(render_event_race_metrics("r", &info, &vec![], 1_776_774_897).is_none());
    assert!(render_event_race_metrics("r", &info, &vec![], 1_776_774_896).is_some());
}

#[test]
fn race_metrics_unparsable_end_date_keeps_series() {
    let info = race_info(Some("soon"), "0");
    assert!(render_event_race_metrics("r", &info, &vec![], i64::MAX).is_some());
}

#[test]
fn active_counts_pings_and_statuses() {
    let info = race_info(None, "0");
    let mut a = rider();
    a.status = "REGISTERED".to_string();
    let mut b = rider();
    b.status = "PAUSED".to_string();
    b.has_ping = true;
    let mut c = rider();
    c.status = "PAUSED".to_string();
    let out = render_event_race_metrics("r", &info, &vec![a, b, c], 0).unwrap();
    assert!(out.contains("madcap_event_active{slug=\"r\"} 2\n"));
}

#[test]
fn metrics_page_exact_text() {
    let c = CounterValues { requests_event: 5, requests_events_list: 2, csv_exports: 1, responses_304: 3, refreshes: 7, upstream_errors: 0 };
    let caches = vec![
        CacheMetrics {
            slug: "a".to_string(),
            snapshot: Some(SnapshotGauges { age_seconds: "1.5".to_string(), body_bytes: 100, upstream_ms: 42 }),
            race_lines: Some("RACE_A\n".to_string()),
        },
        CacheMetrics { slug: "b".to_string(), snapshot: None, race_lines: None },
    ];
    let list = Some(ListGauges { age_seconds: "0.25".to_string(), body_bytes: 9 });
    let out = render_metrics(&c, &caches, &list);
    let expected = "# HELP madcap_fast_requests_total Total API requests handled\n\
# TYPE madcap_fast_requests_total counter\n\
madcap_fast_requests_total{path=\"event\"} 5\n\
madcap_fast_requests_total{path=\"events_list\"} 2\n\
madcap_fast_requests_total{path=\"csv\"} 1\n\
# HELP madcap_fast_responses_not_modified_total Total 304 responses\n\
# TYPE madcap_fast_responses_not_modified_total counter\n\
madcap_fast_responses_not_modified_total 3\n\
# HELP madcap_fast_upstream_refreshes_total Successful upstream refreshes\n\
# TYPE madcap_fast_upstream_refreshes_total counter\n\
madcap_fast_upstream_refreshes_total 7\n\
# HELP madcap_fast_upstream_errors_total Upstream refresh failures\n\
# TYPE madcap_fast_upstream_errors_total counter\n\
madcap_fast_upstream_errors_total 0\n\
# HELP madcap_fast_cache_age_seconds Age of the cached snapshot per slug\n\
# TYPE madcap_fast_cache_age_seconds gauge\n\
# HELP madcap_fast_cache_body_bytes Raw JSON body size per cached slug\n\
# TYPE madcap_fast_cache_body_bytes gauge\n\
# HELP madcap_fast_upstream_last_ms Last upstream refresh duration per slug\n\
# TYPE madcap_fast_upstream_last_ms gauge\n\
madcap_fast_cache_age_seconds{slug=\"a\"} 1.5\n\
madcap_fast_cache_body_bytes{slug=\"a\"} 100\n\
madcap_fast_upstream_last_ms{slug=\"a\"} 42\n\
madcap_fast_events_list_cache_age_seconds 0.25\n\
madcap_fast_events_list_cache_body_bytes 9\n";
    assert!(out.starts_with(expected));
    assert!(out.ends_with("# TYPE madcap_rider_distance_to_next_cp_km gauge\nRACE_A\n"));
    assert_eq!(out.matches("# HELP madcap_event_").count(), 7);
    assert_eq!(out.matches("# HELP madcap_rider_").count(), 8);
}

#[test]
fn withdrawn_riders_are_left_out() {
    let info = race_info(None, "0");
    let mut statuses = vec!["ACTIVE"];
    statuses.extend(["DNF", "DNS", "SCRATCH", "DSQ"]);
    let riders: Vec<RiderMetrics> = statuses
        .iter()
        .map(|st| {
            let mut r = rider();
            r.status = st.to_string();
            r
        })
        .collect();
    let out = render_event_race_metrics("s", &info, &riders, 0).unwrap();
    assert!(out.contains("madcap_event_participants{slug=\"s\"} 1\n"));
    assert!(out.contains("madcap_event_active{slug=\"s\"} 1\n"));
    assert!(out.contains("madcap_event_started{slug=\"s\"} 1\n"));
    assert!(out.contains("madcap_event_sleeping{slug=\"s\"} 1\n"));
    assert_eq!(out.matches("madcap_rider_distance_km").count(), 1);
    assert_eq!(out.matches("madcap_rider_sleeping").count(), 1);
}

#[test]
fn cactus_gauges_exact_text() {
    let mut info = race_info(Some("2999-01-01T00:00:00"), "1000");
    info.cactus_km = Some("250".to_string());
    let mut r = rider();
    r.speed = None;
    r.overall_rank = None;
    r.battery = None;
    r.cactus_delta = Some("562.5".to_string());
    let out = render_event_race_metrics("c", &info, &vec![r], 0).unwrap();
    let l = "slug=\"c\",bib=\"12\",name=\"Ada Love\\\"lace\",category=\"F\"";
    let expected = format!(
        "madcap_event_total_km{{slug=\"c\"}} 1000\n\
         madcap_event_cactus_km{{slug=\"c\"}} 250\n\
         madcap_event_participants{{slug=\"c\"}} 1\n\
         madcap_rider_distance_km{{{l}}} 812.5\n\
         madcap_rider_cactus_delta_km{{{l}}} 562.5\n\
         madcap_rider_sleeping{{{l}}} 1\n\
         madcap_event_active{{slug=\"c\"}} 1\n\
         madcap_event_sleeping{{slug=\"c\"}} 1\n\
         madcap_event_started{{slug=\"c\"}} 1\n\
         madcap_event_finished{{slug=\"c\"}} 0\n"
    );
    assert_eq!(out, expected);
}

#[test]
fn cactus_fraction_clamps_to_the_event() {
    let start = Some("2026-04-20T00:00:00".to_string());
    let end = Some("2026-04-22T00:00:00".to_string());
    // 2026-04-20T00:00:00Z is 1776643200.
    assert_eq!(cactus_fraction(&start, &end, 1776643200 + 43200), Some((43200, 172800)));
    assert_eq!(cactus_fraction(&start, &end, 1776643200 - 5), Some((0, 172800)));
    assert_eq!(cactus_fraction(&start, &end, 1776643200 + 200000), Some((172800, 172800)));
    assert_eq!(cactus_fraction(&end, &start, 1776643200), None);
    assert_eq!(cactus_fraction(&start, &start, 1776643200), None);
    assert_eq!(cactus_fraction(&None, &end, 1776643200), None);
    assert_eq!(cactus_fraction(&start, &Some("later".to_string()), 1776643200), None);
}

fn comment_lines(page: &str) -> Vec<&str> {
    page.lines().filter(|l| l.starts_with('#')).collect()
}

#[test]
fn help_and_type_lines_once_whatever_the_caches() {
    let c = CounterValues { requests_event: 1, requests_events_list: 0, csv_exports: 0, responses_304: 0, refreshes: 0, upstream_errors: 0 };
    let empty = render_metrics(&c, &vec![], &None);
    let race = render_event_race_metrics("s", &race_info(None, "100"), &vec![rider()], 0).unwrap();
    let caches: Vec<CacheMetrics> = (0..3)
        .map(|i| CacheMetrics {
            slug: format!("e{i}"),
            snapshot: Some(SnapshotGauges { age_seconds: "2".to_string(), body_bytes: 10, upstream_ms: 5 }),
            race_lines: Some(race.clone()),
        })
        .collect();
    let full = render_metrics(&c, &caches, &Some(ListGauges { age_seconds: "1".to_string(), body_bytes: 3 }));
    assert_eq!(comment_lines(&full), comment_lines(&empty));
    let lines = comment_lines(&empty);
    for (i, l) in lines.iter().enumerate() {
        assert!(!lines[i + 1..].contains(l), "repeated: {l}");
    }
    assert_eq!(lines.len(), 2 * (4 + 3 + 15));
    assert!(full.ends_with(&format!("{race}{race}{race}")));
}
