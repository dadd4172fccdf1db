use madcap_fast::tracks::{dedup_by_time, merge_track_pages, sort_by_time, MergedTrack, TrackEntry, TrackPage, TrackPoint};

fn pt(t: i64) -> TrackPoint {
    TrackPoint { time: Some(t), data: format!("[{t}]") }
}

fn entry(pid: &str, times: &[i64]) -> TrackEntry {
    TrackEntry { participant_id: Some(pid.to_string()), track: Some(times.iter().map(|&t| pt(t)).collect()) }
}

fn times(t: &MergedTrack) -> Vec<Option<i64>> {
    t.track.iter().map(|p| p.time).collect()
}

fn find<'a>(r: &'a [MergedTrack], pid: &str) -> &'a MergedTrack {
    r.iter().find(|t| t.participant_id == pid).unwrap()
}

#[test]
fn merge_orders_and_dedups_page_boundaries() {
    // newest page first, as the upstream cursor walk returns them
    let pages = vec![
        TrackPage { tracks: Some(vec![entry("p1", &[30, 40])]) },
        TrackPage { tracks: Some(vec![entry("p1", &[10, 20, 30]), entry("p2", &[50])]) },
    ];
    let r = merge_track_pages(&pages);
    assert_eq!(r.len(), 2);
    assert_eq!(times(find(&r, "p1")), vec![Some(10), Some(20), Some(30), Some(40)]);
    assert_eq!(times(find(&r, "p2")), vec![Some(50)]);
}

#[test]
fn merge_keeps_the_older_copy_of_a_repeated_point() {
    let mut newer = entry("p1", &[30]);
    newer.track.as_mut().unwrap()[0].data = "newer".to_string();
    let mut older = entry("p1", &[30]);
    older.track.as_mut().unwrap()[0].data = "older".to_string();
    let pages = vec![TrackPage { tracks: Some(vec![newer]) }, TrackPage { tracks: Some(vec![older]) }];
    let r = merge_track_pages(&pages);
    assert_eq!(r[0].track.len(), 1);
    assert_eq!(r[0].track[0].data, "older");
}

#[test]
fn merge_skips_incomplete_entries_and_pages() {
    let pages = vec![
        TrackPage { tracks: None },
        TrackPage {
            tracks: Some(vec![
                TrackEntry { participant_id: None, track: Some(vec![pt(1)]) },
                TrackEntry { participant_id: Some("p9".to_string()), track: None },
                TrackEntry { participant_id: Some("p3".to_string()), track: Some(vec![]) },
            ]),
        },
    ];
    let r = merge_track_pages(&pages);
    assert_eq!(r.len(), 1);
    assert_eq!(r[0].participant_id, "p3");
    assert!(r[0].track.is_empty());
}

#[test]
fn merge_of_no_pages_is_empty() {
    assert!(merge_track_pages(&[]).is_empty());
}

#[test]
fn merge_sorts_unordered_points() {
    let pages = vec![TrackPage { tracks: Some(vec![entry("p1", &[5, 1, 3, 1])]) }];
    let r = merge_track_pages(&pages);
    assert_eq!(times(&r[0]), vec![Some(1), Some(3), Some(5)]);
}

#[test]
fn points_without_time_sort_as_zero_and_stay() {
    let untimed = TrackPoint { time: None, data: "x".to_string() };
    let pages = vec![TrackPage {
        tracks: Some(vec![TrackEntry {
            participant_id: Some("p".to_string()),
            track: Some(vec![pt(2), untimed, pt(-1), pt(0)]),
        }]),
    }];
    let r = merge_track_pages(&pages);
    assert_eq!(times(&r[0]), vec![Some(-1), None, Some(0), Some(2)]);
}

#[test]
fn sort_by_time_is_stable() {
    let v = vec![
        TrackPoint { time: Some(2), data: "a".into() },
        TrackPoint { time: Some(1), data: "b".into() },
        TrackPoint { time: Some(2), data: "c".into() },
        TrackPoint { time: Some(1), data: "d".into() },
    ];
    let s: Vec<String> = sort_by_time(v).into_iter().map(|p| p.data).collect();
    assert_eq!(s, vec!["b", "d", "a", "c"]);
}

#[test]
fn dedup_by_time_drops_repeats_of_last_kept() {
    let v = vec![pt(1), pt(1), pt(2), TrackPoint { time: None, data: "n".into() }, TrackPoint { time: None, data: "m".into() }, pt(2)];
    let d: Vec<Option<i64>> = dedup_by_time(v).iter().map(|p| p.time).collect();
    assert_eq!(d, vec![Some(1), Some(2), None, None, Some(2)]);
}

#[test]
fn merging_a_merged_result_gives_it_back() {
    let pages = vec![
        TrackPage { tracks: Some(vec![entry("a", &[5, 6, 7]), entry("b", &[2])]) },
        TrackPage { tracks: Some(vec![entry("a", &[3, 5, 1]), entry("c", &[9, 9])]) },
    ];
    let r = merge_track_pages(&pages);
    let page = TrackPage {
        tracks: Some(
            r.iter()
                .map(|t| TrackEntry { participant_id: Some(t.participant_id.clone()), track: Some(t.track.iter().map(|p| TrackPoint { time: p.time, data: p.data.clone() }).collect()) })
                .collect(),
        ),
    };
    let r2 = merge_track_pages(&[page]);
    assert_eq!(r2.len(), r.len());
    for t in &r {
        let u = find(&r2, &t.participant_id);
        assert_eq!(times(u), times(t));
        let d1: Vec<&String> = u.track.iter().map(|p| &p.data).collect();
        let d2: Vec<&String> = t.track.iter().map(|p| &p.data).collect();
        assert_eq!(d1, d2);
    }
    assert_eq!(times(find(&r, "a")), vec![Some(1), Some(3), Some(5), Some(6), Some(7)]);
}
