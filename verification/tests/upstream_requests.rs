use madcap_fast::upstream::{
    event_request_body, events_list_url, first_track_cursor, geo_url, info_url, journals_url, next_track_cursor,
    participants_url, tracks_url,
};

#[test]
fn urls() {
    assert_eq!(info_url("d-26"), "https://api.madcap.cc/event/v1/d-26/info");
    assert_eq!(participants_url("d-26"), "https://api.madcap.cc/event/v3/participants/d-26");
    assert_eq!(geo_url(), "https://api.madcap.cc/event/geo/v3");
    assert_eq!(journals_url(), "https://api.madcap.cc/event/journals");
    assert_eq!(events_list_url(), "https://api.madcap.cc/v1/events/list");
    assert_eq!(tracks_url("d-26", "now"), "https://api.madcap.cc/event/v1/tracks/d-26?ts=now");
}

#[test]
fn request_body_drops_quotes() {
    assert_eq!(event_request_body("d-26"), "{\"event\":\"d-26\"}");
    assert_eq!(event_request_body("a\"b\""), "{\"event\":\"ab\"}");
}

#[test]
fn cursor_walk_follows_previous_page_links() {
    let c = first_track_cursor();
    assert_eq!(c.ts, "now");
    let c = next_track_cursor(c, Some("1700".to_string())).unwrap();
    assert_eq!(c.ts, "1700");
    assert_eq!(c.prev_ts_used.as_deref(), Some("now"));
    assert_eq!(c.pages_fetched, 1);
    let c = next_track_cursor(c, Some("1600".to_string())).unwrap();
    assert_eq!(c.ts, "1600");
    assert_eq!(c.prev_ts_used.as_deref(), Some("1700"));
}

#[test]
fn cursor_walk_stops() {
    assert!(next_track_cursor(first_track_cursor(), None).is_none());
    assert!(next_track_cursor(first_track_cursor(), Some("now".to_string())).is_none());
    let c = next_track_cursor(first_track_cursor(), Some("1700".to_string())).unwrap();
    assert!(next_track_cursor(c, Some("now".to_string())).is_none());
}

#[test]
fn cursor_walk_fetches_at_most_thirty_pages() {
    let mut c = first_track_cursor();
    let mut fetched = 1;
    let mut ts = 100_000;
    loop {
        ts -= 1;
        match next_track_cursor(c, Some(ts.to_string())) {
            Some(n) => {
                c = n;
                fetched += 1;
            }
            None => break,
        }
    }
    assert_eq!(fetched, 30);
}
