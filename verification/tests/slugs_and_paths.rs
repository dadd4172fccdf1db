use madcap_fast::paths::{event_cache_path, events_list_cache_path, join_path, overtakes_path, slug_from_cache_file_name};
use madcap_fast::slug::slug_ok;

#[test]
fn slug_ok_accepts_event_slugs() {
    assert!(slug_ok("desertus-bikus-26"));
    assert!(slug_ok("via_race_25"));
    assert!(slug_ok(&"a".repeat(100)));
}

#[test]
fn slug_ok_rejects_bad_slugs() {
    assert!(!slug_ok(""));
    assert!(!slug_ok(&"a".repeat(101)));
    assert!(!slug_ok("a/b"));
    assert!(!slug_ok("a.json"));
    assert!(!slug_ok("caf\u{e9}"));
    assert!(!slug_ok("with space"));
    assert!(!slug_ok("quote\""));
}

#[test]
fn event_cache_path_layout() {
    assert_eq!(event_cache_path("/var/cache/madcap_fast", "desertus-bikus-26"), "/var/cache/madcap_fast/events/desertus-bikus-26.json");
    assert_eq!(event_cache_path("/var/cache/", "x"), "/var/cache/events/x.json");
    assert_eq!(event_cache_path("", "x"), "events/x.json");
}

#[test]
fn events_list_cache_path_layout() {
    assert_eq!(events_list_cache_path("/data"), "/data/events_list.json");
    assert_eq!(events_list_cache_path("/data/"), "/data/events_list.json");
}

#[test]
fn join_path_absolute_part_replaces() {
    assert_eq!(join_path("/a", "/b"), "/b");
    assert_eq!(join_path("a", "b"), "a/b");
}

#[test]
fn cache_file_names_give_back_slugs() {
    assert_eq!(slug_from_cache_file_name("desertus-bikus-26.json"), Some("desertus-bikus-26".to_string()));
    assert_eq!(slug_from_cache_file_name(".json"), None);
    assert_eq!(slug_from_cache_file_name("a.b.json"), None);
    assert_eq!(slug_from_cache_file_name("abc.txt"), None);
    assert_eq!(slug_from_cache_file_name("abc.json.tmp"), None);
    assert_eq!(slug_from_cache_file_name("json"), None);
}

#[test]
fn persisted_slug_reads_back() {
    let path = event_cache_path("/cache", "aux-origines-26");
    let name = path.rsplit('/').next().unwrap();
    assert_eq!(slug_from_cache_file_name(name), Some("aux-origines-26".to_string()));
}

#[test]
fn overtake_logs_live_under_overtakes() {
    assert_eq!(overtakes_path("/var/cache", "via-race-25"), "/var/cache/overtakes/via-race-25.json");
    assert_eq!(overtakes_path("cache/", "x"), "cache/overtakes/x.json");
}
