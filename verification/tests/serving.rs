use madcap_fast::serve::{contains_text, serve_snapshot, BodyEncoding, SnapshotReply};

const CC: &str = "public, max-age=15, stale-while-revalidate=60";

fn headers(r: &SnapshotReply) -> Vec<(String, String)> {
    match r {
        SnapshotReply::Full { headers, .. } => headers.clone(),
        SnapshotReply::NotModified { .. } => panic!("expected a full reply"),
    }
}

#[test]
fn matching_if_none_match_gets_304() {
    let r = serve_snapshot("\"abc\"", Some("\"abc\""), Some("br"), CC, 0, 5);
    match r {
        SnapshotReply::NotModified { etag } => assert_eq!(etag, "\"abc\""),
        _ => panic!("expected 304"),
    }
}

#[test]
fn other_if_none_match_gets_body() {
    let r = serve_snapshot("\"abc\"", Some("\"abd\""), None, CC, 0, 5);
    assert!(matches!(r, SnapshotReply::Full { encoding: BodyEncoding::Identity, .. }));
}

#[test]
fn brotli_preferred_then_gzip_then_identity() {
    assert!(matches!(serve_snapshot("e", None, Some("gzip, deflate, br"), CC, 0, 0), SnapshotReply::Full { encoding: BodyEncoding::Brotli, .. }));
    assert!(matches!(serve_snapshot("e", None, Some("gzip, deflate"), CC, 0, 0), SnapshotReply::Full { encoding: BodyEncoding::Gzip, .. }));
    assert!(matches!(serve_snapshot("e", None, Some("identity"), CC, 0, 0), SnapshotReply::Full { encoding: BodyEncoding::Identity, .. }));
    assert!(matches!(serve_snapshot("e", None, None, CC, 0, 0), SnapshotReply::Full { encoding: BodyEncoding::Identity, .. }));
}

#[test]
fn full_reply_headers() {
    let r = serve_snapshot("\"1f\"", None, Some("br"), CC, 1_500_000_000, 421);
    let h = headers(&r);
    let expected: Vec<(String, String)> = vec![
        ("content-type", "application/json; charset=utf-8"),
        ("etag", "\"1f\""),
        ("cache-control", CC),
        ("vary", "Accept-Encoding"),
        ("x-cache-age-ms", "1500"),
        ("x-cache-stale", "0"),
        ("x-upstream-ms", "421"),
        ("content-encoding", "br"),
    ]
    .into_iter()
    .map(|(a, b)| (a.to_string(), b.to_string()))
    .collect();
    assert_eq!(h, expected);
}

#[test]
fn stale_after_two_minutes() {
    let h = headers(&serve_snapshot("e", None, None, CC, 120_000_000_001, 0));
    assert!(h.contains(&("x-cache-stale".to_string(), "1".to_string())));
    assert!(h.contains(&("x-cache-age-ms".to_string(), "120000".to_string())));
    let h = headers(&serve_snapshot("e", None, None, CC, 120_000_000_000, 0));
    assert!(h.contains(&("x-cache-stale".to_string(), "0".to_string())));
    assert_eq!(h.len(), 7);
}

#[test]
fn contains_text_examples() {
    assert!(contains_text("gzip, br", "br"));
    assert!(contains_text("abc", ""));
    assert!(!contains_text("b", "br"));
    assert!(!contains_text("", "br"));
}
