use madcap_fast::snapshot::{bodies_from_encodings, etag, fnv1a, snapshot_from_bytes};
use std::io::Read;

#[test]
fn fnv1a_test_vectors() {
    assert_eq!(fnv1a(b""), 0xcbf29ce484222325);
    assert_eq!(fnv1a(b"a"), 0xaf63dc4c8601ec8c);
    assert_eq!(fnv1a(b"hello"), 0xa430d84680aabd0b);
}

#[test]
fn etag_is_quoted_lower_hex() {
    assert_eq!(etag(b"a"), "\"af63dc4c8601ec8c\"");
    assert_eq!(etag(b"hello"), "\"a430d84680aabd0b\"");
}

#[test]
fn snapshot_encodings_decode_to_body() {
    let body = br#"{"slug":"x","tracks":{"tracks":[]}}"#.repeat(50);
    let s = snapshot_from_bytes(body.clone(), 17).unwrap();
    assert_eq!(s.body, body);
    assert_eq!(s.upstream_ms, 17);
    assert_eq!(s.etag, etag(&body));
    assert_ne!(s.body_gz, body);
    assert_eq!(&s.body_gz[..2], &[0x1f, 0x8b]);
    let mut gz = Vec::new();
    flate2::read::GzDecoder::new(&s.body_gz[..]).read_to_end(&mut gz).unwrap();
    assert_eq!(gz, body);
    assert_ne!(s.body_br, body);
    let mut br = Vec::new();
    brotli::Decompressor::new(&s.body_br[..], 4096).read_to_end(&mut br).unwrap();
    assert_eq!(br, body);
}

#[test]
fn same_bytes_same_snapshot() {
    let a = snapshot_from_bytes(b"[1,2,3]".to_vec(), 0).unwrap();
    let b = snapshot_from_bytes(b"[1,2,3]".to_vec(), 9).unwrap();
    assert_eq!(a.etag, b.etag);
    assert_eq!(a.body_br, b.body_br);
    assert_eq!(a.body_gz, b.body_gz);
}

#[test]
fn bodies_from_both_encodings() {
    let s = bodies_from_encodings(b"hello".to_vec(), 5, Some(vec![1, 2]), Some(vec![3])).unwrap();
    assert_eq!(s.body, b"hello".to_vec());
    assert_eq!(s.body_br, vec![1, 2]);
    assert_eq!(s.body_gz, vec![3]);
    assert_eq!(s.etag, "\"a430d84680aabd0b\"");
    assert_eq!(s.upstream_ms, 5);
}

#[test]
fn bodies_need_both_encodings() {
    assert!(bodies_from_encodings(b"x".to_vec(), 0, None, Some(vec![3])).is_none());
    assert!(bodies_from_encodings(b"x".to_vec(), 0, Some(vec![1]), None).is_none());
    assert!(bodies_from_encodings(b"x".to_vec(), 0, None, None).is_none());
}
