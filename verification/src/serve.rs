//! How a cached snapshot is served: revalidation against the client's ETag,
//! choice of a precompressed body, and the response headers.
use vstd::prelude::*;
use vstd::string::StringExecFns;
use crate::text::{chars_of, decimal, push_decimal};

verus! {

/// `needle` occurs in `hay`.
pub open spec fn occurs_in(hay: Seq<char>, needle: Seq<char>) -> bool {
    exists|i: int| 0 <= i <= hay.len() - needle.len() && #[trigger] hay.subrange(i, i + needle.len()) == needle
}

/// Whether `needle` occurs in `hay`, as `str::contains` decides.
pub fn contains_text(hay: &str, needle: &str) -> (r: bool)
    ensures
        r == occurs_in(hay@, needle@),
{
    let h = chars_of(hay);
    let n = chars_of(needle);
    if n.len() > h.len() {
        return false;
    }
    let last = h.len() - n.len();
    let mut i: usize = 0;
    while i <= last
        invariant
            h@ == hay@,
            n@ == needle@,
            last == h.len() - n.len(),
            i <= last + 1,
            forall|j: int| 0 <= j < i ==> #[trigger] h@.subrange(j, j + n.len()) != n@,
        decreases last + 1 - i,
    {
        let mut k: usize = 0;
        while k < n.len() && h[i + k] == n[k]
            invariant
                h@ == hay@,
                n@ == needle@,
                last == h.len() - n.len(),
                i <= last,
                k <= n.len(),
                forall|m: int| 0 <= m < k ==> h@[i + m] == n@[m],
            decreases n.len() - k,
        {
            k = k + 1;
        }
        if k == n.len() {
            assert(h@.subrange(i as int, i + n.len()) =~= n@);
            return true;
        }
        assert(h@.subrange(i as int, i + n.len())[k as int] != n@[k as int]);
        i = i + 1;
    }
    false
}

/// Which stored body answers a request.
pub enum BodyEncoding {
    Brotli,
    Gzip,
    Identity,
}

/// The answer to a request for a cached snapshot.
pub enum SnapshotReply {
    /// 304 with only the ETag header.
    NotModified { etag: String },
    /// 200 with the given headers and the chosen body.
    Full { headers: Vec<(String, String)>, encoding: BodyEncoding },
}

/// A snapshot older than two minutes is reported stale.
pub open spec fn is_stale(age_nanos: int) -> bool {
    age_nanos > 120_000_000_000
}

/// The body a client gets for its `Accept-Encoding`: brotli when it names `br`,
/// else gzip when it names `gzip`, else the raw body.
pub open spec fn chosen_encoding(accept: Seq<char>) -> BodyEncoding {
    if occurs_in(accept, "br"@) {
        BodyEncoding::Brotli
    } else if occurs_in(accept, "gzip"@) {
        BodyEncoding::Gzip
    } else {
        BodyEncoding::Identity
    }
}

/// The headers of a full response, in the order they are set.
pub open spec fn full_headers(
    etag: Seq<char>,
    cache_control: Seq<char>,
    age_nanos: int,
    upstream_ms: int,
    enc: BodyEncoding,
) -> Seq<(Seq<char>, Seq<char>)> {
    let base = seq![
        ("content-type"@, "application/json; charset=utf-8"@),
        ("etag"@, etag),
        ("cache-control"@, cache_control),
        ("vary"@, "Accept-Encoding"@),
        ("x-cache-age-ms"@, decimal((age_nanos / 1_000_000) as nat)),
        ("x-cache-stale"@, if is_stale(age_nanos) { seq!['1'] } else { seq!['0'] }),
        ("x-upstream-ms"@, decimal(upstream_ms as nat)),
    ];
    match enc {
        BodyEncoding::Brotli => base.push(("content-encoding"@, "br"@)),
        BodyEncoding::Gzip => base.push(("content-encoding"@, "gzip"@)),
        BodyEncoding::Identity => base,
    }
}

/// The header pairs as texts.
pub open spec fn header_views(h: Seq<(String, String)>) -> Seq<(Seq<char>, Seq<char>)> {
    h.map_values(|p: (String, String)| (p.0@, p.1@))
}

fn text(s: &str) -> (r: String)
    ensures
        r@ == s@,
{
    let mut r = String::new();
    r.append(s);
    r
}

fn push_header(h: &mut Vec<(String, String)>, name: &str, value: String)
    ensures
        header_views(final(h)@) == header_views(old(h)@).push((name@, value@)),
{
    let ghost before = h@;
    h.push((text(name), value));
    assert(header_views(h@) =~= header_views(before).push((name@, value@)));
}

/// Answers a request for a snapshot with ETag `etag`, `age_nanos` old, that took
/// `upstream_ms` to fetch. A request whose `If-None-Match` is the ETag gets a 304;
/// any other gets the body its `Accept-Encoding` prefers and the full headers.
pub fn serve_snapshot(
    etag: &str,
    if_none_match: Option<&str>,
    accept_encoding: Option<&str>,
    cache_control: &str,
    age_nanos: u128,
    upstream_ms: u64,
) -> (r: SnapshotReply)
    ensures
        (if_none_match matches Some(t) && t@ == etag@) ==> (r matches SnapshotReply::NotModified {
            etag: e,
        } && e@ == etag@),
        !(if_none_match matches Some(t) && t@ == etag@) ==> (r matches SnapshotReply::Full {
            headers,
            encoding,
        } && encoding == chosen_encoding(
            match accept_encoding {
                Some(a) => a@,
                None => Seq::empty(),
            },
        ) && header_views(headers@) == full_headers(
            etag@,
            cache_control@,
            age_nanos as int,
            upstream_ms as int,
            encoding,
        )),
{
    match if_none_match {
        Some(t) => {
            if crate::text::same_text(t, etag) {
                return SnapshotReply::NotModified { etag: text(etag) };
            }
        },
        None => {},
    }
    let accept = match accept_encoding {
        Some(a) => a,
        None => "",
    };
    proof {
        reveal_strlit("");
        assert(accept@ =~= match accept_encoding {
            Some(a) => a@,
            None => Seq::<char>::empty(),
        });
    }
    let enc = if contains_text(accept, "br") {
        BodyEncoding::Brotli
    } else if contains_text(accept, "gzip") {
        BodyEncoding::Gzip
    } else {
        BodyEncoding::Identity
    };
    let stale = age_nanos > 120_000_000_000;
    let mut h: Vec<(String, String)> = Vec::new();
    push_header(&mut h, "content-type", text("application/json; charset=utf-8"));
    push_header(&mut h, "etag", text(etag));
    push_header(&mut h, "cache-control", text(cache_control));
    push_header(&mut h, "vary", text("Accept-Encoding"));
    let mut age = String::new();
    push_decimal(&mut age, age_nanos / 1_000_000);
    push_header(&mut h, "x-cache-age-ms", age);
    proof {
        reveal_strlit("1");
        reveal_strlit("0");
    }
    push_header(&mut h, "x-cache-stale", text(if stale { "1" } else { "0" }));
    let mut up = String::new();
    push_decimal(&mut up, upstream_ms as u128);
    push_header(&mut h, "x-upstream-ms", up);
    match enc {
        BodyEncoding::Brotli => push_header(&mut h, "content-encoding", text("br")),
        BodyEncoding::Gzip => push_header(&mut h, "content-encoding", text("gzip")),
        BodyEncoding::Identity => {},
    }
    let ghost hv = header_views(h@);
    // the view of each header pair, stated so the solver unfolds the map
    assert(hv[0] == ("content-type"@, "application/json; charset=utf-8"@));
    assert(hv[4] == ("x-cache-age-ms"@, decimal((age_nanos / 1_000_000) as nat)));
    assert(hv[5] == ("x-cache-stale"@, if is_stale(age_nanos as int) { seq!['1'] } else { seq!['0'] }));
    assert(header_views(h@) =~= full_headers(
        etag@,
        cache_control@,
        age_nanos as int,
        upstream_ms as int,
        enc,
    ));
    SnapshotReply::Full { headers: h, encoding: enc }
}

proof fn lemma_header_names_differ()
    ensures
        "content-encoding"@ != "content-type"@,
        "content-encoding"@ != "etag"@,
        "content-encoding"@ != "cache-control"@,
        "content-encoding"@ != "vary"@,
        "content-encoding"@ != "x-cache-age-ms"@,
        "content-encoding"@ != "x-cache-stale"@,
        "content-encoding"@ != "x-upstream-ms"@,
        "br"@ != "gzip"@,
{
    reveal_strlit("content-encoding");
    reveal_strlit("content-type");
    reveal_strlit("etag");
    reveal_strlit("cache-control");
    reveal_strlit("vary");
    reveal_strlit("x-cache-age-ms");
    reveal_strlit("x-cache-stale");
    reveal_strlit("x-upstream-ms");
    reveal_strlit("br");
    reveal_strlit("gzip");
    assert("content-encoding"@[8] != "content-type"@[8]);
    assert("content-encoding"@.len() != "etag"@.len());
    assert("content-encoding"@[0] != "cache-control"@[0] || "content-encoding"@.len() != "cache-control"@.len());
    assert("content-encoding"@.len() != "vary"@.len());
    assert("content-encoding"@[0] != "x-cache-age-ms"@[0]);
    assert("content-encoding"@[0] != "x-cache-stale"@[0]);
    assert("content-encoding"@[0] != "x-upstream-ms"@[0]);
    assert("br"@.len() != "gzip"@.len());
}

/// A compressed body is always labelled: a full response carries exactly one
/// `content-encoding` header, naming `br` for the brotli body and `gzip` for the
/// gzip body, and the raw body carries none. The ETag, cache policy and `vary`
/// headers are there whatever the body.
pub proof fn lemma_full_headers_label_body(
    etag: Seq<char>,
    cache_control: Seq<char>,
    age_nanos: int,
    upstream_ms: int,
    enc: BodyEncoding,
)
    ensures
        ({
            let h = full_headers(etag, cache_control, age_nanos, upstream_ms, enc);
            &&& enc is Gzip ==> (exists|i: int| 0 <= i < h.len() && h[i] == ("content-encoding"@, "gzip"@))
            &&& enc is Brotli ==> (exists|i: int| 0 <= i < h.len() && h[i] == ("content-encoding"@, "br"@))
            &&& forall|i: int|
                0 <= i < h.len() && (#[trigger] h[i]).0 == "content-encoding"@ ==> !(enc is Identity) && h[i].1
                    == (if enc is Brotli {
                    "br"@
                } else {
                    "gzip"@
                })
            &&& exists|i: int| 0 <= i < h.len() && h[i] == ("etag"@, etag)
            &&& exists|i: int| 0 <= i < h.len() && h[i] == ("cache-control"@, cache_control)
            &&& exists|i: int| 0 <= i < h.len() && h[i] == ("vary"@, "Accept-Encoding"@)
        }),
{
    lemma_header_names_differ();
    let h = full_headers(etag, cache_control, age_nanos, upstream_ms, enc);
    assert(h[1] == ("etag"@, etag));
    assert(h[2] == ("cache-control"@, cache_control));
    assert(h[3] == ("vary"@, "Accept-Encoding"@));
    match enc {
        BodyEncoding::Gzip => {
            assert(h[7] == ("content-encoding"@, "gzip"@));
        },
        BodyEncoding::Brotli => {
            assert(h[7] == ("content-encoding"@, "br"@));
        },
        BodyEncoding::Identity => {},
    }
    assert forall|i: int| 0 <= i < h.len() && (#[trigger] h[i]).0 == "content-encoding"@ implies !(
    enc is Identity) && h[i].1 == (if enc is Brotli {
        "br"@
    } else {
        "gzip"@
    }) by {
        assert(i == 7);
    }
}

/// The other headers of a full response report the snapshot: the age in whole
/// milliseconds, whether it is older than two minutes, the upstream time, and the
/// JSON content type.
pub proof fn lemma_full_headers_report_snapshot(
    etag: Seq<char>,
    cache_control: Seq<char>,
    age_nanos: int,
    upstream_ms: int,
    enc: BodyEncoding,
)
    ensures
        ({
            let h = full_headers(etag, cache_control, age_nanos, upstream_ms, enc);
            &&& exists|i: int| 0 <= i < h.len() && h[i] == ("x-cache-age-ms"@, decimal((age_nanos / 1_000_000) as nat))
            &&& exists|i: int| 0 <= i < h.len() && h[i] == ("x-upstream-ms"@, decimal(upstream_ms as nat))
            &&& age_nanos > 120_000_000_000 ==> exists|i: int| 0 <= i < h.len() && h[i] == ("x-cache-stale"@, seq!['1'])
            &&& age_nanos <= 120_000_000_000 ==> exists|i: int| 0 <= i < h.len() && h[i] == ("x-cache-stale"@, seq!['0'])
            &&& exists|i: int| 0 <= i < h.len() && h[i] == ("content-type"@, "application/json; charset=utf-8"@)
        }),
{
    let h = full_headers(etag, cache_control, age_nanos, upstream_ms, enc);
    assert(h[0] == ("content-type"@, "application/json; charset=utf-8"@));
    assert(h[4] == ("x-cache-age-ms"@, decimal((age_nanos / 1_000_000) as nat)));
    assert(h[5].0 == "x-cache-stale"@);
    assert(h[6] == ("x-upstream-ms"@, decimal(upstream_ms as nat)));
}

/// The body follows the client's `Accept-Encoding`: brotli whenever it names
/// `br`, gzip when it names `gzip` but not `br`, the raw body otherwise.
pub proof fn lemma_encoding_follows_accept(accept: Seq<char>)
    ensures
        occurs_in(accept, "br"@) ==> chosen_encoding(accept) is Brotli,
        !occurs_in(accept, "br"@) && occurs_in(accept, "gzip"@) ==> chosen_encoding(accept) is Gzip,
        !occurs_in(accept, "br"@) && !occurs_in(accept, "gzip"@) ==> chosen_encoding(accept) is Identity,
{
}

} // verus!
