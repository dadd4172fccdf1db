//! Requests to the upstream API: URLs, request bodies, and the walk through the
//! paginated tracks endpoint.
use vstd::prelude::*;
use vstd::string::StringExecFns;
use crate::text::same_text;

verus! {

/// The upstream API's base URL.
pub open spec fn upstream() -> Seq<char> {
    "https://api.madcap.cc"@
}

fn url(path: &str) -> (r: String)
    ensures
        r@ == upstream() + path@,
{
    let mut r = String::new();
    r.append("https://api.madcap.cc");
    r.append(path);
    r
}

/// The URL of an event's info.
pub fn info_url(slug: &str) -> (r: String)
    ensures
        r@ == upstream() + "/event/v1/"@ + slug@ + "/info"@,
{
    let mut r = url("/event/v1/");
    r.append(slug);
    r.append("/info");
    r
}

/// The URL of an event's participants.
pub fn participants_url(slug: &str) -> (r: String)
    ensures
        r@ == upstream() + "/event/v3/participants/"@ + slug@,
{
    let mut r = url("/event/v3/participants/");
    r.append(slug);
    r
}

/// The URL of the checkpoints and routes (POSTed with the event in the body).
pub fn geo_url() -> (r: String)
    ensures
        r@ == upstream() + "/event/geo/v3"@,
{
    url("/event/geo/v3")
}

/// The URL of the journal entries (POSTed with the event in the body).
pub fn journals_url() -> (r: String)
    ensures
        r@ == upstream() + "/event/journals"@,
{
    url("/event/journals")
}

/// The URL of the list of public events.
pub fn events_list_url() -> (r: String)
    ensures
        r@ == upstream() + "/v1/events/list"@,
{
    url("/v1/events/list")
}

/// The URL of the tracks page of `slug` that ends at cursor `ts`.
pub fn tracks_url(slug: &str, ts: &str) -> (r: String)
    ensures
        r@ == upstream() + "/event/v1/tracks/"@ + slug@ + "?ts="@ + ts@,
{
    let mut r = url("/event/v1/tracks/");
    r.append(slug);
    r.append("?ts=");
    r.append(ts);
    r
}

/// `s` without its double quotes.
pub open spec fn without_quotes(s: Seq<char>) -> Seq<char> {
    s.filter(|c: char| c != '"')
}

/// The JSON body naming the event for the POST endpoints:
/// `{"event":"<slug without double quotes>"}`.
pub fn event_request_body(slug: &str) -> (r: String)
    ensures
        r@ == "{\"event\":\""@ + without_quotes(slug@) + "\"}"@,
{
    let mut inner = String::new();
    let ghost keep = |c: char| c != '"';
    for c in it: slug.chars()
        invariant
            it.seq() == slug@,
            keep == (|c: char| c != '"'),
            inner@ == slug@.take(it.index() as int).filter(keep),
    {
        proof {
            let i = it.index() as int;
            assert(slug@.take(i + 1) == slug@.take(i).push(c));
            slug@.take(i).lemma_filter_push(c, keep);
        }
        if c != '"' {
            inner.push(c);
        }
    }
    assert(slug@.take(slug@.len() as int) == slug@);
    let mut r = String::new();
    r.append("{\"event\":\"");
    r.append(inner.as_str());
    r.append("\"}");
    r
}

/// The most tracks pages fetched for one event.
pub open spec fn max_track_pages() -> int {
    30
}

/// Where the walk through the tracks pages stands: the cursor `ts` of the next page
/// to fetch, the cursor of the page fetched before it, and how many pages were
/// fetched before it.
pub struct TrackCursor {
    pub ts: String,
    pub prev_ts_used: Option<String>,
    pub pages_fetched: usize,
}

/// The walk starts at the newest page, `ts=now`, with nothing fetched.
pub fn first_track_cursor() -> (c: TrackCursor)
    ensures
        c.ts@ == "now"@,
        c.prev_ts_used is None,
        c.pages_fetched == 0,
{
    let mut ts = String::new();
    ts.append("now");
    TrackCursor { ts, prev_ts_used: None, pages_fetched: 0 }
}

/// The walk goes on to `prev` after the page at `c` was fetched: the page linked an
/// older page, that link is neither the page itself nor the page fetched before
/// it, and fewer than the most pages have been fetched.
pub open spec fn continues_to(c: TrackCursor, prev: Option<String>) -> bool {
    &&& c.pages_fetched + 1 < max_track_pages()
    &&& prev matches Some(p)
    &&& p@ != c.ts@
    &&& !(c.prev_ts_used matches Some(u) && u@ == p@)
}

/// The walk through the tracks pages ends: it goes on only while fewer than 29
/// pages lie behind the one just fetched, so at most 30 pages are fetched, and it
/// never goes back to the page just fetched or the one fetched before it.
pub proof fn lemma_track_walk_bounded(c: TrackCursor, prev: Option<String>)
    ensures
        continues_to(c, prev) ==> c.pages_fetched + 2 <= 30 && prev is Some && prev->0@ != c.ts@ && !(
        c.prev_ts_used is Some && c.prev_ts_used->0@ == prev->0@),
        prev is None ==> !continues_to(c, prev),
        c.pages_fetched + 1 >= 30 ==> !continues_to(c, prev),
{
}

/// The cursor after the page at `c` was fetched and linked to `previous_page_ts`;
/// `None` when the walk stops.
pub fn next_track_cursor(c: TrackCursor, previous_page_ts: Option<String>) -> (r: Option<TrackCursor>)
    requires
        c.pages_fetched < max_track_pages(),
    ensures
        continues_to(c, previous_page_ts) ==> (r matches Some(n) && previous_page_ts matches Some(p)
            && n.ts == p && n.prev_ts_used == Some(c.ts) && n.pages_fetched == c.pages_fetched + 1),
        !continues_to(c, previous_page_ts) ==> r is None,
        r matches Some(n) ==> n.pages_fetched < max_track_pages(),
{
    if c.pages_fetched + 1 >= 30 {
        return None;
    }
    let p = match previous_page_ts {
        Some(p) => p,
        None => return None,
    };
    if same_text(p.as_str(), c.ts.as_str()) {
        return None;
    }
    let seen = match &c.prev_ts_used {
        Some(u) => same_text(u.as_str(), p.as_str()),
        None => false,
    };
    if seen {
        return None;
    }
    Some(TrackCursor { ts: p, prev_ts_used: Some(c.ts), pages_fetched: c.pages_fetched + 1 })
}

} // verus!
