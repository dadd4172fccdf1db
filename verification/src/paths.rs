//! Where snapshots are persisted under the cache directory, and which files there
//! hold an event's snapshot.
use vstd::prelude::*;
use vstd::string::StringExecFns;
use crate::slug::{slug_ok, spec_slug_ok};
use crate::text::{chars_of, string_of_range};

verus! {

/// `base` extended by `part` as `PathBuf::push` does on Unix: an absolute `part`
/// replaces `base`; otherwise a `/` separates them unless `base` is empty or
/// already ends in one.
pub open spec fn path_join(base: Seq<char>, part: Seq<char>) -> Seq<char> {
    if part.len() > 0 && part[0] == '/' {
        part
    } else if base.len() == 0 || base.last() == '/' {
        base + part
    } else {
        base + seq!['/'] + part
    }
}

/// `base` extended by `part` (see `path_join`).
pub fn join_path(base: &str, part: &str) -> (r: String)
    ensures
        r@ == path_join(base@, part@),
{
    let b = chars_of(base);
    let p = chars_of(part);
    let mut r = String::new();
    if p.len() > 0 && p[0] == '/' {
        r.append(part);
        return r;
    }
    r.append(base);
    if b.len() > 0 && b[b.len() - 1] != '/' {
        r.push('/');
    }
    r.append(part);
    r
}

/// Where the snapshot of event `slug` is persisted: `<dir>/events/<slug>.json`.
pub open spec fn spec_event_cache_path(dir: Seq<char>, slug: Seq<char>) -> Seq<char> {
    path_join(path_join(dir, "events"@), slug + ".json"@)
}

/// Where the snapshot of event `slug` is persisted under `dir`.
pub fn event_cache_path(dir: &str, slug: &str) -> (r: String)
    ensures
        r@ == spec_event_cache_path(dir@, slug@),
{
    let events = join_path(dir, "events");
    let mut file = String::new();
    file.append(slug);
    file.append(".json");
    join_path(events.as_str(), file.as_str())
}

/// Where the overtake log of event `slug` is persisted:
/// `<dir>/overtakes/<slug>.json`.
pub open spec fn spec_overtakes_path(dir: Seq<char>, slug: Seq<char>) -> Seq<char> {
    path_join(path_join(dir, "overtakes"@), slug + ".json"@)
}

/// Where the overtake log of event `slug` is persisted under `dir`.
pub fn overtakes_path(dir: &str, slug: &str) -> (r: String)
    ensures
        r@ == spec_overtakes_path(dir@, slug@),
{
    let sub = join_path(dir, "overtakes");
    let mut file = String::new();
    file.append(slug);
    file.append(".json");
    join_path(sub.as_str(), file.as_str())
}

/// Where the events list is persisted under `dir`: `<dir>/events_list.json`.
pub fn events_list_cache_path(dir: &str) -> (r: String)
    ensures
        r@ == path_join(dir@, "events_list.json"@),
{
    join_path(dir, "events_list.json")
}

/// The event whose snapshot a file of the cache directory holds: the file is named
/// `<slug>.json` for an acceptable slug. (An acceptable slug holds no `.`, so this
/// is the file whose extension is `json` and whose stem is the slug.)
pub open spec fn spec_cached_slug(file_name: Seq<char>) -> Option<Seq<char>> {
    if file_name.len() >= 5 && file_name.skip(file_name.len() - 5) == ".json"@ && spec_slug_ok(
        file_name.take(file_name.len() - 5),
    ) {
        Some(file_name.take(file_name.len() - 5))
    } else {
        None
    }
}

/// The slug of the event whose snapshot the file named `file_name` holds, if it
/// holds one.
pub fn slug_from_cache_file_name(file_name: &str) -> (r: Option<String>)
    ensures
        r matches Some(s) ==> spec_cached_slug(file_name@) == Some(s@),
        r is None ==> spec_cached_slug(file_name@) is None,
{
    let v = chars_of(file_name);
    let n = v.len();
    if n < 5 {
        return None;
    }
    let suffix = string_of_range(&v, n - 5, n);
    proof {
        reveal_strlit(".json");
        assert(v@.skip(n - 5) == v@.subrange(n - 5, n as int));
    }
    if !crate::text::same_text(suffix.as_str(), ".json") {
        return None;
    }
    let stem = string_of_range(&v, 0, n - 5);
    assert(stem@ == file_name@.take(n - 5));
    if slug_ok(stem.as_str()) {
        Some(stem)
    } else {
        None
    }
}

/// A snapshot persisted for an acceptable slug is found again under that slug on
/// restart: the file written for `slug` is named `<slug>.json`, a name that reads
/// back as `slug`.
pub proof fn lemma_cache_file_roundtrip(slug: Seq<char>)
    requires
        spec_slug_ok(slug),
    ensures
        spec_cached_slug(slug + ".json"@) == Some(slug),
{
    reveal_strlit(".json");
    let f = slug + ".json"@;
    assert(f.skip(f.len() - 5) =~= ".json"@);
    assert(f.take(f.len() - 5) =~= slug);
}

} // verus!
