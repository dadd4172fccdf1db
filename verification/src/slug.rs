//! Event slugs: which names the server accepts for an event.
use vstd::prelude::*;
use vstd::string::StringSliceAdditionalSpecFns;

verus! {

/// A character allowed inside a slug: ASCII letter or digit, `-` or `_`.
pub open spec fn slug_char(c: char) -> bool {
    ('a' <= c && c <= 'z') || ('A' <= c && c <= 'Z') || ('0' <= c && c <= '9') || c == '-' || c
        == '_'
}

/// A slug is non-empty, at most 100 characters long, and made of slug characters only.
/// (Slug characters are ASCII, so 100 characters are 100 bytes: see `lemma_slug_bytes`.)
pub open spec fn spec_slug_ok(s: Seq<char>) -> bool {
    &&& s.len() > 0
    &&& s.len() <= 100
    &&& forall|i: int| 0 <= i < s.len() ==> slug_char(#[trigger] s[i])
}

/// An accepted slug is as many bytes long as it has characters, so the bound of 100
/// characters is a bound of 100 bytes.
pub proof fn lemma_slug_bytes(s: &str)
    requires
        spec_slug_ok(s@),
    ensures
        s.spec_bytes().len() == s@.len(),
{
    broadcast use vstd::string::is_ascii_spec_bytes;

    assert(vstd::string::is_ascii(s));
}

/// An accepted slug is safe to put in a path, a URL, a JSON string or a header:
/// it holds no `/`, `.`, `"`, `\\`, space, newline or `%`, and it is 1 to 100
/// characters long.
pub proof fn lemma_slug_safe(s: Seq<char>)
    requires
        spec_slug_ok(s),
    ensures
        1 <= s.len() <= 100,
        forall|i: int|
            0 <= i < s.len() ==> {
                let c = #[trigger] s[i];
                c != '/' && c != '.' && c != '"' && c != '\\' && c != ' ' && c != '\n' && c != '%'
            },
{
    assert forall|i: int| 0 <= i < s.len() implies {
        let c = #[trigger] s[i];
        c != '/' && c != '.' && c != '"' && c != '\\' && c != ' ' && c != '\n' && c != '%'
    } by {
        assert(slug_char(s[i]));
    }
}

/// Whether `s` is an acceptable event slug.
pub fn slug_ok(s: &str) -> (r: bool)
    ensures
        r == spec_slug_ok(s@),
{
    let mut n: usize = 0;
    for c in it: s.chars()
        invariant
            it.seq() == s@,
            n == it.index(),
            n <= 100,
            forall|j: int| 0 <= j < it.index() ==> slug_char(#[trigger] s@[j]),
    {
        if n >= 100 {
            return false;
        }
        if !(('a' <= c && c <= 'z') || ('A' <= c && c <= 'Z') || ('0' <= c && c <= '9') || c == '-'
            || c == '_') {
            return false;
        }
        n = n + 1;
    }
    n > 0
}

} // verus!
