//! Cached response bodies: the raw JSON, its brotli and gzip encodings, and an
//! ETag derived from the raw bytes.
use vstd::prelude::*;
use crate::text::{hex_lower, is_digit_char, lemma_digits_chars, lemma_hex_value, push_digits};

verus! {

/// One FNV-1a round: xor the byte in, multiply by the 64-bit FNV prime.
pub open spec fn fnv1a_step(h: u64, b: u8) -> u64 {
    (h ^ (b as u64)).wrapping_mul(0x100000001b3)
}

/// The 64-bit FNV-1a hash of `s`.
pub open spec fn spec_fnv1a(s: Seq<u8>) -> u64
    decreases s.len(),
{
    if s.len() == 0 {
        0xcbf29ce484222325
    } else {
        fnv1a_step(spec_fnv1a(s.drop_last()), s.last())
    }
}

/// The 64-bit FNV-1a hash of `bytes`.
pub fn fnv1a(bytes: &[u8]) -> (h: u64)
    ensures
        h == spec_fnv1a(bytes@),
{
    let mut h: u64 = 0xcbf29ce484222325;
    let n = bytes.len();
    let mut i: usize = 0;
    while i < n
        invariant
            n == bytes@.len(),
            i <= n,
            h == spec_fnv1a(bytes@.take(i as int)),
        decreases n - i,
    {
        proof {
            assert(bytes@.take(i + 1).drop_last() == bytes@.take(i as int));
        }
        h = h ^ (bytes[i] as u64);
        h = h.wrapping_mul(0x100000001b3);
        i = i + 1;
    }
    assert(bytes@.take(n as int) == bytes@);
    h
}

/// The FNV-1a hash starts from the 64-bit offset basis and takes in every byte,
/// the last one included: the hash of `s` followed by `b` is the hash of `s` with
/// `b` xored in, times the FNV prime (wrapping), for every length of `s`.
pub proof fn lemma_fnv1a_steps(s: Seq<u8>, b: u8)
    ensures
        spec_fnv1a(Seq::<u8>::empty()) == 0xcbf29ce484222325u64,
        spec_fnv1a(s.push(b)) == (spec_fnv1a(s) ^ (b as u64)).wrapping_mul(0x100000001b3u64),
{
    assert(s.push(b).drop_last() == s);
}

/// The hash depends on every byte: two texts that differ only in their last byte
/// hash differently, whatever comes before it.
pub proof fn lemma_fnv1a_last_byte(s: Seq<u8>, x: u8, y: u8)
    requires
        x != y,
    ensures
        spec_fnv1a(s.push(x)) != spec_fnv1a(s.push(y)),
{
    lemma_fnv1a_steps(s, x);
    lemma_fnv1a_steps(s, y);
    let h = spec_fnv1a(s);
    lemma_fnv_step_injective(h, x, y);
}

proof fn lemma_fnv_step_injective(h: u64, x: u8, y: u8)
    requires
        x != y,
    ensures
        (h ^ (x as u64)).wrapping_mul(0x100000001b3u64) != (h ^ (y as u64)).wrapping_mul(0x100000001b3u64),
{
    let a = h ^ (x as u64);
    let b = h ^ (y as u64);
    let xx = x as u64;
    let yy = y as u64;
    assert(xx != yy);
    assert(a != b) by (bit_vector)
        requires
            xx != yy,
            a == h ^ xx,
            b == h ^ yy,
    ;
    lemma_mul_prime_injective(a, b);
}

/// Multiplying by the FNV prime is a bijection on 64-bit words: it is undone by
/// multiplying by the prime's inverse modulo 2^64.
proof fn lemma_mul_prime_injective(a: u64, b: u64)
    requires
        a != b,
    ensures
        a.wrapping_mul(0x100000001b3u64) != b.wrapping_mul(0x100000001b3u64),
{
    let pa = a.wrapping_mul(0x100000001b3u64);
    let pb = b.wrapping_mul(0x100000001b3u64);
    assert(pa.wrapping_mul(0xce965057aff6957bu64) == a) by (bit_vector)
        requires
            pa == a.wrapping_mul(0x100000001b3u64),
    ;
    assert(pb.wrapping_mul(0xce965057aff6957bu64) == b) by (bit_vector)
        requires
            pb == b.wrapping_mul(0x100000001b3u64),
    ;
}

/// The ETag of a body: its FNV-1a hash in lower-case hex, in double quotes.
pub open spec fn spec_etag(body: Seq<u8>) -> Seq<char> {
    seq!['"'] + hex_lower(spec_fnv1a(body) as nat) + seq!['"']
}

/// The ETag of `body`.
pub fn etag(body: &[u8]) -> (r: String)
    ensures
        r@ == spec_etag(body@),
{
    let h = fnv1a(body);
    let mut r = String::new();
    r.push('"');
    push_digits(&mut r, h as u128, 16);
    r.push('"');
    r
}

/// What brotli's `CompressorWriter` with an 8192-byte buffer, quality 6 and a
/// 22-bit window writes for `data`.
pub uninterp spec fn brotli_q6(data: Seq<u8>) -> Seq<u8>;

/// What flate2's `GzEncoder` at compression level 6 writes for `data`.
pub uninterp spec fn gzip_level6(data: Seq<u8>) -> Seq<u8>;

/// Compresses `data` with `brotli::CompressorWriter::new(.., 8192, 6, 22)`.
/// Trusted: the write succeeds and the output is `brotli_q6(data)`, a function of
/// `data` alone (the encoder takes no clock or randomness). In brotli's writer a
/// write fails only when the `Vec` it writes into fails, which it never does, or
/// when `compress_stream` reports misuse (metadata mode, input after the stream
/// was finished, or a block past the input block size), none of which a fresh
/// encoder fed by `write_all` reaches; dropping the writer finishes the stream.
#[verifier::external_body]
fn brotli_compress(data: &[u8]) -> (r: Option<Vec<u8>>)
    ensures
        r is Some,
        r matches Some(out) ==> out@ == brotli_q6(data@),
{
    let mut out = Vec::new();
    {
        let mut w = brotli::CompressorWriter::new(&mut out, 8192, 6, 22);
        if std::io::Write::write_all(&mut w, data).is_err() {
            return None;
        }
    }
    Some(out)
}

/// Compresses `data` with `flate2::write::GzEncoder` at `Compression::new(6)`,
/// writing all of `data` and finishing the stream. Trusted: both succeed and the
/// output is `gzip_level6(data)`, a function of `data` alone (the header's
/// modification time is left at 0). The encoder writes into a `Vec`, which never
/// fails, and miniz_oxide's deflate reports an error only for a stream in a state
/// that these calls never put it in.
#[verifier::external_body]
fn gzip_compress(data: &[u8]) -> (r: Option<Vec<u8>>)
    ensures
        r is Some,
        r matches Some(out) ==> out@ == gzip_level6(data@),
{
    let mut out = Vec::new();
    let mut w = flate2::write::GzEncoder::new(&mut out, flate2::Compression::new(6));
    if std::io::Write::write_all(&mut w, data).is_err() || w.finish().is_err() {
        return None;
    }
    Some(out)
}

/// A response body ready to serve in any of the encodings a client may ask for.
pub struct SnapshotBodies {
    pub body: Vec<u8>,
    pub body_br: Vec<u8>,
    pub body_gz: Vec<u8>,
    pub etag: String,
    pub upstream_ms: u64,
}

/// Precomputes the brotli and gzip encodings of `bytes` and its ETag. Encoding
/// into memory does not fail, so a snapshot is always produced.
pub fn snapshot_from_bytes(bytes: Vec<u8>, upstream_ms: u64) -> (r: Option<SnapshotBodies>)
    ensures
        r matches Some(s) && {
            &&& s.body@ == bytes@
            &&& s.body_br@ == brotli_q6(bytes@)
            &&& s.body_gz@ == gzip_level6(bytes@)
            &&& s.etag@ == spec_etag(bytes@)
            &&& s.upstream_ms == upstream_ms
        },
{
    let br = brotli_compress(bytes.as_slice());
    let gz = match br {
        Some(_) => gzip_compress(bytes.as_slice()),
        None => None,
    };
    bodies_from_encodings(bytes, upstream_ms, br, gz)
}

/// Assembles the bodies from the raw bytes and what the two encoders gave back:
/// `Some` exactly when both encodings are there, with the ETag of `bytes`.
pub fn bodies_from_encodings(
    bytes: Vec<u8>,
    upstream_ms: u64,
    br: Option<Vec<u8>>,
    gz: Option<Vec<u8>>,
) -> (r: Option<SnapshotBodies>)
    ensures
        r is Some <==> (br is Some && gz is Some),
        r matches Some(s) ==> {
            &&& s.body@ == bytes@
            &&& s.body_br@ == br->0@
            &&& s.body_gz@ == gz->0@
            &&& s.etag@ == spec_etag(bytes@)
            &&& s.upstream_ms == upstream_ms
        },
{
    match (br, gz) {
        (Some(b), Some(g)) => {
            let tag = etag(bytes.as_slice());
            Some(SnapshotBodies { body: bytes, body_br: b, body_gz: g, etag: tag, upstream_ms })
        },
        _ => None,
    }
}

/// Two bodies get the same ETag exactly when their FNV-1a hashes are equal; a
/// body whose hash changed gets a new ETag, so a client holding the old one is
/// sent the new body.
pub proof fn lemma_etag_identifies_hash(a: Seq<u8>, b: Seq<u8>)
    ensures
        spec_etag(a) == spec_etag(b) <==> spec_fnv1a(a) == spec_fnv1a(b),
{
    if spec_etag(a) == spec_etag(b) {
        let ha = hex_lower(spec_fnv1a(a) as nat);
        let hb = hex_lower(spec_fnv1a(b) as nat);
        assert(spec_etag(a).subrange(1, spec_etag(a).len() - 1) =~= ha);
        assert(spec_etag(b).subrange(1, spec_etag(b).len() - 1) =~= hb);
        lemma_hex_value(spec_fnv1a(a) as nat);
        lemma_hex_value(spec_fnv1a(b) as nat);
    }
}

/// Every ETag is a quoted, non-empty run of lower-case hex digits, so it is always
/// a valid header value.
pub proof fn lemma_etag_shape(body: Seq<u8>)
    ensures
        spec_etag(body).len() >= 3,
        spec_etag(body)[0] == '"',
        spec_etag(body).last() == '"',
        forall|i: int| 1 <= i < spec_etag(body).len() - 1 ==> is_digit_char(#[trigger] spec_etag(body)[i]),
{
    let h = hex_lower(spec_fnv1a(body) as nat);
    lemma_digits_chars(spec_fnv1a(body) as nat, 16);
    assert forall|i: int| 1 <= i < spec_etag(body).len() - 1 implies is_digit_char(#[trigger] spec_etag(body)[i]) by {
        assert(spec_etag(body)[i] == h[i - 1]);
    }
}

} // verus!
