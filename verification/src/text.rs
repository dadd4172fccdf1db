//! Character-level helpers shared by the parsers and renderers.
use vstd::prelude::*;

verus! {

/// The characters of `s`, in order.
pub fn chars_of(s: &str) -> (r: Vec<char>)
    ensures
        r@ == s@,
{
    let mut r: Vec<char> = Vec::new();
    for c in it: s.chars()
        invariant
            it.seq() == s@,
            r@ == s@.take(it.index() as int),
    {
        r.push(c);
        proof {
            assert(s@.take(it.index() as int + 1) == s@.take(it.index() as int).push(c));
        }
    }
    assert(s@.take(s@.len() as int) == s@);
    r
}

/// The index of the first `c` in `s`.
pub open spec fn spec_find_char(s: Seq<char>, c: char) -> Option<int>
    decreases s.len(),
{
    if s.len() == 0 {
        None
    } else if s[0] == c {
        Some(0)
    } else {
        match spec_find_char(s.drop_first(), c) {
            Some(i) => Some(i + 1),
            None => None,
        }
    }
}

/// `spec_find_char` finds the first `c`, if there is one.
pub proof fn lemma_find_char(s: Seq<char>, c: char)
    ensures
        spec_find_char(s, c) matches Some(i) ==> 0 <= i < s.len() && s[i] == c && forall|j: int|
            0 <= j < i ==> s[j] != c,
        spec_find_char(s, c) is None ==> forall|j: int| 0 <= j < s.len() ==> s[j] != c,
    decreases s.len(),
{
    if s.len() > 0 {
        lemma_find_char(s.drop_first(), c);
        assert forall|j: int| 1 <= j < s.len() implies s[j] == s.drop_first()[j - 1] by {}
    }
}

/// The first `c` of `s` is at `i` exactly when `s[i]` is `c` and no `c` comes before.
pub proof fn lemma_find_char_at(s: Seq<char>, c: char, i: int)
    requires
        0 <= i < s.len(),
        s[i] == c,
        forall|j: int| 0 <= j < i ==> s[j] != c,
    ensures
        spec_find_char(s, c) == Some(i),
{
    lemma_find_char(s, c);
    if let Some(k) = spec_find_char(s, c) {
        assert(!(k < i));
        assert(!(k > i));
    }
}

/// The index of the first `c` in `v[lo..hi]`, counted from the start of `v`.
pub fn find_char(v: &Vec<char>, lo: usize, hi: usize, c: char) -> (r: Option<usize>)
    requires
        lo <= hi <= v.len(),
    ensures
        r matches Some(i) ==> lo <= i < hi && spec_find_char(v@.subrange(lo as int, hi as int), c)
            == Some(i - lo),
        r is None ==> spec_find_char(v@.subrange(lo as int, hi as int), c) is None,
{
    let ghost sub = v@.subrange(lo as int, hi as int);
    let mut i = lo;
    while i < hi
        invariant
            lo <= i <= hi <= v.len(),
            sub == v@.subrange(lo as int, hi as int),
            forall|j: int| lo <= j < i ==> v@[j] != c,
        decreases hi - i,
    {
        if v[i] == c {
            proof {
                lemma_find_char_at(sub, c, i - lo);
            }
            return Some(i);
        }
        i = i + 1;
    }
    proof {
        lemma_find_char(sub, c);
        if let Some(k) = spec_find_char(sub, c) {
            assert(sub[k] == v@[lo + k]);
        }
    }
    None
}

/// An ASCII decimal digit.
pub open spec fn is_digit(c: char) -> bool {
    '0' <= c && c <= '9'
}

/// Every character of `s` is a decimal digit.
pub open spec fn all_digits(s: Seq<char>) -> bool {
    forall|i: int| 0 <= i < s.len() ==> is_digit(#[trigger] s[i])
}

/// The value of the decimal numeral `s`.
pub open spec fn digits_value(s: Seq<char>) -> int
    decreases s.len(),
{
    if s.len() == 0 {
        0
    } else {
        digits_value(s.drop_last()) * 10 + (s.last() as int - '0' as int)
    }
}

/// What Rust's `str::parse` gives for an integer type ranging over `lo..=hi`: an
/// optional `+` (or, when `signed`, `-`) followed by at least one decimal digit,
/// with a value in range.
pub open spec fn spec_parse_int(s: Seq<char>, signed: bool, lo: int, hi: int) -> Option<int> {
    let neg = signed && s.len() > 0 && s[0] == '-';
    let body = if s.len() > 0 && (s[0] == '+' || neg) {
        s.drop_first()
    } else {
        s
    };
    if body.len() > 0 && all_digits(body) {
        let v = if neg {
            -digits_value(body)
        } else {
            digits_value(body)
        };
        if lo <= v <= hi {
            Some(v)
        } else {
            None
        }
    } else {
        None
    }
}

/// `str::parse::<u32>`.
pub open spec fn spec_parse_u32(s: Seq<char>) -> Option<int> {
    spec_parse_int(s, false, 0, u32::MAX as int)
}

/// `str::parse::<i32>`.
pub open spec fn spec_parse_i32(s: Seq<char>) -> Option<int> {
    spec_parse_int(s, true, i32::MIN as int, i32::MAX as int)
}

proof fn lemma_digits_value_monotone(s: Seq<char>, i: int)
    requires
        all_digits(s),
        0 <= i <= s.len(),
    ensures
        0 <= digits_value(s.take(i)) <= digits_value(s),
    decreases s.len(),
{
    if i == s.len() {
        assert(s.take(i) == s);
        if s.len() > 0 {
            lemma_digits_value_monotone(s.drop_last(), i - 1);
        }
    } else {
        let d = s.drop_last();
        assert(d.take(i) == s.take(i));
        assert(is_digit(s[s.len() - 1]));
        lemma_digits_value_monotone(d, i);
        lemma_digits_value_monotone(d, d.len() as int);
        assert(d.take(d.len() as int) == d);
    }
}

/// The value of the numeral `v[lo..hi]` when it is made of at least one digit and
/// its value is at most `limit`.
fn parse_digits(v: &Vec<char>, lo: usize, hi: usize, limit: u64) -> (r: Option<u64>)
    requires
        lo <= hi <= v.len(),
        limit <= u32::MAX,
    ensures
        ({
            let s = v@.subrange(lo as int, hi as int);
            match r {
                Some(x) => s.len() > 0 && all_digits(s) && x == digits_value(s) && x <= limit,
                None => !(s.len() > 0 && all_digits(s) && digits_value(s) <= limit),
            }
        }),
{
    let ghost s = v@.subrange(lo as int, hi as int);
    if lo == hi {
        return None;
    }
    let mut acc: u64 = 0;
    let mut i = lo;
    while i < hi
        invariant
            lo <= i <= hi <= v.len(),
            s == v@.subrange(lo as int, hi as int),
            limit <= u32::MAX,
            all_digits(s.take(i - lo)),
            acc == digits_value(s.take(i - lo)),
            acc <= limit,
        decreases hi - i,
    {
        let c = v[i];
        if !('0' <= c && c <= '9') {
            assert(s[i - lo] == c);
            return None;
        }
        let d = (c as u32 - '0' as u32) as u64;
        proof {
            assert(s.take(i - lo + 1).drop_last() == s.take(i - lo));
            assert(s.take(i - lo + 1).last() == c);
        }
        acc = acc * 10 + d;
        if acc > limit {
            proof {
                assert(all_digits(s.take(i - lo + 1)));
                if all_digits(s) {
                    lemma_digits_value_monotone(s, i - lo + 1);
                }
            }
            return None;
        }
        i = i + 1;
    }
    assert(s.take(hi - lo) == s);
    Some(acc)
}

/// `v[lo..hi].parse::<u32>()`.
pub fn parse_u32_at(v: &Vec<char>, lo: usize, hi: usize) -> (r: Option<u32>)
    requires
        lo <= hi <= v.len(),
    ensures
        r matches Some(x) ==> spec_parse_u32(v@.subrange(lo as int, hi as int)) == Some(x as int),
        r is None ==> spec_parse_u32(v@.subrange(lo as int, hi as int)) is None,
{
    let ghost s = v@.subrange(lo as int, hi as int);
    let start = if lo < hi && v[lo] == '+' {
        lo + 1
    } else {
        lo
    };
    proof {
        if lo < hi && v@[lo as int] == '+' {
            assert(s.drop_first() == v@.subrange(start as int, hi as int));
        }
    }
    match parse_digits(v, start, hi, 4294967295) {
        Some(x) => Some(x as u32),
        None => None,
    }
}

/// `v[lo..hi].parse::<i32>()`.
pub fn parse_i32_at(v: &Vec<char>, lo: usize, hi: usize) -> (r: Option<i32>)
    requires
        lo <= hi <= v.len(),
    ensures
        r matches Some(x) ==> spec_parse_i32(v@.subrange(lo as int, hi as int)) == Some(x as int),
        r is None ==> spec_parse_i32(v@.subrange(lo as int, hi as int)) is None,
{
    let ghost s = v@.subrange(lo as int, hi as int);
    let neg = lo < hi && v[lo] == '-';
    let start = if lo < hi && (v[lo] == '+' || neg) {
        lo + 1
    } else {
        lo
    };
    proof {
        if start == lo + 1 {
            assert(s.drop_first() == v@.subrange(start as int, hi as int));
        }
    }
    if neg {
        match parse_digits(v, start, hi, 2147483648) {
            Some(x) => Some((0 - x as i64) as i32),
            None => None,
        }
    } else {
        match parse_digits(v, start, hi, 2147483647) {
            Some(x) => Some(x as i32),
            None => None,
        }
    }
}

/// `String::push` appends one character.
pub assume_specification[ String::push ](string: &mut String, ch: char)
    ensures
        final(string)@ == old(string)@.push(ch),
;

/// The digit character of `d` in base 16 or less: `0`..`9`, then `a`..`f`.
pub open spec fn digit_char(d: int) -> char {
    if d < 10 {
        ('0' as int + d) as char
    } else {
        ('a' as int + d - 10) as char
    }
}

/// `n` written in base `b` without leading zeros, as `{}` (base 10) and `{:x}`
/// (base 16) write it.
pub open spec fn spec_digits(n: nat, b: nat) -> Seq<char>
    decreases n,
{
    if n < b || b < 2 {
        seq![digit_char(n as int)]
    } else {
        proof {
            assert(n / b < n) by (nonlinear_arith)
                requires
                    n >= b,
                    b >= 2,
            ;
        }
        spec_digits(n / b, b).push(digit_char((n % b) as int))
    }
}

/// A character `spec_digits` may write.
pub open spec fn is_digit_char(c: char) -> bool {
    ('0' <= c && c <= '9') || ('a' <= c && c <= 'f')
}

/// Base 10 and base 16 numerals are non-empty and made of digit characters only
/// (base 10 of `0`..`9` only).
pub proof fn lemma_digits_chars(n: nat, b: nat)
    requires
        b == 10 || b == 16,
    ensures
        spec_digits(n, b).len() > 0,
        forall|i: int| 0 <= i < spec_digits(n, b).len() ==> is_digit_char(#[trigger] spec_digits(n, b)[i]),
        b == 10 ==> forall|i: int| 0 <= i < spec_digits(n, b).len() ==> is_digit(#[trigger] spec_digits(n, b)[i]),
    decreases n,
{
    if n >= b {
        assert(n / b < n) by (nonlinear_arith)
            requires
                n >= b,
                b >= 2,
        ;
        lemma_digits_chars(n / b, b);
    }
}

/// `n` in decimal.
pub open spec fn decimal(n: nat) -> Seq<char> {
    spec_digits(n, 10)
}

/// The decimal numeral of `n` reads back as `n`.
pub proof fn lemma_decimal_value(n: nat)
    ensures
        digits_value(decimal(n)) == n,
    decreases n,
{
    let t = decimal(n);
    if n >= 10 {
        lemma_decimal_value(n / 10);
        assert(t == spec_digits(n / 10, 10).push(digit_char((n % 10) as int)));
        assert(t.drop_last() == decimal(n / 10));
        lemma_digit_char_value((n % 10) as int);
        assert(t.last() == digit_char((n % 10) as int));
        assert(digits_value(t) == digits_value(t.drop_last()) * 10 + (t.last() as int - '0' as int));
        assert(n == (n / 10) * 10 + n % 10);
    } else {
        assert(t == seq![digit_char(n as int)]);
        assert(t.drop_last() == Seq::<char>::empty());
        lemma_digit_char_value(n as int);
        assert(digits_value(t) == digits_value(t.drop_last()) * 10 + (t.last() as int - '0' as int));
    }
}

proof fn lemma_digit_char_value(d: int)
    requires
        0 <= d < 10,
    ensures
        digit_char(d) as int - '0' as int == d,
{
    assert(('0' as int + d) as char as int == '0' as int + d);
}

proof fn lemma_zeros_value(z: Seq<char>)
    requires
        forall|i: int| 0 <= i < z.len() ==> z[i] == '0',
    ensures
        digits_value(z) == 0,
    decreases z.len(),
{
    if z.len() > 0 {
        lemma_zeros_value(z.drop_last());
    }
}

proof fn lemma_zeros_prefix(z: Seq<char>, t: Seq<char>)
    requires
        forall|i: int| 0 <= i < z.len() ==> z[i] == '0',
    ensures
        digits_value(z + t) == digits_value(t),
    decreases t.len(),
{
    if t.len() == 0 {
        assert(z + t == z);
        lemma_zeros_value(z);
    } else {
        assert((z + t).drop_last() == z + t.drop_last());
        assert((z + t).last() == t.last());
        lemma_zeros_prefix(z, t.drop_last());
    }
}

/// `n` in decimal, padded with leading zeros to at least `w` digits, as `{:0w}`
/// writes it.
pub open spec fn zero_padded(n: nat, w: nat) -> Seq<char> {
    let t = decimal(n);
    if t.len() >= w {
        t
    } else {
        Seq::new((w - t.len()) as nat, |_i: int| '0') + t
    }
}

/// A zero-padded numeral is a non-empty run of digits that reads back as its
/// number.
pub proof fn lemma_zero_padded(n: nat, w: nat)
    ensures
        zero_padded(n, w).len() > 0,
        all_digits(zero_padded(n, w)),
        digits_value(zero_padded(n, w)) == n,
{
    lemma_decimal_value(n);
    lemma_digits_chars(n, 10);
    let t = decimal(n);
    if t.len() < w {
        let z = Seq::new((w - t.len()) as nat, |_i: int| '0');
        lemma_zeros_prefix(z, t);
        let u = z + t;
        assert forall|i: int| 0 <= i < u.len() implies is_digit(#[trigger] u[i]) by {
            if i >= z.len() {
                assert(u[i] == t[i - z.len()]);
            }
        }
    }
}

/// The value of a lower-case hexadecimal numeral.
pub open spec fn hex_value(s: Seq<char>) -> int
    decreases s.len(),
{
    if s.len() == 0 {
        0
    } else {
        let c = s.last();
        hex_value(s.drop_last()) * 16 + if c <= '9' {
            c as int - '0' as int
        } else {
            c as int - 'a' as int + 10
        }
    }
}

proof fn lemma_hex_char_value(d: int)
    requires
        0 <= d < 16,
    ensures
        (if digit_char(d) <= '9' {
            digit_char(d) as int - '0' as int
        } else {
            digit_char(d) as int - 'a' as int + 10
        }) == d,
{
    if d < 10 {
        assert(('0' as int + d) as char as int == '0' as int + d);
    } else {
        assert(('a' as int + d - 10) as char as int == 'a' as int + d - 10);
    }
}

/// The hexadecimal numeral of `n` reads back as `n`, so distinct numbers have
/// distinct numerals.
pub proof fn lemma_hex_value(n: nat)
    ensures
        hex_value(hex_lower(n)) == n,
    decreases n,
{
    let t = hex_lower(n);
    if n >= 16 {
        lemma_hex_value(n / 16);
        assert(t == spec_digits(n / 16, 16).push(digit_char((n % 16) as int)));
        assert(t.drop_last() == hex_lower(n / 16));
        lemma_hex_char_value((n % 16) as int);
        assert(t.last() == digit_char((n % 16) as int));
        let c = t.last();
        assert(hex_value(t) == hex_value(t.drop_last()) * 16 + if c <= '9' {
            c as int - '0' as int
        } else {
            c as int - 'a' as int + 10
        });
        assert(n == (n / 16) * 16 + n % 16);
    } else {
        assert(t == seq![digit_char(n as int)]);
        assert(t.drop_last() == Seq::<char>::empty());
        lemma_hex_char_value(n as int);
        let c = t.last();
        assert(hex_value(t) == hex_value(t.drop_last()) * 16 + if c <= '9' {
            c as int - '0' as int
        } else {
            c as int - 'a' as int + 10
        });
    }
}

/// `n` in lower-case hexadecimal.
pub open spec fn hex_lower(n: nat) -> Seq<char> {
    spec_digits(n, 16)
}

fn digit_of(d: u8) -> (c: char)
    requires
        d < 16,
    ensures
        c == digit_char(d as int),
{
    if d < 10 {
        (48u8 + d) as char
    } else {
        (87u8 + d) as char
    }
}

/// Appends `n` written in base `b` (10 or 16).
pub fn push_digits(out: &mut String, n: u128, b: u128)
    requires
        b == 10 || b == 16,
    ensures
        final(out)@ == old(out)@ + spec_digits(n as nat, b as nat),
    decreases n,
{
    if n >= b {
        push_digits(out, n / b, b);
    }
    out.push(digit_of((n % b) as u8));
}

/// Appends `n` in decimal, as `{}` writes it.
pub fn push_decimal(out: &mut String, n: u128)
    ensures
        final(out)@ == old(out)@ + decimal(n as nat),
{
    push_digits(out, n, 10);
}

/// A character with the Unicode `White_Space` property, as `char::is_whitespace`
/// decides.
pub open spec fn is_white_space(c: char) -> bool {
    ('\u{9}' <= c && c <= '\u{d}') || c == ' ' || c == '\u{85}' || c == '\u{a0}' || c == '\u{1680}'
        || ('\u{2000}' <= c && c <= '\u{200a}') || c == '\u{2028}' || c == '\u{2029}' || c
        == '\u{202f}' || c == '\u{205f}' || c == '\u{3000}'
}

fn white_space(c: char) -> (r: bool)
    ensures
        r == is_white_space(c),
{
    ('\u{9}' <= c && c <= '\u{d}') || c == ' ' || c == '\u{85}' || c == '\u{a0}' || c == '\u{1680}'
        || ('\u{2000}' <= c && c <= '\u{200a}') || c == '\u{2028}' || c == '\u{2029}' || c
        == '\u{202f}' || c == '\u{205f}' || c == '\u{3000}'
}

/// `s` without leading white space.
pub open spec fn trim_start_ws(s: Seq<char>) -> Seq<char>
    decreases s.len(),
{
    if s.len() > 0 && is_white_space(s[0]) {
        trim_start_ws(s.drop_first())
    } else {
        s
    }
}

/// `s` without trailing white space.
pub open spec fn trim_end_ws(s: Seq<char>) -> Seq<char>
    decreases s.len(),
{
    if s.len() > 0 && is_white_space(s.last()) {
        trim_end_ws(s.drop_last())
    } else {
        s
    }
}

/// `s` without leading and trailing white space, as `str::trim` leaves it.
pub open spec fn trim_ws(s: Seq<char>) -> Seq<char> {
    trim_end_ws(trim_start_ws(s))
}

/// The characters of `v[lo..hi]` as a string.
pub fn string_of_range(v: &Vec<char>, lo: usize, hi: usize) -> (r: String)
    requires
        lo <= hi <= v.len(),
    ensures
        r@ == v@.subrange(lo as int, hi as int),
{
    let mut r = String::new();
    let mut i = lo;
    while i < hi
        invariant
            lo <= i <= hi <= v.len(),
            r@ == v@.subrange(lo as int, i as int),
        decreases hi - i,
    {
        r.push(v[i]);
        proof {
            assert(v@.subrange(lo as int, i + 1) == v@.subrange(lo as int, i as int).push(v@[i as int]));
        }
        i = i + 1;
    }
    r
}

/// `s` without leading and trailing white space.
pub fn trim(s: &str) -> (r: String)
    ensures
        r@ == trim_ws(s@),
{
    let v = chars_of(s);
    let n = v.len();
    let mut lo: usize = 0;
    assert(v@.subrange(0, n as int) == v@);
    while lo < n && white_space(v[lo])
        invariant
            lo <= n == v.len(),
            trim_start_ws(v@) == trim_start_ws(v@.subrange(lo as int, n as int)),
        decreases n - lo,
    {
        assert(v@.subrange(lo as int, n as int).drop_first() == v@.subrange(lo + 1, n as int));
        lo = lo + 1;
    }
    assert(trim_start_ws(v@) == v@.subrange(lo as int, n as int));
    let mut hi: usize = n;
    while hi > lo && white_space(v[hi - 1])
        invariant
            lo <= hi <= n == v.len(),
            trim_ws(v@) == trim_end_ws(v@.subrange(lo as int, hi as int)),
        decreases hi,
    {
        assert(v@.subrange(lo as int, hi as int).drop_last() == v@.subrange(lo as int, hi - 1));
        hi = hi - 1;
    }
    string_of_range(&v, lo, hi)
}

/// Whether `s` and `t` are the same text.
pub fn same_text(s: &str, t: &str) -> (r: bool)
    ensures
        r == (s@ == t@),
{
    let a = chars_of(s);
    let b = chars_of(t);
    if a.len() != b.len() {
        return false;
    }
    let mut i: usize = 0;
    while i < a.len()
        invariant
            a.len() == b.len(),
            a@ == s@,
            b@ == t@,
            i <= a.len(),
            forall|j: int| 0 <= j < i ==> a@[j] == b@[j],
        decreases a.len() - i,
    {
        if a[i] != b[i] {
            return false;
        }
        i = i + 1;
    }
    assert(a@ == b@);
    true
}

/// The first number written in `s` ("1200km" gives "1200", "350 / 700 km" gives
/// "350"): characters before the first digit are skipped; from there on digits
/// are kept, and so are dots; the first other character ends it. `seen` says
/// whether a digit was already met.
pub open spec fn number_prefix_from(s: Seq<char>, seen: bool) -> Seq<char>
    decreases s.len(),
{
    if s.len() == 0 {
        Seq::empty()
    } else if is_digit(s[0]) {
        seq![s[0]] + number_prefix_from(s.drop_first(), true)
    } else if s[0] == '.' && seen {
        seq!['.'] + number_prefix_from(s.drop_first(), true)
    } else if seen {
        Seq::empty()
    } else {
        number_prefix_from(s.drop_first(), false)
    }
}

/// The first number written in `s`, as text (see `number_prefix_from`).
pub fn number_prefix(s: &str) -> (r: String)
    ensures
        r@ == number_prefix_from(s@, false),
{
    let v = chars_of(s);
    let n = v.len();
    let mut out = String::new();
    let mut seen = false;
    let mut i: usize = 0;
    assert(v@.skip(0) == v@);
    while i < n
        invariant
            n == v.len(),
            v@ == s@,
            i <= n,
            out@ + number_prefix_from(v@.skip(i as int), seen) == number_prefix_from(s@, false),
        decreases n - i,
    {
        let c = v[i];
        let ghost rest = v@.skip(i as int);
        assert(rest[0] == c);
        assert(rest.drop_first() == v@.skip(i + 1));
        if '0' <= c && c <= '9' {
            out.push(c);
            seen = true;
        } else if c == '.' && seen {
            out.push(c);
        } else if seen {
            assert(out@ + Seq::<char>::empty() == out@);
            return out;
        }
        i = i + 1;
    }
    assert(v@.skip(n as int).len() == 0);
    assert(out@ + Seq::<char>::empty() == out@);
    out
}

} // verus!
