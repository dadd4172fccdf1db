//! Escaping text for Prometheus label values and for CSV fields.
use vstd::prelude::*;
use vstd::string::StringExecFns;

verus! {

/// How one character of a label value is written: `\` as `\\`, `"` as `\"`, a
/// newline as `\n`, anything else as itself.
pub open spec fn esc_char(c: char) -> Seq<char> {
    if c == '\\' {
        seq!['\\', '\\']
    } else if c == '"' {
        seq!['\\', '"']
    } else if c == '\n' {
        seq!['\\', 'n']
    } else {
        seq![c]
    }
}

/// `s` escaped for a Prometheus label value.
pub open spec fn spec_esc_label(s: Seq<char>) -> Seq<char>
    decreases s.len(),
{
    if s.len() == 0 {
        Seq::empty()
    } else {
        esc_char(s[0]) + spec_esc_label(s.drop_first())
    }
}

/// Escaping works character by character.
pub proof fn lemma_esc_label_append(a: Seq<char>, b: Seq<char>)
    ensures
        spec_esc_label(a + b) == spec_esc_label(a) + spec_esc_label(b),
    decreases a.len(),
{
    if a.len() == 0 {
        assert(a + b == b);
    } else {
        assert((a + b).drop_first() == a.drop_first() + b);
        assert((a + b)[0] == a[0]);
        lemma_esc_label_append(a.drop_first(), b);
    }
}

proof fn lemma_esc_label_one(c: char)
    ensures
        spec_esc_label(seq![c]) == esc_char(c),
{
    assert(seq![c].drop_first() == Seq::<char>::empty());
    assert(spec_esc_label(Seq::<char>::empty()) == Seq::<char>::empty());
    assert(esc_char(c) + Seq::<char>::empty() == esc_char(c));
}

proof fn lemma_double_quotes_one(c: char)
    ensures
        double_quotes(seq![c]) == if c == '"' {
            seq!['"', '"']
        } else {
            seq![c]
        },
{
    assert(seq![c].drop_first() == Seq::<char>::empty());
    assert(double_quotes(Seq::<char>::empty()) == Seq::<char>::empty());
    assert(seq!['"', '"'] + Seq::<char>::empty() == seq!['"', '"']);
    assert(seq![c] + Seq::<char>::empty() == seq![c]);
}

/// Escapes `s` for use as a Prometheus label value.
pub fn esc_label(s: &str) -> (r: String)
    ensures
        r@ == spec_esc_label(s@),
{
    let mut out = String::new();
    for c in it: s.chars()
        invariant
            it.seq() == s@,
            out@ == spec_esc_label(s@.take(it.index() as int)),
    {
        proof {
            let i = it.index() as int;
            assert(s@.take(i + 1) == s@.take(i) + seq![c]);
            lemma_esc_label_append(s@.take(i), seq![c]);
            lemma_esc_label_one(c);
        }
        if c == '\\' {
            out.push('\\');
            out.push('\\');
        } else if c == '"' {
            out.push('\\');
            out.push('"');
        } else if c == '\n' {
            out.push('\\');
            out.push('n');
        } else {
            out.push(c);
        }
    }
    assert(s@.take(s@.len() as int) == s@);
    out
}

/// Reads back an escaped label value: `\n` is a newline, `\` followed by any
/// other character is that character.
pub open spec fn unescape_label(t: Seq<char>) -> Seq<char>
    decreases t.len(),
{
    if t.len() == 0 {
        Seq::empty()
    } else if t[0] == '\\' && t.len() >= 2 {
        seq![if t[1] == 'n' { '\n' } else { t[1] }] + unescape_label(t.skip(2))
    } else {
        seq![t[0]] + unescape_label(t.skip(1))
    }
}

/// Reading back an escaped label value gives back the value, so distinct values stay
/// distinct; and an escaped value never holds a raw newline, which would end the
/// metric line.
pub proof fn lemma_esc_label_roundtrip(s: Seq<char>)
    ensures
        unescape_label(spec_esc_label(s)) == s,
        forall|i: int| 0 <= i < spec_esc_label(s).len() ==> #[trigger] spec_esc_label(s)[i] != '\n',
    decreases s.len(),
{
    if s.len() > 0 {
        let rest = spec_esc_label(s.drop_first());
        lemma_esc_label_roundtrip(s.drop_first());
        let e = esc_char(s[0]);
        let t = e + rest;
        assert(t.skip(e.len() as int) == rest);
        assert(s == seq![s[0]] + s.drop_first());
        assert forall|i: int| 0 <= i < t.len() implies #[trigger] t[i] != '\n' by {
            if i >= e.len() {
                assert(t[i] == rest[i - e.len()]);
            }
        }
    }
}

/// A character that escaping writes as two: a backslash, a double quote or a
/// newline.
pub open spec fn is_escaped(c: char) -> bool {
    c == '\\' || c == '"' || c == '\n'
}

/// How many characters of `s` escaping writes as two.
pub open spec fn escaped_count(s: Seq<char>) -> nat
    decreases s.len(),
{
    if s.len() == 0 {
        0
    } else {
        (if is_escaped(s[0]) {
            1nat
        } else {
            0nat
        }) + escaped_count(s.drop_first())
    }
}

/// The number of backslashes right before position `i` of `t`.
pub open spec fn backslash_run(t: Seq<char>, i: int) -> nat
    decreases i,
{
    if 0 < i <= t.len() && t[i - 1] == '\\' {
        1 + backslash_run(t, i - 1)
    } else {
        0
    }
}

/// Escaping grows a value by one character per backslash, double quote and
/// newline in it.
pub proof fn lemma_esc_label_len(s: Seq<char>)
    ensures
        spec_esc_label(s).len() == s.len() + escaped_count(s),
    decreases s.len(),
{
    if s.len() > 0 {
        lemma_esc_label_len(s.drop_first());
    }
}

proof fn lemma_backslash_run_prefix(p: Seq<char>, q: Seq<char>, i: int)
    requires
        0 <= i <= p.len(),
    ensures
        backslash_run(p + q, i) == backslash_run(p, i),
    decreases i,
{
    if i > 0 {
        assert((p + q)[i - 1] == p[i - 1]);
        lemma_backslash_run_prefix(p, q, i - 1);
    }
}

/// In an escaped label value every double quote follows an odd run of
/// backslashes, so none of them ends the quoted value; and the value itself ends
/// after an even run, so the closing quote written after it is not escaped.
pub proof fn lemma_esc_label_quotes(s: Seq<char>)
    ensures
        backslash_run(spec_esc_label(s), spec_esc_label(s).len() as int) % 2 == 0,
        forall|i: int|
            0 <= i < spec_esc_label(s).len() && #[trigger] spec_esc_label(s)[i] == '"' ==> backslash_run(
                spec_esc_label(s),
                i,
            ) % 2 == 1,
    decreases s.len(),
{
    if s.len() > 0 {
        let a = s.drop_last();
        let c = s.last();
        lemma_esc_label_quotes(a);
        assert(s == a + seq![c]);
        lemma_esc_label_append(a, seq![c]);
        lemma_esc_label_one(c);
        let t = spec_esc_label(a);
        let e = esc_char(c);
        let u = t + e;
        assert(spec_esc_label(s) == u);
        let n = t.len() as int;
        lemma_backslash_run_prefix(t, e, n);
        assert forall|i: int| 0 <= i < u.len() && #[trigger] u[i] == '"' implies backslash_run(u, i) % 2
            == 1 by {
            if i < n {
                assert(u[i] == t[i]);
                lemma_backslash_run_prefix(t, e, i);
            } else {
                assert(u[i] == e[i - n]);
                assert(c == '"' && i == n + 1);
                assert(u[n] == '\\');
            }
        }
        if c == '\\' {
            assert(u[n] == '\\' && u[n + 1] == '\\');
            assert(backslash_run(u, n + 1) == 1 + backslash_run(u, n));
            assert(backslash_run(u, n + 2) == 1 + backslash_run(u, n + 1));
        } else {
            assert(u[u.len() - 1] != '\\');
        }
    }
}

/// A JSON value as the CSV exports see it: `Number` and `Other` (an array or an
/// object) hold the value's JSON text.
pub enum JsonScalar {
    Null,
    Bool(bool),
    Number(String),
    Str(String),
    Other(String),
}

/// A character that forces a CSV field into quotes.
pub open spec fn csv_special(c: char) -> bool {
    c == ',' || c == '"' || c == '\n' || c == '\r'
}

/// `s` holds a character that forces quoting.
pub open spec fn csv_needs_quotes(s: Seq<char>) -> bool {
    exists|i: int| 0 <= i < s.len() && csv_special(#[trigger] s[i])
}

/// `s` with every `"` doubled.
pub open spec fn double_quotes(s: Seq<char>) -> Seq<char>
    decreases s.len(),
{
    if s.len() == 0 {
        Seq::empty()
    } else {
        (if s[0] == '"' {
            seq!['"', '"']
        } else {
            seq![s[0]]
        }) + double_quotes(s.drop_first())
    }
}

/// A text as a CSV field: quoted, with its quotes doubled, when it holds a comma,
/// a quote or a line break; as it is otherwise.
pub open spec fn spec_csv_text(s: Seq<char>) -> Seq<char> {
    if csv_needs_quotes(s) {
        seq!['"'] + double_quotes(s) + seq!['"']
    } else {
        s
    }
}

/// The literal `true` or `false`.
pub open spec fn bool_text(b: bool) -> Seq<char> {
    if b {
        "true"@
    } else {
        "false"@
    }
}

/// A JSON value as a CSV text field: empty for null, the quoted-as-needed text for
/// a string, the JSON text of anything else.
pub open spec fn spec_csv_str(v: JsonScalar) -> Seq<char> {
    match v {
        JsonScalar::Null => Seq::empty(),
        JsonScalar::Str(s) => spec_csv_text(s@),
        JsonScalar::Bool(b) => bool_text(b),
        JsonScalar::Number(t) => t@,
        JsonScalar::Other(t) => t@,
    }
}

/// A JSON value as a CSV number field: the number's text, empty for anything else.
pub open spec fn spec_csv_num(v: JsonScalar) -> Seq<char> {
    match v {
        JsonScalar::Number(t) => t@,
        _ => Seq::empty(),
    }
}

/// A JSON value as a CSV boolean field: `true`/`false`, empty for anything else.
pub open spec fn spec_csv_bool(v: JsonScalar) -> Seq<char> {
    match v {
        JsonScalar::Bool(b) => bool_text(b),
        _ => Seq::empty(),
    }
}

proof fn lemma_double_quotes_append(a: Seq<char>, b: Seq<char>)
    ensures
        double_quotes(a + b) == double_quotes(a) + double_quotes(b),
    decreases a.len(),
{
    if a.len() == 0 {
        assert(a + b == b);
    } else {
        assert((a + b).drop_first() == a.drop_first() + b);
        assert((a + b)[0] == a[0]);
        lemma_double_quotes_append(a.drop_first(), b);
    }
}

/// Appends `s` to `out` as a CSV text field.
fn push_csv_text(out: &mut String, s: &str)
    ensures
        final(out)@ == old(out)@ + spec_csv_text(s@),
{
    let mut special = false;
    for c in it: s.chars()
        invariant
            it.seq() == s@,
            special == exists|j: int| 0 <= j < it.index() && csv_special(#[trigger] s@[j]),
    {
        if c == ',' || c == '"' || c == '\n' || c == '\r' {
            special = true;
        }
    }
    if !special {
        out.append(s);
        return;
    }
    let ghost start = out@;
    out.push('"');
    for c in it: s.chars()
        invariant
            it.seq() == s@,
            out@ == start + seq!['"'] + double_quotes(s@.take(it.index() as int)),
    {
        proof {
            let i = it.index() as int;
            assert(s@.take(i + 1) == s@.take(i) + seq![c]);
            lemma_double_quotes_append(s@.take(i), seq![c]);
            lemma_double_quotes_one(c);
        }
        if c == '"' {
            out.push('"');
            out.push('"');
        } else {
            out.push(c);
        }
    }
    assert(s@.take(s@.len() as int) == s@);
    out.push('"');
}

fn push_bool(out: &mut String, b: bool)
    ensures
        final(out)@ == old(out)@ + bool_text(b),
{
    if b {
        out.append("true");
    } else {
        out.append("false");
    }
}

/// `v` as a CSV text field.
pub fn csv_str(v: &JsonScalar) -> (r: String)
    ensures
        r@ == spec_csv_str(*v),
{
    let mut out = String::new();
    match v {
        JsonScalar::Null => {},
        JsonScalar::Str(s) => push_csv_text(&mut out, s.as_str()),
        JsonScalar::Bool(b) => push_bool(&mut out, *b),
        JsonScalar::Number(t) => out.append(t.as_str()),
        JsonScalar::Other(t) => out.append(t.as_str()),
    }
    out
}

/// `v` as a CSV number field.
pub fn csv_num(v: &JsonScalar) -> (r: String)
    ensures
        r@ == spec_csv_num(*v),
{
    let mut out = String::new();
    match v {
        JsonScalar::Number(t) => out.append(t.as_str()),
        _ => {},
    }
    out
}

/// `v` as a CSV boolean field.
pub fn csv_bool(v: &JsonScalar) -> (r: String)
    ensures
        r@ == spec_csv_bool(*v),
{
    let mut out = String::new();
    match v {
        JsonScalar::Bool(b) => push_bool(&mut out, *b),
        _ => {},
    }
    out
}

/// Reads back the interior of a quoted CSV field: `""` is one `"`.
pub open spec fn undouble_quotes(t: Seq<char>) -> Seq<char>
    decreases t.len(),
{
    if t.len() == 0 {
        Seq::empty()
    } else if t[0] == '"' && t.len() >= 2 {
        seq!['"'] + undouble_quotes(t.skip(2))
    } else {
        seq![t[0]] + undouble_quotes(t.skip(1))
    }
}

/// The text a CSV reader takes from a field.
pub open spec fn csv_field_value(f: Seq<char>) -> Seq<char> {
    if f.len() >= 2 && f[0] == '"' && f.last() == '"' {
        undouble_quotes(f.subrange(1, f.len() - 1))
    } else {
        f
    }
}

proof fn lemma_undouble_double(s: Seq<char>)
    ensures
        undouble_quotes(double_quotes(s)) == s,
    decreases s.len(),
{
    if s.len() > 0 {
        lemma_undouble_double(s.drop_first());
        let h = if s[0] == '"' {
            seq!['"', '"']
        } else {
            seq![s[0]]
        };
        let t = h + double_quotes(s.drop_first());
        assert(t.skip(h.len() as int) == double_quotes(s.drop_first()));
        assert(s == seq![s[0]] + s.drop_first());
    }
}

/// A CSV reader gets back exactly the text that was written into a field, and a
/// field left unquoted holds no comma, quote or line break, so it cannot spill
/// into the next field or row.
pub proof fn lemma_csv_text_roundtrip(s: Seq<char>)
    ensures
        csv_field_value(spec_csv_text(s)) == s,
        csv_needs_quotes(s) ==> spec_csv_text(s)[0] == '"' && spec_csv_text(s).last() == '"',
        !csv_needs_quotes(s) ==> spec_csv_text(s) == s && forall|i: int|
            0 <= i < s.len() ==> !csv_special(#[trigger] spec_csv_text(s)[i]),
{
    if csv_needs_quotes(s) {
        let f = seq!['"'] + double_quotes(s) + seq!['"'];
        assert(f.subrange(1, f.len() - 1) == double_quotes(s));
        lemma_undouble_double(s);
        assert(f[0] == '"');
    } else {
        if s.len() >= 2 && s[0] == '"' {
            assert(csv_special(s[0]));
        }
    }
}

} // verus!
