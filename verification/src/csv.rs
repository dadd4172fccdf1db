//! CSV exports of an event's leaderboard and of the events list.
use vstd::prelude::*;
use vstd::string::StringExecFns;
use crate::escape::{
    csv_bool, csv_needs_quotes, csv_num, csv_special, csv_str, double_quotes, spec_csv_bool, spec_csv_num,
    spec_csv_str, spec_csv_text, bool_text, JsonScalar,
};

verus! {

/// The fields of one participant that the leaderboard export writes.
pub struct LeaderboardRow {
    pub overall_rank: JsonScalar,
    pub category: JsonScalar,
    pub rank: JsonScalar,
    pub bib: JsonScalar,
    pub first_name: JsonScalar,
    pub last_name: JsonScalar,
    pub nickname: JsonScalar,
    pub country: JsonScalar,
    pub distance: JsonScalar,
    pub speed: JsonScalar,
    pub distance_to_next_cp: JsonScalar,
    pub battery: JsonScalar,
    pub last_ping: JsonScalar,
    pub status: JsonScalar,
    pub sleeping: JsonScalar,
}

/// The fields of one event that the events export writes.
pub struct EventRow {
    pub slug: JsonScalar,
    pub name: JsonScalar,
    pub start_place_name: JsonScalar,
    pub end_place_name: JsonScalar,
    pub start_date: JsonScalar,
    pub end_date: JsonScalar,
    pub distance: JsonScalar,
    pub surface: JsonScalar,
    pub participants: JsonScalar,
}

/// `fields` joined by commas and ended by a newline.
pub open spec fn csv_line(fields: Seq<Seq<char>>) -> Seq<char>
    decreases fields.len(),
{
    if fields.len() == 0 {
        seq!['\n']
    } else if fields.len() == 1 {
        fields[0] + seq!['\n']
    } else {
        fields[0] + seq![','] + csv_line(fields.drop_first())
    }
}

/// The fields of a leaderboard line, in column order.
pub open spec fn leaderboard_fields(r: LeaderboardRow) -> Seq<Seq<char>> {
    seq![
        spec_csv_num(r.overall_rank),
        spec_csv_str(r.category),
        spec_csv_num(r.rank),
        spec_csv_str(r.bib),
        spec_csv_str(r.first_name),
        spec_csv_str(r.last_name),
        spec_csv_str(r.nickname),
        spec_csv_str(r.country),
        spec_csv_num(r.distance),
        spec_csv_num(r.speed),
        spec_csv_num(r.distance_to_next_cp),
        spec_csv_num(r.battery),
        spec_csv_str(r.last_ping),
        spec_csv_str(r.status),
        spec_csv_bool(r.sleeping),
    ]
}

/// The fields of an events line, in column order.
pub open spec fn event_fields(r: EventRow) -> Seq<Seq<char>> {
    seq![
        spec_csv_str(r.slug),
        spec_csv_str(r.name),
        spec_csv_str(r.start_place_name),
        spec_csv_str(r.end_place_name),
        spec_csv_str(r.start_date),
        spec_csv_str(r.end_date),
        spec_csv_str(r.distance),
        spec_csv_str(r.surface),
        spec_csv_num(r.participants),
    ]
}

/// The lines of `rows`, in order.
pub open spec fn leaderboard_lines(rows: Seq<LeaderboardRow>) -> Seq<char>
    decreases rows.len(),
{
    if rows.len() == 0 {
        Seq::empty()
    } else {
        leaderboard_lines(rows.drop_last()) + csv_line(leaderboard_fields(rows.last()))
    }
}

/// The lines of `rows`, in order.
pub open spec fn event_lines(rows: Seq<EventRow>) -> Seq<char>
    decreases rows.len(),
{
    if rows.len() == 0 {
        Seq::empty()
    } else {
        event_lines(rows.drop_last()) + csv_line(event_fields(rows.last()))
    }
}

/// Appends the fields joined by commas and a newline.
fn push_line(out: &mut String, fields: Vec<String>)
    ensures
        final(out)@ == old(out)@ + csv_line(fields@.map_values(|f: String| f@)),
{
    let ghost views = fields@.map_values(|f: String| f@);
    let ghost start = out@;
    let n = fields.len();
    let mut i: usize = 0;
    assert(views.skip(0) == views);
    while i < n
        invariant
            n == fields.len(),
            i <= n,
            views == fields@.map_values(|f: String| f@),
            out@ + csv_line(views.skip(i as int)) == start + csv_line(views),
        decreases n - i,
    {
        let ghost rest = views.skip(i as int);
        assert(rest[0] == fields@[i as int]@);
        assert(rest.drop_first() == views.skip(i + 1));
        out.append(fields[i].as_str());
        if i + 1 < n {
            out.push(',');
            assert(csv_line(rest) == rest[0] + seq![','] + csv_line(rest.drop_first()));
        } else {
            assert(views.skip(i + 1).len() == 0);
            assert(csv_line(rest) == rest[0] + seq!['\n']);
        }
        i = i + 1;
    }
    assert(views.skip(n as int).len() == 0);
    out.push('\n');
}

/// The header of the leaderboard export.
pub open spec fn leaderboard_header() -> Seq<char> {
    "overall_rank,category,category_rank,bib,first_name,last_name,nickname,country,distance_km,speed_kmh,distance_to_next_cp_km,battery_pct,last_ping,status,sleeping\n"@
}

/// The header of the events export.
pub open spec fn events_header() -> Seq<char> {
    "slug,name,start_place,end_place,start_date,end_date,distance,surface,participants\n"@
}

/// The leaderboard export: a header, then one line per participant.
pub fn leaderboard_csv(rows: &Vec<LeaderboardRow>) -> (r: String)
    ensures
        r@ == leaderboard_header() + leaderboard_lines(rows@),
{
    let mut out = String::new();
    out.append(
        "overall_rank,category,category_rank,bib,first_name,last_name,nickname,country,distance_km,speed_kmh,distance_to_next_cp_km,battery_pct,last_ping,status,sleeping\n",
    );
    for i in 0..rows.len()
        invariant
            out@ == leaderboard_header() + leaderboard_lines(rows@.take(i as int)),
    {
        let p = &rows[i];
        let mut fields: Vec<String> = Vec::new();
        fields.push(csv_num(&p.overall_rank));
        fields.push(csv_str(&p.category));
        fields.push(csv_num(&p.rank));
        fields.push(csv_str(&p.bib));
        fields.push(csv_str(&p.first_name));
        fields.push(csv_str(&p.last_name));
        fields.push(csv_str(&p.nickname));
        fields.push(csv_str(&p.country));
        fields.push(csv_num(&p.distance));
        fields.push(csv_num(&p.speed));
        fields.push(csv_num(&p.distance_to_next_cp));
        fields.push(csv_num(&p.battery));
        fields.push(csv_str(&p.last_ping));
        fields.push(csv_str(&p.status));
        fields.push(csv_bool(&p.sleeping));
        proof {
            assert(fields@.map_values(|f: String| f@) == leaderboard_fields(*p));
            assert(rows@.take(i + 1).drop_last() == rows@.take(i as int));
        }
        push_line(&mut out, fields);
    }
    assert(rows@.take(rows.len() as int) == rows@);
    out
}

/// The events export: a header, then one line per event.
pub fn events_csv(rows: &Vec<EventRow>) -> (r: String)
    ensures
        r@ == events_header() + event_lines(rows@),
{
    let mut out = String::new();
    out.append("slug,name,start_place,end_place,start_date,end_date,distance,surface,participants\n");
    for i in 0..rows.len()
        invariant
            out@ == events_header() + event_lines(rows@.take(i as int)),
    {
        let e = &rows[i];
        let mut fields: Vec<String> = Vec::new();
        fields.push(csv_str(&e.slug));
        fields.push(csv_str(&e.name));
        fields.push(csv_str(&e.start_place_name));
        fields.push(csv_str(&e.end_place_name));
        fields.push(csv_str(&e.start_date));
        fields.push(csv_str(&e.end_date));
        fields.push(csv_str(&e.distance));
        fields.push(csv_str(&e.surface));
        fields.push(csv_num(&e.participants));
        proof {
            assert(fields@.map_values(|f: String| f@) == event_fields(*e));
            assert(rows@.take(i + 1).drop_last() == rows@.take(i as int));
        }
        push_line(&mut out, fields);
    }
    assert(rows@.take(rows.len() as int) == rows@);
    out
}

/// The `Content-Disposition` value of an event's leaderboard export.
pub fn leaderboard_attachment(slug: &str) -> (r: String)
    ensures
        r@ == "attachment; filename=\""@ + slug@ + "-leaderboard.csv\""@,
{
    let mut out = String::new();
    out.append("attachment; filename=\"");
    out.append(slug);
    out.append("-leaderboard.csv\"");
    out
}

/// Reads the rest of a quoted field (after its opening quote): up to the closing
/// quote, a doubled quote standing for one. Gives the text and what follows the
/// closing quote.
pub open spec fn read_quoted(s: Seq<char>) -> (Seq<char>, Seq<char>)
    decreases s.len(),
{
    if s.len() == 0 {
        (Seq::empty(), Seq::empty())
    } else if s[0] == '"' {
        if s.len() >= 2 && s[1] == '"' {
            let (v, r) = read_quoted(s.skip(2));
            (seq!['"'] + v, r)
        } else {
            (Seq::empty(), s.skip(1))
        }
    } else {
        let (v, r) = read_quoted(s.skip(1));
        (seq![s[0]] + v, r)
    }
}

/// Reads an unquoted field: up to the next comma or line break.
pub open spec fn read_plain(s: Seq<char>) -> (Seq<char>, Seq<char>)
    decreases s.len(),
{
    if s.len() == 0 || s[0] == ',' || s[0] == '\n' {
        (Seq::empty(), s)
    } else {
        let (v, r) = read_plain(s.skip(1));
        (seq![s[0]] + v, r)
    }
}

/// Reads one field from the front of `s`, as a CSV reader does.
pub open spec fn read_field(s: Seq<char>) -> (Seq<char>, Seq<char>) {
    if s.len() > 0 && s[0] == '"' {
        read_quoted(s.skip(1))
    } else {
        read_plain(s)
    }
}

/// Reads the fields of one line from the front of `s`: fields follow each other
/// while a comma follows a field.
pub open spec fn read_line(s: Seq<char>) -> Seq<Seq<char>>
    decreases s.len(),
{
    let (f, r) = read_field(s);
    if r.len() > 0 && r[0] == ',' && r.len() <= s.len() {
        seq![f] + read_line(r.skip(1))
    } else {
        seq![f]
    }
}

proof fn lemma_read_quoted(v: Seq<char>, t: Seq<char>)
    requires
        t.len() > 0 && (t[0] == ',' || t[0] == '\n'),
    ensures
        read_quoted(double_quotes(v) + seq!['"'] + t) == (v, t),
    decreases v.len(),
{
    let s = double_quotes(v) + seq!['"'] + t;
    if v.len() == 0 {
        assert(s == seq!['"'] + t);
        assert(s.skip(1) == t);
    } else {
        let rest = v.drop_first();
        lemma_read_quoted(rest, t);
        let s2 = double_quotes(rest) + seq!['"'] + t;
        if v[0] == '"' {
            assert(s == seq!['"', '"'] + s2);
            assert(s.skip(2) == s2);
        } else {
            assert(s == seq![v[0]] + s2);
            assert(s.skip(1) == s2);
        }
        assert(v == seq![v[0]] + rest);
    }
}

proof fn lemma_read_plain(v: Seq<char>, t: Seq<char>)
    requires
        forall|i: int| 0 <= i < v.len() ==> !csv_special(#[trigger] v[i]),
        t.len() > 0 && (t[0] == ',' || t[0] == '\n'),
    ensures
        read_plain(v + t) == (v, t),
    decreases v.len(),
{
    let s = v + t;
    if v.len() == 0 {
        assert(s == t);
    } else {
        let rest = v.drop_first();
        assert(!csv_special(v[0]));
        assert(s.skip(1) == rest + t);
        lemma_read_plain(rest, t);
        assert(v == seq![v[0]] + rest);
    }
}

/// A field written as the CSV text of `v` reads back as `v`, and the reader stops
/// right after it.
proof fn lemma_read_field(v: Seq<char>, t: Seq<char>)
    requires
        t.len() > 0 && (t[0] == ',' || t[0] == '\n'),
    ensures
        read_field(spec_csv_text(v) + t) == (v, t),
{
    if csv_needs_quotes(v) {
        let s = spec_csv_text(v) + t;
        assert(s.skip(1) == double_quotes(v) + seq!['"'] + t);
        lemma_read_quoted(v, t);
    } else {
        assert forall|i: int| 0 <= i < v.len() implies !csv_special(#[trigger] v[i]) by {
            if csv_special(v[i]) {
                assert(csv_needs_quotes(v));
            }
        }
        if v.len() > 0 {
            assert(!csv_special(v[0]));
        }
        lemma_read_plain(v, t);
    }
}

/// A line made of the CSV texts of some values reads back as those values, one
/// field per value.
pub proof fn lemma_read_csv_line(values: Seq<Seq<char>>)
    requires
        values.len() > 0,
    ensures
        read_line(csv_line(values.map_values(|v: Seq<char>| spec_csv_text(v)))) == values,
    decreases values.len(),
{
    let fields = values.map_values(|v: Seq<char>| spec_csv_text(v));
    let line = csv_line(fields);
    if values.len() == 1 {
        assert(line == fields[0] + seq!['\n']);
        lemma_read_field(values[0], seq!['\n']);
        assert(values == seq![values[0]]);
    } else {
        let rest = values.drop_first();
        lemma_read_csv_line(rest);
        assert(fields.drop_first() == rest.map_values(|v: Seq<char>| spec_csv_text(v)));
        let tail = csv_line(fields.drop_first());
        assert(line == fields[0] + (seq![','] + tail));
        lemma_read_field(values[0], seq![','] + tail);
        assert((seq![','] + tail).skip(1) == tail);
        assert(values == seq![values[0]] + rest);
    }
}

/// The JSON text an exported number or other value carries holds no comma, quote
/// or line break (true of numbers; an array or object may break it).
pub open spec fn plain_scalar(v: JsonScalar) -> bool {
    match v {
        JsonScalar::Number(t) => !csv_needs_quotes(t@),
        JsonScalar::Other(t) => !csv_needs_quotes(t@),
        _ => true,
    }
}

/// The text a reader should find in a text column.
pub open spec fn str_value(v: JsonScalar) -> Seq<char> {
    match v {
        JsonScalar::Null => Seq::empty(),
        JsonScalar::Str(s) => s@,
        JsonScalar::Bool(b) => bool_text(b),
        JsonScalar::Number(t) => t@,
        JsonScalar::Other(t) => t@,
    }
}

/// The text a reader should find in a number column.
pub open spec fn num_value(v: JsonScalar) -> Seq<char> {
    match v {
        JsonScalar::Number(t) => t@,
        _ => Seq::empty(),
    }
}

/// The text a reader should find in a boolean column.
pub open spec fn bool_value(v: JsonScalar) -> Seq<char> {
    match v {
        JsonScalar::Bool(b) => bool_text(b),
        _ => Seq::empty(),
    }
}

proof fn lemma_plain_text(s: Seq<char>)
    requires
        !csv_needs_quotes(s),
    ensures
        spec_csv_text(s) == s,
{
}

proof fn lemma_bool_plain(b: bool)
    ensures
        !csv_needs_quotes(bool_text(b)),
{
    reveal_strlit("true");
    reveal_strlit("false");
    if csv_needs_quotes(bool_text(b)) {
        let i = choose|i: int| 0 <= i < bool_text(b).len() && csv_special(#[trigger] bool_text(b)[i]);
        if b {
            assert(i < 4);
        } else {
            assert(i < 5);
        }
    }
}

proof fn lemma_scalar_fields(v: JsonScalar)
    requires
        plain_scalar(v),
    ensures
        spec_csv_str(v) == spec_csv_text(str_value(v)),
        spec_csv_num(v) == spec_csv_text(num_value(v)),
        spec_csv_bool(v) == spec_csv_text(bool_value(v)),
{
    lemma_plain_text(Seq::empty());
    match v {
        JsonScalar::Bool(b) => {
            lemma_bool_plain(b);
        },
        _ => {},
    }
}

/// The values a reader should find in a leaderboard line, in column order.
pub open spec fn leaderboard_values(r: LeaderboardRow) -> Seq<Seq<char>> {
    seq![
        num_value(r.overall_rank),
        str_value(r.category),
        num_value(r.rank),
        str_value(r.bib),
        str_value(r.first_name),
        str_value(r.last_name),
        str_value(r.nickname),
        str_value(r.country),
        num_value(r.distance),
        num_value(r.speed),
        num_value(r.distance_to_next_cp),
        num_value(r.battery),
        str_value(r.last_ping),
        str_value(r.status),
        bool_value(r.sleeping),
    ]
}

/// Every leaderboard line reads back, column by column, as the participant's values
/// (texts unquoted, absent values empty), provided no number or other JSON value in
/// it holds a comma, quote or line break.
pub proof fn lemma_leaderboard_line_reads_back(r: LeaderboardRow)
    requires
        plain_scalar(r.overall_rank),
        plain_scalar(r.category),
        plain_scalar(r.rank),
        plain_scalar(r.bib),
        plain_scalar(r.first_name),
        plain_scalar(r.last_name),
        plain_scalar(r.nickname),
        plain_scalar(r.country),
        plain_scalar(r.distance),
        plain_scalar(r.speed),
        plain_scalar(r.distance_to_next_cp),
        plain_scalar(r.battery),
        plain_scalar(r.last_ping),
        plain_scalar(r.status),
        plain_scalar(r.sleeping),
    ensures
        read_line(csv_line(leaderboard_fields(r))) == leaderboard_values(r),
{
    lemma_scalar_fields(r.overall_rank);
    lemma_scalar_fields(r.category);
    lemma_scalar_fields(r.rank);
    lemma_scalar_fields(r.bib);
    lemma_scalar_fields(r.first_name);
    lemma_scalar_fields(r.last_name);
    lemma_scalar_fields(r.nickname);
    lemma_scalar_fields(r.country);
    lemma_scalar_fields(r.distance);
    lemma_scalar_fields(r.speed);
    lemma_scalar_fields(r.distance_to_next_cp);
    lemma_scalar_fields(r.battery);
    lemma_scalar_fields(r.last_ping);
    lemma_scalar_fields(r.status);
    lemma_scalar_fields(r.sleeping);
    let vals = leaderboard_values(r);
    assert(leaderboard_fields(r) =~= vals.map_values(|v: Seq<char>| spec_csv_text(v)));
    lemma_read_csv_line(vals);
}

/// The values a reader should find in an events line, in column order.
pub open spec fn event_values(r: EventRow) -> Seq<Seq<char>> {
    seq![
        str_value(r.slug),
        str_value(r.name),
        str_value(r.start_place_name),
        str_value(r.end_place_name),
        str_value(r.start_date),
        str_value(r.end_date),
        str_value(r.distance),
        str_value(r.surface),
        num_value(r.participants),
    ]
}

/// Every events line reads back, column by column, as the event's values, provided
/// no number or other JSON value in it holds a comma, quote or line break.
pub proof fn lemma_event_line_reads_back(r: EventRow)
    requires
        plain_scalar(r.slug),
        plain_scalar(r.name),
        plain_scalar(r.start_place_name),
        plain_scalar(r.end_place_name),
        plain_scalar(r.start_date),
        plain_scalar(r.end_date),
        plain_scalar(r.distance),
        plain_scalar(r.surface),
        plain_scalar(r.participants),
    ensures
        read_line(csv_line(event_fields(r))) == event_values(r),
{
    lemma_scalar_fields(r.slug);
    lemma_scalar_fields(r.name);
    lemma_scalar_fields(r.start_place_name);
    lemma_scalar_fields(r.end_place_name);
    lemma_scalar_fields(r.start_date);
    lemma_scalar_fields(r.end_date);
    lemma_scalar_fields(r.distance);
    lemma_scalar_fields(r.surface);
    lemma_scalar_fields(r.participants);
    let vals = event_values(r);
    assert(event_fields(r) =~= vals.map_values(|v: Seq<char>| spec_csv_text(v)));
    lemma_read_csv_line(vals);
}

} // verus!
