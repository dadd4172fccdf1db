use madcap_fast::csv::{events_csv, leaderboard_attachment, leaderboard_csv, EventRow, LeaderboardRow};
use madcap_fast::escape::JsonScalar;

fn s(t: &str) -> JsonScalar {
    JsonScalar::Str(t.to_string())
}

fn n(t: &str) -> JsonScalar {
    JsonScalar::Number(t.to_string())
}

#[test]
fn leaderboard_csv_rows() {
    let row = LeaderboardRow {
        overall_rank: n("1"),
        category: s("F"),
        rank: n("1"),
        bib: s("7"),
        first_name: s("Ada"),
        last_name: s("King, Countess"),
        nickname: JsonScalar::Null,
        country: s("GB"),
        distance: n("812.5"),
        speed: n("21.3"),
        distance_to_next_cp: JsonScalar::Null,
        battery: n("80"),
        last_ping: s("2026-04-21T12:00:00"),
        status: s("ACTIVE"),
        sleeping: JsonScalar::Bool(false),
    };
    let out = leaderboard_csv(&vec![row]);
    assert_eq!(
        out,
        "overall_rank,category,category_rank,bib,first_name,last_name,nickname,country,distance_km,speed_kmh,distance_to_next_cp_km,battery_pct,last_ping,status,sleeping\n\
1,F,1,7,Ada,\"King, Countess\",,GB,812.5,21.3,,80,2026-04-21T12:00:00,ACTIVE,false\n"
    );
}

#[test]
fn leaderboard_csv_empty() {
    let out = leaderboard_csv(&vec![]);
    assert_eq!(out.lines().count(), 1);
    assert!(out.ends_with("status,sleeping\n"));
}

#[test]
fn events_csv_rows() {
    let row = EventRow {
        slug: s("desertus-bikus-26"),
        name: s("Desertus \"Bikus\""),
        start_place_name: s("Bilbao"),
        end_place_name: s("Tarifa"),
        start_date: s("2026-04-18T08:00:00"),
        end_date: s("2026-04-28T08:00:00"),
        distance: s("1200km"),
        surface: JsonScalar::Null,
        participants: n("376"),
    };
    let out = events_csv(&vec![row]);
    assert_eq!(
        out,
        "slug,name,start_place,end_place,start_date,end_date,distance,surface,participants\n\
desertus-bikus-26,\"Desertus \"\"Bikus\"\"\",Bilbao,Tarifa,2026-04-18T08:00:00,2026-04-28T08:00:00,1200km,,376\n"
    );
}

#[test]
fn attachment_header() {
    assert_eq!(leaderboard_attachment("race-1"), "attachment; filename=\"race-1-leaderboard.csv\"");
}

fn read_line(line: &str) -> Vec<String> {
    let mut fields = Vec::new();
    let mut cur = String::new();
    let mut chars = line.chars().peekable();
    let mut quoted = false;
    while let Some(c) = chars.next() {
        if quoted {
            if c == '"' {
                if chars.peek() == Some(&'"') {
                    chars.next();
                    cur.push('"');
                } else {
                    quoted = false;
                }
            } else {
                cur.push(c);
            }
        } else if c == '"' && cur.is_empty() {
            quoted = true;
        } else if c == ',' {
            fields.push(std::mem::take(&mut cur));
        } else if c == '\n' {
            break;
        } else {
            cur.push(c);
        }
    }
    fields.push(cur);
    fields
}

#[test]
fn leaderboard_line_reads_back() {
    let row = LeaderboardRow {
        overall_rank: n("2"),
        category: s("M, 40+"),
        rank: JsonScalar::Null,
        bib: s("\"9\""),
        first_name: s("Jo"),
        last_name: s("Line\nBreak"),
        nickname: JsonScalar::Bool(true),
        country: JsonScalar::Null,
        distance: n("1.5"),
        speed: s("fast"),
        distance_to_next_cp: n("3"),
        battery: JsonScalar::Bool(true),
        last_ping: JsonScalar::Null,
        status: s("ACTIVE"),
        sleeping: JsonScalar::Bool(true),
    };
    let out = leaderboard_csv(&vec![row]);
    let line = &out[out.find('\n').unwrap() + 1..];
    let fields = read_line(line);
    let expected: Vec<&str> = vec!["2", "M, 40+", "", "\"9\"", "Jo", "Line\nBreak", "true", "", "1.5", "", "3", "", "", "ACTIVE", "true"];
    assert_eq!(fields, expected);
}
