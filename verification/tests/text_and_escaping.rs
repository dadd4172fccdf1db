use madcap_fast::escape::{csv_bool, csv_num, csv_str, esc_label, JsonScalar};
use madcap_fast::text::{number_prefix, push_decimal, same_text, trim};

#[test]
fn esc_label_escapes_specials() {
    assert_eq!(esc_label("plain"), "plain");
    assert_eq!(esc_label("a\"b\\c\nd"), "a\\\"b\\\\c\\nd");
    assert_eq!(esc_label(""), "");
}

#[test]
fn csv_str_quotes_when_needed() {
    assert_eq!(csv_str(&JsonScalar::Str("plain".to_string())), "plain");
    assert_eq!(csv_str(&JsonScalar::Str("a,b".to_string())), "\"a,b\"");
    assert_eq!(csv_str(&JsonScalar::Str("say \"hi\"".to_string())), "\"say \"\"hi\"\"\"");
    assert_eq!(csv_str(&JsonScalar::Str("two\nlines".to_string())), "\"two\nlines\"");
    assert_eq!(csv_str(&JsonScalar::Str("cr\r".to_string())), "\"cr\r\"");
}

#[test]
fn csv_str_other_values() {
    assert_eq!(csv_str(&JsonScalar::Null), "");
    assert_eq!(csv_str(&JsonScalar::Bool(true)), "true");
    assert_eq!(csv_str(&JsonScalar::Number("12.5".to_string())), "12.5");
    assert_eq!(csv_str(&JsonScalar::Other("[1,2]".to_string())), "[1,2]");
}

#[test]
fn csv_num_only_numbers() {
    assert_eq!(csv_num(&JsonScalar::Number("42".to_string())), "42");
    assert_eq!(csv_num(&JsonScalar::Str("42".to_string())), "");
    assert_eq!(csv_num(&JsonScalar::Null), "");
}

#[test]
fn csv_bool_only_booleans() {
    assert_eq!(csv_bool(&JsonScalar::Bool(false)), "false");
    assert_eq!(csv_bool(&JsonScalar::Bool(true)), "true");
    assert_eq!(csv_bool(&JsonScalar::Str("true".to_string())), "");
}

#[test]
fn number_prefix_examples() {
    assert_eq!(number_prefix("1200km"), "1200");
    assert_eq!(number_prefix("350 / 700 km"), "350");
    assert_eq!(number_prefix("about 1234.5 km"), "1234.5");
    assert_eq!(number_prefix(".5km"), "5");
    assert_eq!(number_prefix("1.2.3"), "1.2.3");
    assert_eq!(number_prefix("no digits"), "");
}

#[test]
fn trim_unicode_white_space() {
    assert_eq!(trim("  Ada Lovelace \t"), "Ada Lovelace");
    assert_eq!(trim("\u{a0}x\u{3000}"), "x");
    assert_eq!(trim("   "), "");
}

#[test]
fn decimal_rendering() {
    let mut s = String::new();
    push_decimal(&mut s, 0);
    s.push(' ');
    push_decimal(&mut s, 1234567890123);
    assert_eq!(s, "0 1234567890123");
}

#[test]
fn same_text_compares() {
    assert!(same_text("ACTIVE", "ACTIVE"));
    assert!(!same_text("ACTIVE", "ACTIVe"));
    assert!(!same_text("ACTIVE", "ACTIVE "));
}

fn unescape(t: &str) -> String {
    let mut out = String::new();
    let mut it = t.chars();
    while let Some(c) = it.next() {
        if c == '\\' {
            match it.next() {
                Some('n') => out.push('\n'),
                Some(d) => out.push(d),
                None => out.push('\\'),
            }
        } else {
            out.push(c);
        }
    }
    out
}

#[test]
fn esc_label_reads_back() {
    for s in ["", "plain", "a\"b", "back\\slash", "two\nlines", "\\n", "\"\\\n"] {
        let e = esc_label(s);
        assert!(!e.contains('\n'));
        assert_eq!(unescape(&e), s);
    }
}

fn csv_value(f: &str) -> String {
    if f.len() >= 2 && f.starts_with('"') && f.ends_with('"') {
        f[1..f.len() - 1].replace("\"\"", "\"")
    } else {
        f.to_string()
    }
}

#[test]
fn csv_text_reads_back() {
    for s in ["", "plain", "a,b", "say \"hi\"", "\"", "x\r\ny", "\"quoted\""] {
        let f = csv_str(&JsonScalar::Str(s.to_string()));
        assert_eq!(csv_value(&f), s);
    }
}

#[test]
fn escaped_length_counts_backslashes_quotes_and_newlines() {
    let s = "a\\b\"c\nd\\\\\"";
    let e = esc_label(s);
    let special = s.chars().filter(|c| matches!(c, '\\' | '"' | '\n')).count();
    assert_eq!(e.chars().count(), s.chars().count() + special);
    assert_eq!(e, "a\\\\b\\\"c\\nd\\\\\\\\\\\"");
}

#[test]
fn escaped_quotes_follow_an_odd_run_of_backslashes() {
    let e: Vec<char> = esc_label("\\\"\\\\\"x\"").chars().collect();
    for (i, c) in e.iter().enumerate() {
        if *c == '"' {
            let run = e[..i].iter().rev().take_while(|c| **c == '\\').count();
            assert_eq!(run % 2, 1, "quote at {i}");
        }
    }
    let tail = e.iter().rev().take_while(|c| **c == '\\').count();
    assert_eq!(tail % 2, 0);
}
