use tagbot::text::{
    contains_char, format_i64, format_u64, join, parse_usize, same_text, split_once,
};

fn strings(v: &[&str]) -> Vec<String> {
    v.iter().map(|s| s.to_string()).collect()
}

#[test]
fn join_puts_separator_between_parts() {
    assert_eq!(join(&strings(&["a", "b", "c"]), " "), "a b c");
    assert_eq!(join(&strings(&["a", "b"]), ""), "ab");
    assert_eq!(join(&strings(&["only"]), ", "), "only");
    assert_eq!(join(&strings(&[]), " "), "");
    assert_eq!(join(&strings(&["", ""]), "-"), "-");
}

#[test]
fn join_agrees_with_std_join() {
    let cases: Vec<Vec<&str>> = vec![vec![], vec!["x"], vec!["a", "", "b"], vec!["héllo", "wörld"]];
    for c in cases {
        assert_eq!(join(&strings(&c), " "), c.join(" "));
    }
}

#[test]
fn split_once_cuts_at_first_separator() {
    assert_eq!(split_once("name&reg&x", '&'), Some(("name".to_string(), "reg&x".to_string())));
    assert_eq!(split_once("&x", '&'), Some(("".to_string(), "x".to_string())));
    assert_eq!(split_once("x&", '&'), Some(("x".to_string(), "".to_string())));
    assert_eq!(split_once("none", '&'), None);
    assert_eq!(split_once("", '&'), None);
}

#[test]
fn split_once_agrees_with_splitn() {
    for s in ["a&b", "&&", "no sep", "ü&ö&ä", "", "&"] {
        let pieces: Vec<&str> = s.splitn(2, "&").collect();
        let expected = if pieces.len() == 2 {
            Some((pieces[0].to_string(), pieces[1].to_string()))
        } else {
            None
        };
        assert_eq!(split_once(s, '&'), expected);
    }
}

#[test]
fn split_rejoins_to_the_text() {
    let s = "left&right&more";
    let (a, b) = split_once(s, '&').unwrap();
    assert_eq!(format!("{}&{}", a, b), s);
    assert!(!a.contains('&'));
}

#[test]
fn contains_char_finds_characters() {
    assert!(contains_char("a b", ' '));
    assert!(!contains_char("ab", ' '));
    assert!(!contains_char("", ' '));
    assert!(contains_char("naïve", 'ï'));
}

#[test]
fn same_text_compares_characters() {
    assert!(same_text("first", "first"));
    assert!(!same_text("first", "firsT"));
    assert!(!same_text("first", "firs"));
    assert!(same_text("", ""));
}

#[test]
fn format_u64_writes_decimal() {
    assert_eq!(format_u64(0), "0");
    assert_eq!(format_u64(7), "7");
    assert_eq!(format_u64(10), "10");
    assert_eq!(format_u64(1234567890), "1234567890");
    assert_eq!(format_u64(u64::MAX), "18446744073709551615");
}

#[test]
fn format_i64_writes_signed_decimal() {
    assert_eq!(format_i64(0), "0");
    assert_eq!(format_i64(-42), "-42");
    assert_eq!(format_i64(42), "42");
    assert_eq!(format_i64(i64::MIN), "-9223372036854775808");
    assert_eq!(format_i64(i64::MAX), "9223372036854775807");
}

#[test]
fn parse_usize_accepts_what_std_accepts() {
    assert_eq!(parse_usize("42"), Some(42));
    assert_eq!(parse_usize("+7"), Some(7));
    assert_eq!(parse_usize("007"), Some(7));
    assert_eq!(parse_usize("0"), Some(0));
}

#[test]
fn parse_usize_rejects_what_std_rejects() {
    assert_eq!(parse_usize(""), None);
    assert_eq!(parse_usize("+"), None);
    assert_eq!(parse_usize("-1"), None);
    assert_eq!(parse_usize("4a"), None);
    assert_eq!(parse_usize(" 4"), None);
    assert_eq!(parse_usize("99999999999999999999999999"), None);
}

#[test]
fn parse_usize_agrees_with_std_parse() {
    let max = usize::MAX.to_string();
    let over = format!("{}0", max);
    for s in ["1", "+12", "++1", "", "12x", "٣", "18446744073709551616", max.as_str(), over.as_str()] {
        assert_eq!(parse_usize(s), s.parse::<usize>().ok(), "input {:?}", s);
    }
}

#[test]
fn parse_reads_back_format() {
    for n in [0u64, 1, 9, 10, 99, 100, 65535, 4294967295] {
        assert_eq!(parse_usize(&format_u64(n)), Some(n as usize));
    }
}
