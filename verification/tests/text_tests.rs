use abe_frontend::text::{
    lines_of, parse_clock_time, parse_u8, remove_all_occurrences, split_on, substring, trim,
    u8_to_decimal, ClockTimeError,
};

#[test]
fn parse_u8_reads_bytes() {
    assert_eq!(parse_u8("0"), Some(0));
    assert_eq!(parse_u8("255"), Some(255));
    assert_eq!(parse_u8("+7"), Some(7));
    assert_eq!(parse_u8("007"), Some(7));
    assert_eq!(parse_u8("256"), None);
    assert_eq!(parse_u8(""), None);
    assert_eq!(parse_u8("+"), None);
    assert_eq!(parse_u8("-1"), None);
    assert_eq!(parse_u8("1a"), None);
    assert_eq!(parse_u8(" 1"), None);
}

#[test]
fn parse_u8_agrees_with_std() {
    for s in ["0", "9", "10", "99", "100", "255", "256", "+0", "+255", "00255", "", "x", "1 ", "٣"] {
        assert_eq!(parse_u8(s), s.parse::<u8>().ok(), "input {:?}", s);
    }
}

#[test]
fn u8_decimal_renders_like_to_string() {
    for n in 0..=255u8 {
        assert_eq!(u8_to_decimal(n), n.to_string());
    }
}

#[test]
fn u8_decimal_parses_back() {
    for n in 0..=255u8 {
        assert_eq!(parse_u8(&u8_to_decimal(n)), Some(n));
    }
}

#[test]
fn clock_time_is_made_canonical() {
    assert_eq!(parse_clock_time("09:05"), Ok("09:05".to_string()));
    assert_eq!(parse_clock_time("3:5"), Ok("03:05".to_string()));
    assert_eq!(parse_clock_time("23:59"), Ok("23:59".to_string()));
    assert_eq!(parse_clock_time("+1:0"), Ok("01:00".to_string()));
    assert_eq!(parse_clock_time("0:00"), Ok("00:00".to_string()));
}

#[test]
fn clock_time_errors() {
    assert_eq!(parse_clock_time("1:2:3"), Err(ClockTimeError::MoreThanTwoParts));
    assert_eq!(parse_clock_time("12"), Err(ClockTimeError::NotTwoParts));
    assert_eq!(parse_clock_time(""), Err(ClockTimeError::NotTwoParts));
    assert_eq!(parse_clock_time("x:1"), Err(ClockTimeError::HourInvalid));
    assert_eq!(parse_clock_time(":1"), Err(ClockTimeError::HourInvalid));
    assert_eq!(parse_clock_time("1:300"), Err(ClockTimeError::MinuteInvalid));
    assert_eq!(parse_clock_time("24:00"), Err(ClockTimeError::HourInvalid));
    assert_eq!(parse_clock_time("25:00"), Err(ClockTimeError::HourInvalid));
    assert_eq!(parse_clock_time("23:60"), Err(ClockTimeError::MinuteInvalid));
}

#[test]
fn clock_time_canonical_form_reads_back_unchanged() {
    for s in ["09:05", "0:00", "23:59", "+3:+04", "12:30"] {
        let t = parse_clock_time(s).unwrap();
        assert_eq!(parse_clock_time(&t), Ok(t.clone()));
    }
}

#[test]
fn split_matches_str_split() {
    for s in ["a:b", "", ":", "a::b:", "abc"] {
        let want: Vec<String> = s.split(':').map(String::from).collect();
        assert_eq!(split_on(s, ':'), want);
    }
}

#[test]
fn lines_match_str_lines() {
    for s in ["a\nb", "a\r\nb\r\n", "", "\n", "x\n\ny", "last\r"] {
        let want: Vec<String> = s.lines().map(String::from).collect();
        assert_eq!(lines_of(s), want, "input {:?}", s);
    }
}

#[test]
fn trim_matches_str_trim() {
    for s in ["  a b  ", "\t\nx\u{a0}", "", "   ", "no"] {
        assert_eq!(trim(s), s.trim());
    }
}

#[test]
fn substring_takes_characters() {
    assert_eq!(substring("héllo", 1, 4), "éll");
    assert_eq!(substring("abc", 0, 0), "");
}

#[test]
fn remove_all_matches_replace() {
    for (s, p) in [("a{t}b{t}", "{t}"), ("aaa", "aa"), ("abc", ""), ("", "x"), ("aabb", "ab")] {
        assert_eq!(remove_all_occurrences(s, p), s.replace(p, ""), "{:?} {:?}", s, p);
    }
}
