use myhome::text::{date_part, decimal_text, join3, split, text_before, text_or, text_or_empty};

#[test]
fn date_part_cuts_at_the_first_t() {
    assert_eq!(date_part("2024-01-01T12:00:00Z"), "2024-01-01");
    assert_eq!(date_part("2024-01-01"), "2024-01-01");
    assert_eq!(date_part("T"), "");
    assert_eq!(date_part(""), "");
    assert_eq!(date_part("aTbTc"), "a");
    assert_eq!(date_part("Tuesday"), "");
}

#[test]
fn date_part_agrees_with_splitting() {
    for s in ["2024-07-01T00:00:00+00:00", "no marker", "", "T", "été Tôt", "日本T語"] {
        assert_eq!(date_part(s), s.split('T').next().unwrap_or(s));
    }
}

#[test]
fn text_before_takes_any_marker() {
    assert_eq!(text_before("key=value=more", '='), "key");
    assert_eq!(text_before("ünï→côde", '→'), "ünï");
}

#[test]
fn decimal_text_matches_the_standard_rendering() {
    for n in [0i64, 7, 9, 10, 42, 99, 100, -1, -9, -10, 2000, 1234567890, i64::MAX, i64::MIN] {
        assert_eq!(decimal_text(n), n.to_string());
    }
}

#[test]
fn decimal_text_of_known_values() {
    assert_eq!(decimal_text(0), "0");
    assert_eq!(decimal_text(-2000), "-2000");
    assert_eq!(decimal_text(i64::MIN), "-9223372036854775808");
}

#[test]
fn split_gives_one_more_piece_than_separators() {
    assert_eq!(split("Applications/myHome", '/'), vec!["Applications", "myHome"]);
    assert_eq!(split("plain", '/'), vec!["plain"]);
    assert_eq!(split("", '/'), vec![""]);
    assert_eq!(split("/", '/'), vec!["", ""]);
    assert_eq!(split("a//b/", '/'), vec!["a", "", "b", ""]);
}

#[test]
fn split_agrees_with_the_standard_split() {
    for s in ["a/b/c", "", "/", "//", "a/", "/a", "no separator", "ä/ö/ü"] {
        let expected: Vec<String> = s.split('/').map(|p| p.to_string()).collect();
        assert_eq!(split(s, '/'), expected);
    }
}

#[test]
fn missing_text_takes_the_fallback() {
    assert_eq!(text_or(&Some("x".to_string()), "-"), "x");
    assert_eq!(text_or(&Some(String::new()), "-"), "");
    assert_eq!(text_or(&None, "-"), "-");
    assert_eq!(text_or_empty(&Some("x".to_string())), "x");
    assert_eq!(text_or_empty(&None), "");
}

#[test]
fn join3_concatenates() {
    assert_eq!(join3("Welcome home, ", "Ada", "!"), "Welcome home, Ada!");
    assert_eq!(join3("", "", ""), "");
}
