use detbar::text::{
    contains_str, decimal_string, ends_with_str, eq_str, starts_with_str,
    trim_end_matches_str, trim_start_matches_str, trim_str,
};

#[test]
fn substring_search_matches_std() {
    let cases = [("hello world", "o w"), ("abc", ""), ("", ""), ("", "a"), ("aaa", "aaaa"), ("detbar Desktop", "detbar"), ("ab", "ba")];
    for (s, p) in cases {
        assert_eq!(contains_str(s, p), s.contains(p), "{:?} {:?}", s, p);
        assert_eq!(starts_with_str(s, p), s.starts_with(p), "{:?} {:?}", s, p);
        assert_eq!(ends_with_str(s, p), s.ends_with(p), "{:?} {:?}", s, p);
        assert_eq!(eq_str(s, p), s == p);
    }
}

#[test]
fn trims_match_std() {
    let cases = ["  a b  ", "\t\r\n", "", "x", "\u{a0}\u{2003}y\u{3000}", "\u{200b}z"];
    for s in cases {
        assert_eq!(trim_str(s), s.trim(), "{:?}", s);
    }
    let pats = [("widget_widget_a", "widget_"), ("aaa", "a"), ("abc", ""), ("ab_visible_visible", "_visible")];
    for (s, p) in pats {
        assert_eq!(trim_start_matches_str(s, p), s.trim_start_matches(p));
        assert_eq!(trim_end_matches_str(s, p), s.trim_end_matches(p));
    }
}

#[test]
fn decimals_match_std() {
    for n in [0u64, 7, 10, 99, 1000, u64::MAX] {
        assert_eq!(decimal_string(n), n.to_string());
    }
}
