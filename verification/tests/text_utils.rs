use kernelstats::text::{ends_with_str, find_from, split_str, str_eq, trim_ws};

#[test]
fn find_from_reports_first_occurrence_or_length() {
    assert_eq!(find_from("a.b.c", '.', 0), 1);
    assert_eq!(find_from("a.b.c", '.', 2), 3);
    assert_eq!(find_from("abc", '.', 0), 3);
    assert_eq!(find_from("", '.', 0), 0);
}

#[test]
fn str_eq_compares_characters() {
    assert!(str_eq("", ""));
    assert!(str_eq("2.6.11", "2.6.11"));
    assert!(!str_eq("2.6.11", "2.6.12"));
    assert!(!str_eq("abc", "ab"));
}

#[test]
fn ends_with_str_checks_suffixes() {
    assert!(ends_with_str("v5.4-tree", "-tree"));
    assert!(ends_with_str("x", ""));
    assert!(!ends_with_str("-rc", "v5.4-rc"));
    assert!(!ends_with_str("v5.4-tree1", "-tree"));
}

#[test]
fn split_str_keeps_empty_segments() {
    assert_eq!(split_str("a\nb", '\n'), vec!["a", "b"]);
    assert_eq!(split_str("\na\n", '\n'), vec!["", "a", ""]);
    assert_eq!(split_str("", '\n'), vec![""]);
}

#[test]
fn trim_ws_strips_both_ends_only() {
    assert_eq!(trim_ws("  abc\tdef \r\n"), "abc\tdef");
    assert_eq!(trim_ws(""), "");
    assert_eq!(trim_ws(" \t\r\n"), "");
    assert_eq!(trim_ws("abc"), "abc");
}
