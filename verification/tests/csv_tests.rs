use frameanchor::csv::{split_csv_line, trim, ColumnIndexes};

fn s(v: &[&str]) -> Vec<String> {
    v.iter().map(|x| x.to_string()).collect()
}

#[test]
fn csv_fields_keep_quoted_commas_and_doubled_quotes() {
    assert_eq!(split_csv_line("a,b,c"), s(&["a", "b", "c"]));
    assert_eq!(split_csv_line(r#""game, the",1.5,x"#), s(&["game, the", "1.5", "x"]));
    assert_eq!(split_csv_line(r#""say ""hi""",2"#), s(&[r#"say "hi""#, "2"]));
    assert_eq!(split_csv_line(""), s(&[""]));
    assert_eq!(split_csv_line(",,"), s(&["", "", ""]));
    assert_eq!(split_csv_line(r#"a"b,c"#), s(&["ab,c"]));
}

#[test]
fn trim_removes_unicode_white_space_at_both_ends() {
    assert_eq!(trim("  msBetweenPresents\t"), "msBetweenPresents");
    assert_eq!(trim("\u{3000}x y\u{a0}"), "x y");
    assert_eq!(trim("   "), "");
}

#[test]
fn header_columns_are_found_case_insensitively() {
    let mut c = ColumnIndexes::default();
    c.locate(&s(&["Application", " MsBetweenPresents ", "TimeInSeconds", "qpctime", "Dropped"]));
    assert!(c.found_header);
    assert!(c.frames_found);
    assert_eq!(c.frames, 1);
    assert_eq!(c.seconds, Some(2));
    assert_eq!(c.qpc, Some(3));
    assert_eq!(c.dropped, Some(4));
    assert_eq!(c.display_change, None);
    let mut d = ColumnIndexes::default();
    d.locate(&s(&["msUntilDisplayed", "msBetweenDisplayChange", "msUntilDisplayed"]));
    assert!(!d.found_header);
    assert_eq!(d.until_displayed, Some(2));
    assert_eq!(d.display_change, Some(1));
}
