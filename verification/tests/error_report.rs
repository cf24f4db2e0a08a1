use script_to_lua::util::error_report::{
    report, report_characters, try_report, try_report_characters,
};

#[test]
fn should_display_single_character_error() {
    let input = r#"
line zero
line one
line two
line three
line four
"#;

    let output = report("some error", input, 21, 21);

    assert_eq!(
        output,
        r#"line one
line two
-^
line three
"#
    );
}

#[test]
fn report_on_the_first_line_has_no_line_before() {
    assert_eq!(report("", "abc def\nnext", 4, 6), "abc def\n----^^^\nnext\n");
}

#[test]
fn report_on_the_last_line_has_no_line_after() {
    assert_eq!(report("", "first\nsecond", 6, 6), "first\nsecond\n^\n");
}

#[test]
fn report_on_the_only_line() {
    assert_eq!(report("", "only", 1, 2), "only\n-^^\n");
}

#[test]
fn report_counts_bytes() {
    assert_eq!(report("", "é = ?\n", 5, 5), "é = ?\n-----^\n\n");
    assert_eq!(report("", "é\nab", 3, 3), "é\nab\n^\n");
    assert_eq!(report("", "é\nab", 3, 4), "é\nab\n^^\n");
    assert_eq!(report("", "aé", 1, 2), "aé\n-^^\n");
}

#[test]
fn report_characters_counts_characters() {
    assert_eq!(report_characters("", "é = ?\n", 4, 4), "é = ?\n----^\n\n");
    assert_eq!(report_characters("", "é\nab", 3, 3), "é\nab\n-^\n");
    assert_eq!(report_characters("", "only", 1, 2), "only\n-^^\n");
}

#[test]
fn carriage_return_ends_a_line_too() {
    assert_eq!(report("", "a\r\nb", 3, 3), "\nb\n^\n");
    assert_eq!(report("", "a\rb\rc", 2, 2), "a\nb\n^\nc\n");
}

#[test]
fn span_that_ends_on_a_line_break_belongs_to_the_line_it_ends() {
    assert_eq!(report("", "ab\ncd", 1, 2), "ab\n-^^\ncd\n");
}

#[test]
fn spans_that_cannot_be_reported() {
    assert_eq!(try_report("", "ab\ncd", 1, 4), None);
    assert_eq!(try_report("", "ab", 1, 2), None);
    assert_eq!(try_report("", "ab", 1, 0), None);
    assert_eq!(try_report("", "", 0, 0), None);
    assert_eq!(try_report("", "ab\ncd", 3, 4), Some("ab\ncd\n^^\n".to_string()));
    assert_eq!(try_report("", "é", 1, 1), Some("é\n-^\n".to_string()));
    assert_eq!(try_report("", "é", 2, 2), None);
    assert_eq!(try_report_characters("", "é", 1, 1), None);
    assert_eq!(try_report_characters("", "ab\ncd", 1, 4), None);
    assert_eq!(try_report_characters("", "ab\ncd", 3, 4), Some("ab\ncd\n^^\n".to_string()));
}
