use rpycodestyle::{
    maximum_line_length, tabs_obsolete, tabs_or_spaces, trailing_blank_lines, trailing_whitespace,
    Error,
};

fn found(column_number: usize, message: &str) -> Option<Error> {
    Some(Error { column_number, error_message: message.to_string() })
}

#[test]
fn long_line_is_reported_at_the_limit() {
    let line = "a".repeat(121);
    assert_eq!(
        maximum_line_length(&line, 120),
        found(120, "E501 line too long (121 > 120 characters)")
    );
}

#[test]
fn line_of_the_limit_is_accepted() {
    let line = "a".repeat(120);
    assert_eq!(maximum_line_length(&line, 120), None);
    assert_eq!(maximum_line_length("", 0), None);
}

#[test]
fn line_length_is_counted_in_scalar_values() {
    let line = "\u{e9}\u{e9}\u{e9}";
    assert_eq!(line.len(), 6);
    assert_eq!(maximum_line_length(line, 3), None);
    assert_eq!(maximum_line_length(line, 2), found(2, "E501 line too long (3 > 2 characters)"));
}

#[test]
fn message_of_a_long_line_opens_with_its_code() {
    let line = "a".repeat(1000);
    let error = maximum_line_length(&line, 79).unwrap();
    assert_eq!(error.column_number, 79);
    assert!(error.error_message.starts_with("E501 "));
    assert_eq!(error.error_message, "E501 line too long (1000 > 79 characters)");
}

#[test]
fn line_longer_than_zero_is_reported_at_zero() {
    assert_eq!(maximum_line_length("x", 0), found(0, "E501 line too long (1 > 0 characters)"));
}

#[test]
fn indentation_of_the_indent_character_alone_is_accepted() {
    assert_eq!(tabs_or_spaces("    x = 1", ' '), None);
    assert_eq!(tabs_or_spaces("\t\tx = 1", '\t'), None);
    assert_eq!(tabs_or_spaces("x = 1", ' '), None);
    assert_eq!(tabs_or_spaces("", ' '), None);
    assert_eq!(tabs_or_spaces("    ", ' '), None);
}

#[test]
fn foreign_character_in_indentation_is_reported_at_its_offset() {
    let message = "E101 indentation contains mixed spaces and tabs";
    assert_eq!(tabs_or_spaces("  \t  x", ' '), found(2, message));
    assert_eq!(tabs_or_spaces("\t\t x", '\t'), found(2, message));
    assert_eq!(tabs_or_spaces("  \t", ' '), found(2, message));
    assert_eq!(tabs_or_spaces("   \t \tx", ' '), found(3, message));
}

#[test]
fn mixed_indentation_is_sought_in_the_leading_run_only() {
    assert_eq!(tabs_or_spaces("x \t y", ' '), None);
    assert_eq!(tabs_or_spaces("  x\t", ' '), None);
}

#[test]
fn indent_character_that_is_no_blank_makes_all_indentation_foreign() {
    let message = "E101 indentation contains mixed spaces and tabs";
    assert_eq!(tabs_or_spaces("  x", 'x'), found(0, message));
    assert_eq!(tabs_or_spaces("xx  ", 'x'), None);
}

#[test]
fn first_tab_of_the_indentation_is_reported() {
    let message = "W191 indentation contains tabs";
    assert_eq!(tabs_obsolete("  \t\tx"), found(2, message));
    assert_eq!(tabs_obsolete("\t  x"), found(0, message));
    assert_eq!(tabs_obsolete("    \t"), found(4, message));
}

#[test]
fn tab_outside_the_indentation_is_not_reported() {
    assert_eq!(tabs_obsolete("  x\t"), None);
    assert_eq!(tabs_obsolete("x\t"), None);
    assert_eq!(tabs_obsolete("    x"), None);
    assert_eq!(tabs_obsolete(""), None);
}

#[test]
fn trailing_whitespace_after_text_and_on_a_blank_line() {
    assert_eq!(trailing_whitespace("foo "), found(3, "W291 trailing whitespace"));
    assert_eq!(trailing_whitespace(" "), found(0, "W293 blank line contains whitespace"));
    assert_eq!(trailing_whitespace("foo"), None);
    assert_eq!(trailing_whitespace(""), None);
}

#[test]
fn trailing_whitespace_is_unicode_white_space() {
    assert_eq!(trailing_whitespace("foo\u{a0}"), found(3, "W291 trailing whitespace"));
    assert_eq!(trailing_whitespace("foo \t\u{3000}"), found(3, "W291 trailing whitespace"));
    assert_eq!(trailing_whitespace("\u{2003}\t"), found(0, "W293 blank line contains whitespace"));
    assert_eq!(trailing_whitespace("foo\u{200b}"), None);
}

#[test]
fn trailing_whitespace_column_is_counted_in_scalar_values() {
    assert_eq!(trailing_whitespace("\u{e9}\u{e9} \t"), found(2, "W291 trailing whitespace"));
}

#[test]
fn leading_whitespace_alone_is_no_trailing_whitespace() {
    assert_eq!(trailing_whitespace("   foo"), None);
}

#[test]
fn end_of_file_is_checked_on_the_last_line_only() {
    assert_eq!(trailing_blank_lines("", 1, 2), None);
    assert_eq!(trailing_blank_lines("x", 1, 2), None);
    assert_eq!(trailing_blank_lines("x", 3, 2), None);
}

#[test]
fn last_line_of_white_space_is_a_blank_line_at_end_of_file() {
    assert_eq!(trailing_blank_lines("  \t", 7, 7), found(0, "W391 blank line at end of file"));
}

#[test]
fn last_line_without_trailing_whitespace_has_no_newline() {
    assert_eq!(trailing_blank_lines("x = 1", 7, 7), found(5, "W292 no newline at end of file"));
    assert_eq!(trailing_blank_lines("\u{e9}", 1, 1), found(1, "W292 no newline at end of file"));
}

#[test]
fn last_line_with_trailing_whitespace_is_left_to_the_other_rule() {
    assert_eq!(trailing_blank_lines("x = 1 ", 7, 7), None);
}
