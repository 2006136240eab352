use rpycodestyle::{
    check_lines, checker, report_line, report_lines, reporting, Error, LineContext, INDENT_CHAR,
    MAX_LINE_LENGTH,
};

fn found(column_number: usize, message: &str) -> Option<Error> {
    Some(Error { column_number, error_message: message.to_string() })
}

fn lines_of(text: &[&str]) -> Vec<String> {
    text.iter().map(|line| line.to_string()).collect()
}

fn reported(found: &Vec<Option<Error>>) -> Vec<Error> {
    found.iter().flatten().cloned().collect()
}

#[test]
fn configuration_is_fixed() {
    assert_eq!(MAX_LINE_LENGTH, 120);
    assert_eq!(INDENT_CHAR, ' ');
}

#[test]
fn clean_line_has_an_empty_entry_for_each_single_detector() {
    assert_eq!(checker("x = 1", 1, 2, "", 0), vec![None; 10]);
    assert_eq!(checker("", 1, 2, "", 0), vec![None; 10]);
}

#[test]
fn detectors_report_in_their_fixed_order() {
    assert_eq!(
        checker("\ta = 4  + 5 ", 2, 3, "", 0),
        vec![
            None,
            found(0, "E101 indentation contains mixed spaces and tabs"),
            found(0, "W191 indentation contains tabs"),
            found(11, "W291 trailing whitespace"),
            None,
            None,
            None,
            None,
            None,
            found(6, "E221 multiple spaces before operator"),
            None,
        ]
    );
}

#[test]
fn findings_of_one_detector_stay_together() {
    assert_eq!(
        reported(&checker("import a,b  ;  x = ( 1,  2 )", 1, 2, "@d", 3)),
        vec![
            Error {
                column_number: 0,
                error_message: "E304 blank lines found after function decorator".to_string()
            },
            Error { column_number: 12, error_message: "E203 whitespace before ;".to_string() },
            Error { column_number: 20, error_message: "E201 whitespace after (".to_string() },
            Error { column_number: 27, error_message: "E202 whitespace before )".to_string() },
            Error { column_number: 8, error_message: "E231 missing whitespace after ,".to_string() },
            Error { column_number: 13, error_message: "E241 multiple spaces after ;".to_string() },
            Error { column_number: 23, error_message: "E241 multiple spaces after ,".to_string() },
        ]
    );
}

#[test]
fn every_kind_of_detector_has_its_place() {
    assert_eq!(
        reported(&checker("import  a,b  +  c", 1, 1, "", 0)),
        vec![
            Error { column_number: 17, error_message: "W292 no newline at end of file".to_string() },
            Error {
                column_number: 8,
                error_message: "E271 multiple spaces after keyword".to_string()
            },
            Error { column_number: 9, error_message: "E231 missing whitespace after ,".to_string() },
            Error {
                column_number: 11,
                error_message: "E221 multiple spaces before operator".to_string()
            },
            Error {
                column_number: 14,
                error_message: "E222 multiple spaces after operator".to_string()
            },
            Error {
                column_number: 9,
                error_message: "E401 multiple imports on one line".to_string()
            },
        ]
    );
}

#[test]
fn line_over_the_limit_is_reported_first() {
    let line = "x".repeat(121);
    let result = checker(&line, 1, 2, "", 0);
    assert_eq!(result[0], found(120, "E501 line too long (121 > 120 characters)"));
    assert_eq!(reported(&result).len(), 1);
}

#[test]
fn width_and_depth_of_indentation_are_both_reported() {
    assert_eq!(
        reported(&checker("  x", 2, 3, "y", 0)),
        vec![
            Error {
                column_number: 0,
                error_message: "E111: indentation is not a multiple of four".to_string()
            },
            Error { column_number: 0, error_message: "E113: unexpected indentation".to_string() },
        ]
    );
}

#[test]
fn report_of_a_long_line_has_the_code_after_the_column() {
    let line = "x".repeat(121);
    assert_eq!(
        reporting(&"a.py".to_string(), 4, &line, 9, "", 0),
        vec!["./a.py:4:120 E501 line too long (121 > 120 characters)".to_string()]
    );
}

#[test]
fn report_names_path_line_column_and_message() {
    let error =
        Error { column_number: 7, error_message: "E222 multiple spaces after operator".to_string() };
    assert_eq!(
        report_line("src/x.py", 12, &error),
        "./src/x.py:12:7 E222 multiple spaces after operator"
    );
    assert_eq!(
        report_line("", 0, &Error { column_number: 0, error_message: String::new() }),
        "./:0:0 "
    );
}

#[test]
fn reports_pass_over_empty_entries() {
    let errors = vec![None, found(0, "W191 indentation contains tabs"), None, found(3, "x")];
    assert_eq!(
        report_lines("a.py", 5, &errors),
        vec!["./a.py:5:0 W191 indentation contains tabs".to_string(), "./a.py:5:3 x".to_string()]
    );
    assert_eq!(report_lines("a.py", 5, &vec![None, None]), Vec::<String>::new());
    assert_eq!(report_lines("a.py", 5, &vec![]), Vec::<String>::new());
}

#[test]
fn reporting_checks_and_writes() {
    assert_eq!(
        reporting(&"a.py".to_string(), 3, "\tx ", 9, "", 0),
        vec![
            "./a.py:3:0 E101 indentation contains mixed spaces and tabs".to_string(),
            "./a.py:3:0 W191 indentation contains tabs".to_string(),
            "./a.py:3:2 W291 trailing whitespace".to_string(),
        ]
    );
    assert_eq!(reporting(&"a.py".to_string(), 3, "x = 1", 9, "", 0), Vec::<String>::new());
}

#[test]
fn three_line_file_end_to_end() {
    let result = check_lines(&lines_of(&["def f():", "  pass", ""]));
    assert_eq!(result.len(), 3);
    assert_eq!(reported(&result[0]), vec![]);
    assert_eq!(
        result[1],
        vec![
            None,
            None,
            None,
            None,
            None,
            None,
            found(0, "E272 multiple spaces before keyword"),
            None,
            found(0, "E111: indentation is not a multiple of four"),
            None,
            None,
        ]
    );
    assert_eq!(
        result[2],
        vec![
            None,
            None,
            None,
            None,
            found(0, "W391 blank line at end of file"),
            None,
            None,
            None,
            None,
            None,
        ]
    );
}

#[test]
fn blank_run_is_that_of_the_lines_before() {
    let result = check_lines(&lines_of(&["a = 1", "", "", "", "b = 2", "c = 3"]));
    assert_eq!(reported(&result[3]), vec![]);
    assert_eq!(
        reported(&result[4]),
        vec![Error { column_number: 0, error_message: "E303 too many blank lines 3".to_string() }]
    );
    assert_eq!(
        reported(&result[5]),
        vec![Error { column_number: 5, error_message: "W292 no newline at end of file".to_string() }]
    );
}

#[test]
fn fourth_blank_line_follows_three() {
    let result = check_lines(&lines_of(&["", "", "", "", "x"]));
    assert_eq!(reported(&result[0]), vec![]);
    assert_eq!(reported(&result[2]), vec![]);
    assert_eq!(
        reported(&result[3]),
        vec![Error { column_number: 0, error_message: "E303 too many blank lines 3".to_string() }]
    );
    assert_eq!(
        reported(&result[4]),
        vec![
            Error { column_number: 1, error_message: "W292 no newline at end of file".to_string() },
            Error { column_number: 0, error_message: "E303 too many blank lines 4".to_string() },
        ]
    );
}

#[test]
fn line_after_a_decorator_is_reported() {
    let result = check_lines(&lines_of(&["@decorator", "def f():", "    pass "]));
    assert_eq!(reported(&result[0]), vec![]);
    assert_eq!(
        reported(&result[1]),
        vec![Error {
            column_number: 0,
            error_message: "E304 blank lines found after function decorator".to_string()
        }]
    );
    assert_eq!(
        reported(&result[2]),
        vec![
            Error { column_number: 8, error_message: "W291 trailing whitespace".to_string() },
            Error {
                column_number: 0,
                error_message: "E272 multiple spaces before keyword".to_string()
            },
        ]
    );
}

#[test]
fn text_without_lines_has_no_findings() {
    assert_eq!(check_lines(&vec![]), Vec::<Vec<Option<Error>>>::new());
}

#[test]
fn single_line_is_first_and_last() {
    let result = check_lines(&lines_of(&["x"]));
    assert_eq!(
        reported(&result[0]),
        vec![Error { column_number: 1, error_message: "W292 no newline at end of file".to_string() }]
    );
}

#[test]
fn context_is_carried_from_line_to_line() {
    let first = LineContext::start(3);
    assert_eq!(first.line_number, 1);
    assert_eq!(first.total_lines, 3);
    assert_eq!(first.previous_line, "");
    assert_eq!(first.blank_run, 0);
    let second = first.advance("");
    assert_eq!(second.line_number, 2);
    assert_eq!(second.total_lines, 3);
    assert_eq!(second.previous_line, "");
    assert_eq!(second.blank_run, 1);
    let third = second.advance("if x:");
    assert_eq!(third.line_number, 3);
    assert_eq!(third.previous_line, "if x:");
    assert_eq!(third.blank_run, 0);
    assert_eq!(third.check("pass"), checker("pass", 3, 3, "if x:", 0));
    assert_eq!(
        reported(&third.check("pass")),
        vec![
            Error { column_number: 4, error_message: "W292 no newline at end of file".to_string() },
            Error { column_number: 0, error_message: "E112: expected an indented block".to_string() },
        ]
    );
}

#[test]
fn every_line_shape_is_checked_to_the_end() {
    let shapes = [
        "",
        " ",
        "\t",
        "x",
        ":",
        ",",
        "(",
        " )",
        "( ",
        "@",
        "#",
        "+",
        "  +  ",
        "and",
        "  and  ",
        ",  ",
        "import",
        "import ,",
        "from  import(",
        "\u{e9}",
        "\u{1f600} \u{3000}",
        "[[[[::::",
        "}}}}{{{{",
    ];
    for line in shapes {
        for previous in shapes {
            let result = checker(line, 1, 1, previous, 3);
            assert!(result.len() >= 10, "{:?} after {:?}", line, previous);
        }
    }
    let texts: Vec<String> = shapes.iter().map(|line| line.to_string()).collect();
    assert_eq!(check_lines(&texts).len(), shapes.len());
}
