//! The order in which the detectors run on a line, the context that is
//! carried from line to line, and the text of a report.

use vstd::prelude::*;
use crate::context::{
    blank_lines,
    blank_lines_finding,
    calculate_indent_level,
    indent_level,
    indentation,
    indentation_findings,
};
use crate::diagnostic::{decimal, decimal_text, finding, findings, Diagnostic, Error};
use crate::pattern::{occurrences, Pattern};
use crate::physical::{
    end_of_file_finding,
    line_length_finding,
    maximum_line_length,
    mixed_indent_finding,
    tab_indent_finding,
    tabs_obsolete,
    tabs_or_spaces,
    trailing_blank_lines,
    trailing_whitespace,
    trailing_whitespace_finding,
};
use crate::spacing::{
    extraneous_whitespace,
    import_paren_finding,
    imports_on_separate_lines,
    missing_whitespace,
    missing_whitespace_after_import_keyword,
    missing_whitespace_before,
    multiple_imports_finding,
    pattern_findings,
    whitespace_around_comma,
    whitespace_around_keywords,
    whitespace_around_operator,
};

verus! {

/// The greatest number of characters that a line may hold.
pub const MAX_LINE_LENGTH: usize = 120;

/// The character that indentation is to be made of.
pub const INDENT_CHAR: char = ' ';

/// What all the matches of `pattern` in `line` amount to.
pub open spec fn searched(pattern: Pattern, line: Seq<char>) -> Seq<Option<Diagnostic>> {
    pattern_findings(pattern, line, occurrences(pattern, line))
}

/// Everything that is reported of one line, detector after detector in
/// their fixed order. A detector that reports at most one finding has one
/// entry, which is `None` where it found nothing. The width and the depth
/// of the indentation are judged apart, so both may be reported.
pub open spec fn line_findings(
    line: Seq<char>,
    line_number: nat,
    total_lines: nat,
    previous_line: Seq<char>,
    blank_run: nat,
) -> Seq<Option<Diagnostic>> {
    seq![
        line_length_finding(line, MAX_LINE_LENGTH as nat),
        mixed_indent_finding(line, INDENT_CHAR),
        tab_indent_finding(line),
        trailing_whitespace_finding(line),
        end_of_file_finding(line, line_number, total_lines),
        blank_lines_finding(previous_line, blank_run),
    ] + searched(Pattern::Bracket, line) + searched(Pattern::Keyword, line) + seq![
        import_paren_finding(line),
    ] + missing_whitespace_before(line, line.len()) + indentation_findings(
        line,
        previous_line,
        indent_level(line, INDENT_CHAR),
        indent_level(previous_line, INDENT_CHAR),
    ) + searched(Pattern::Operator, line) + searched(Pattern::Separator, line) + seq![
        multiple_imports_finding(line),
    ]
}

fn push_one(out: &mut Vec<Option<Error>>, r: Option<Error>)
    ensures
        findings(final(out)@) == findings(old(out)@) + seq![finding(r)],
{
    out.push(r);
    assert(findings(out@) =~= findings(old(out)@) + seq![finding(r)]);
}

fn push_all(out: &mut Vec<Option<Error>>, more: Vec<Option<Error>>)
    ensures
        findings(final(out)@) == findings(old(out)@) + findings(more@),
{
    let mut more = more;
    let ghost added = more@;
    out.append(&mut more);
    assert(findings(out@) =~= findings(old(out)@) + findings(added));
}

/// Runs every detector on `line` and gathers what they report.
pub fn checker(
    line: &str,
    line_number: usize,
    total_lines: usize,
    previous_line: &str,
    num_blank_lines: usize,
) -> (r: Vec<Option<Error>>)
    ensures
        findings(r@) == line_findings(
            line@,
            line_number as nat,
            total_lines as nat,
            previous_line@,
            num_blank_lines as nat,
        ),
{
    let mut errors: Vec<Option<Error>> = Vec::new();
    let level = calculate_indent_level(line, INDENT_CHAR);
    let previous_level = calculate_indent_level(previous_line, INDENT_CHAR);
    assert(findings(errors@) =~= Seq::empty());
    push_one(&mut errors, maximum_line_length(line, MAX_LINE_LENGTH));
    push_one(&mut errors, tabs_or_spaces(line, INDENT_CHAR));
    push_one(&mut errors, tabs_obsolete(line));
    push_one(&mut errors, trailing_whitespace(line));
    push_one(&mut errors, trailing_blank_lines(line, line_number, total_lines));
    push_one(&mut errors, blank_lines(line, line_number, previous_line, num_blank_lines));
    push_all(&mut errors, extraneous_whitespace(line));
    push_all(&mut errors, whitespace_around_keywords(line));
    push_one(&mut errors, missing_whitespace_after_import_keyword(line));
    push_all(&mut errors, missing_whitespace(line));
    push_all(&mut errors, indentation(line, previous_line, level, previous_level));
    push_all(&mut errors, whitespace_around_operator(line));
    push_all(&mut errors, whitespace_around_comma(line));
    push_one(&mut errors, imports_on_separate_lines(line));
    assert(findings(errors@) =~= line_findings(
        line@,
        line_number as nat,
        total_lines as nat,
        previous_line@,
        num_blank_lines as nat,
    ));
    errors
}

/// What a report starts with, before the path.
pub const REPORT_OPEN: &'static str = "./";

/// What parts the path, the line number and the column.
pub const REPORT_COLON: &'static str = ":";

/// What parts the column and the message.
pub const REPORT_SPACE: &'static str = " ";

/// The text of a report: the path behind `./`, the line number, the
/// column and the message.
pub open spec fn report_text(path: Seq<char>, line_number: nat, found: Diagnostic) -> Seq<char> {
    REPORT_OPEN@ + path + REPORT_COLON@ + decimal(line_number) + REPORT_COLON@ + decimal(
        found.column,
    ) + REPORT_SPACE@ + found.message
}

/// Writes the report of one finding.
pub fn report_line(path: &str, line_number: usize, error: &Error) -> (text: String)
    ensures
        text@ == report_text(path@, line_number as nat, error@),
{
    let number = decimal_text(line_number);
    let column = decimal_text(error.column_number);
    let mut text = String::from_str(REPORT_OPEN);
    text.append(path);
    text.append(REPORT_COLON);
    text.append(number.as_str());
    text.append(REPORT_COLON);
    text.append(column.as_str());
    text.append(REPORT_SPACE);
    text.append(error.error_message.as_str());
    text
}

/// The reports of the findings among `found`, in order.
pub open spec fn report_texts(
    path: Seq<char>,
    line_number: nat,
    found: Seq<Option<Diagnostic>>,
) -> Seq<Seq<char>>
    decreases found.len(),
{
    if found.len() == 0 {
        Seq::empty()
    } else {
        let earlier = report_texts(path, line_number, found.drop_last());
        match found.last() {
            Some(d) => earlier.push(report_text(path, line_number, d)),
            None => earlier,
        }
    }
}

/// The characters of each string.
pub open spec fn texts(strings: Seq<String>) -> Seq<Seq<char>> {
    strings.map_values(|s: String| s@)
}

/// Writes the report of each finding among `errors`.
pub fn report_lines(path: &str, line_number: usize, errors: &Vec<Option<Error>>) -> (r: Vec<String>)
    ensures
        texts(r@) == report_texts(path@, line_number as nat, findings(errors@)),
{
    let mut out: Vec<String> = Vec::new();
    let mut i: usize = 0;
    assert(texts(out@) =~= Seq::empty());
    assert(findings(errors@.take(0)) =~= Seq::empty());
    while i < errors.len()
        invariant
            i <= errors.len(),
            texts(out@) == report_texts(
                path@,
                line_number as nat,
                findings(errors@.take(i as int)),
            ),
        decreases errors.len() - i,
    {
        proof {
            let now = findings(errors@.take(i + 1));
            assert(now.drop_last() =~= findings(errors@.take(i as int)));
            assert(now.last() == finding(errors@[i as int]));
        }
        match &errors[i] {
            Some(error) => {
                let text = report_line(path, line_number, error);
                let ghost earlier = out@;
                let ghost written = text@;
                out.push(text);
                assert(texts(out@) =~= texts(earlier).push(written));
            },
            None => {},
        }
        i += 1;
    }
    assert(errors@.take(errors.len() as int) =~= errors@);
    out
}

/// Checks one line and writes a report for each finding.
pub fn reporting(
    path: &String,
    line_number: usize,
    line: &str,
    total_lines: usize,
    previous_line: &str,
    num_blank_lines: usize,
) -> (r: Vec<String>)
    ensures
        texts(r@) == report_texts(
            path@,
            line_number as nat,
            line_findings(
                line@,
                line_number as nat,
                total_lines as nat,
                previous_line@,
                num_blank_lines as nat,
            ),
        ),
{
    let errors = checker(line, line_number, total_lines, previous_line, num_blank_lines);
    report_lines(path.as_str(), line_number, &errors)
}

} // verus!
