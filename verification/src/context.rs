//! Detectors that look at the line before: runs of blank lines,
//! decorators, and the depth of indentation.

use vstd::prelude::*;
use crate::diagnostic::{decimal, decimal_text, finding, findings, report, Diagnostic, Error};
use crate::text::{chars_of, leading_len, prefix_len, trailing_cut, trimmed_len, CharClass};

verus! {

pub const E111: &'static str = "E111: indentation is not a multiple of four";

pub const E112: &'static str = "E112: expected an indented block";

pub const E113: &'static str = "E113: unexpected indentation";

pub const E114: &'static str = "E114: indentation is not a multiple of four (comment)";

pub const E115: &'static str = "E115: expected an indented block (comment)";

pub const E116: &'static str = "E116: unexpected indentation (comment)";

/// What `E303` says before the number of blank lines.
pub const E303: &'static str = "E303 too many blank lines ";

pub const E304: &'static str = "E304 blank lines found after function decorator";

/// A finding at the start of the line.
pub open spec fn at_start(message: Seq<char>) -> Diagnostic {
    Diagnostic { column: 0, message }
}

/// How many times `indent_char` stands at the start of `line` before
/// anything else.
pub open spec fn indent_level(line: Seq<char>, indent_char: char) -> nat {
    prefix_len(line, CharClass::Exactly(indent_char))
}

/// The indent level of `line`: the number of leading `indent_char`.
pub fn calculate_indent_level(line: &str, indent_char: char) -> (level: usize)
    ensures
        level == indent_level(line@, indent_char),
{
    let chars = chars_of(line);
    leading_len(&chars, CharClass::Exactly(indent_char))
}

/// The length of the run of empty lines once `line` has been read: one
/// more than before on an empty line, zero on any other.
pub open spec fn next_blank_run(line: Seq<char>, blank_run: nat) -> nat {
    if line.len() == 0 {
        blank_run + 1
    } else {
        0
    }
}

/// Carries the count of consecutive empty lines over `line`.
pub fn increment_blank_lines(line: &str, blank_lines: &usize) -> (run: usize)
    requires
        line@.len() == 0 ==> *blank_lines < usize::MAX,
    ensures
        run == next_blank_run(line@, *blank_lines as nat),
{
    if line.is_empty() {
        *blank_lines + 1
    } else {
        0
    }
}

/// Whether the line before opens a decorator.
pub open spec fn follows_decorator(previous_line: Seq<char>) -> bool {
    previous_line.len() > 0 && previous_line[0] == '@'
}

/// What the blank-line rule reports: `E304` after a decorator whatever the
/// count, else `E303` with the count once more than two blank lines came
/// before.
pub open spec fn blank_lines_finding(previous_line: Seq<char>, blank_run: nat) -> Option<
    Diagnostic,
> {
    if follows_decorator(previous_line) {
        Some(at_start(E304@))
    } else if blank_run > 2 {
        Some(at_start(E303@ + decimal(blank_run)))
    } else {
        None
    }
}

/// Checks the blank lines before a line and whether it follows a
/// decorator.
pub fn blank_lines(
    _line: &str,
    _line_number: usize,
    previous_line: &str,
    num_blank_lines: usize,
) -> (r: Option<Error>)
    ensures
        finding(r) == blank_lines_finding(previous_line@, num_blank_lines as nat),
{
    let previous = chars_of(previous_line);
    if previous.len() > 0 && previous[0] == '@' {
        Some(report(0, E304))
    } else if num_blank_lines > 2 {
        let mut message = String::from_str(E303);
        let count = decimal_text(num_blank_lines);
        message.append(count.as_str());
        Some(Error { column_number: 0, error_message: message })
    } else {
        None
    }
}

/// After a decorator `E304` is reported at column 0, however many blank
/// lines were counted.
pub proof fn decorator_overrides_blank_count(previous_line: Seq<char>, blank_run: nat)
    requires
        follows_decorator(previous_line),
    ensures
        blank_lines_finding(previous_line, blank_run) == Some(at_start(E304@)),
{
}

/// Away from a decorator, `E303` is reported exactly when more than two
/// blank lines were counted, and its message ends with the count.
pub proof fn blank_count_threshold(previous_line: Seq<char>, blank_run: nat)
    requires
        !follows_decorator(previous_line),
    ensures
        blank_run <= 2 ==> blank_lines_finding(previous_line, blank_run) is None,
        blank_run > 2 ==> blank_lines_finding(previous_line, blank_run) == Some(
            at_start(E303@ + decimal(blank_run)),
        ),
{
}

/// Whether the first character of `line` after its leading white space is
/// `#`.
pub open spec fn is_comment(line: Seq<char>) -> bool {
    let k = prefix_len(line, CharClass::WhiteSpace) as int;
    k < line.len() && line[k] == '#'
}

/// Whether the last character of `previous_line` before its trailing white
/// space is `:`, which opens a block.
pub open spec fn expects_indent(previous_line: Seq<char>) -> bool {
    let n = trimmed_len(previous_line, CharClass::WhiteSpace) as int;
    n > 0 && previous_line[n - 1] == ':'
}

/// What the rule on the width of indentation reports: `E111`, or `E114`
/// on a comment line, where the indent level is no multiple of four.
pub open spec fn indent_width_finding(line: Seq<char>, indent_level: nat) -> Option<Diagnostic> {
    if indent_level % 4 != 0 {
        Some(
            at_start(
                if is_comment(line) {
                    E114@
                } else {
                    E111@
                },
            ),
        )
    } else {
        None
    }
}

/// What the rule on the depth of indentation reports. After a line that
/// opens a block, a line that is indented no deeper: `E112`, or `E115`
/// on a comment line. After any other line, a line that is indented
/// deeper: `E113`, or `E116` on a comment line.
pub open spec fn indent_depth_finding(
    line: Seq<char>,
    previous_line: Seq<char>,
    indent_level: nat,
    previous_indent_level: nat,
) -> Option<Diagnostic> {
    let comment = is_comment(line);
    if expects_indent(previous_line) && indent_level <= previous_indent_level {
        Some(
            at_start(
                if comment {
                    E115@
                } else {
                    E112@
                },
            ),
        )
    } else if !expects_indent(previous_line) && indent_level > previous_indent_level {
        Some(
            at_start(
                if comment {
                    E116@
                } else {
                    E113@
                },
            ),
        )
    } else {
        None
    }
}

/// What is reported of the indentation of a line: what the rule on the
/// width finds, then what the rule on the depth finds. Each has its own
/// entry, so both may be reported of one line.
pub open spec fn indentation_findings(
    line: Seq<char>,
    previous_line: Seq<char>,
    indent_level: nat,
    previous_indent_level: nat,
) -> Seq<Option<Diagnostic>> {
    seq![
        indent_width_finding(line, indent_level),
        indent_depth_finding(line, previous_line, indent_level, previous_indent_level),
    ]
}

fn comment_line(line: &str) -> (b: bool)
    ensures
        b == is_comment(line@),
{
    let chars = chars_of(line);
    let first = leading_len(&chars, CharClass::WhiteSpace);
    first < chars.len() && chars[first] == '#'
}

fn opens_block(previous_line: &str) -> (b: bool)
    ensures
        b == expects_indent(previous_line@),
{
    let previous = chars_of(previous_line);
    let end = trailing_cut(&previous, CharClass::WhiteSpace);
    end > 0 && previous[end - 1] == ':'
}

/// Checks that a line is indented in steps of four.
pub fn indentation_width(line: &str, indent_level: usize) -> (r: Option<Error>)
    ensures
        finding(r) == indent_width_finding(line@, indent_level as nat),
{
    if indent_level % 4 != 0 {
        if comment_line(line) {
            Some(report(0, E114))
        } else {
            Some(report(0, E111))
        }
    } else {
        None
    }
}

/// Checks the indent level of a line against that of the line before.
pub fn indentation_depth(
    line: &str,
    previous_line: &str,
    indent_level: usize,
    previous_indent_level: usize,
) -> (r: Option<Error>)
    ensures
        finding(r) == indent_depth_finding(
            line@,
            previous_line@,
            indent_level as nat,
            previous_indent_level as nat,
        ),
{
    let comment = comment_line(line);
    let expected = opens_block(previous_line);
    if expected && indent_level <= previous_indent_level {
        if comment {
            Some(report(0, E115))
        } else {
            Some(report(0, E112))
        }
    } else if !expected && indent_level > previous_indent_level {
        if comment {
            Some(report(0, E116))
        } else {
            Some(report(0, E113))
        }
    } else {
        None
    }
}

/// Checks the indentation of a line: its width in steps of four, then
/// its depth against the line before. The answer has one entry for each
/// of the two rules, in this order.
pub fn indentation(
    line: &str,
    previous_line: &str,
    indent_level: usize,
    previous_indent_level: usize,
) -> (r: Vec<Option<Error>>)
    ensures
        findings(r@) == indentation_findings(
            line@,
            previous_line@,
            indent_level as nat,
            previous_indent_level as nat,
        ),
{
    let mut found: Vec<Option<Error>> = Vec::new();
    found.push(indentation_width(line, indent_level));
    found.push(indentation_depth(line, previous_line, indent_level, previous_indent_level));
    assert(findings(found@) =~= indentation_findings(
        line@,
        previous_line@,
        indent_level as nat,
        previous_indent_level as nat,
    ));
    found
}

/// Under a line that opens a block, a line that is no comment and whose
/// level is a multiple of four gets `E112` and nothing else where it is
/// indented no deeper, and nothing at all where it is indented deeper.
pub proof fn block_must_be_indented(
    line: Seq<char>,
    previous_line: Seq<char>,
    indent_level: nat,
    previous_indent_level: nat,
)
    requires
        expects_indent(previous_line),
        !is_comment(line),
        indent_level % 4 == 0,
    ensures
        indent_level <= previous_indent_level ==> indentation_findings(
            line,
            previous_line,
            indent_level,
            previous_indent_level,
        ) == seq![None, Some(at_start(E112@))],
        indent_level > previous_indent_level ==> indentation_findings(
            line,
            previous_line,
            indent_level,
            previous_indent_level,
        ) == seq![None::<Diagnostic>, None],
{
}

/// A level that is no multiple of four is reported whatever the depth
/// rule finds: the first entry is `E111`, or `E114` on a comment line, and
/// the second is the finding on the depth.
pub proof fn width_and_depth_are_judged_apart(
    line: Seq<char>,
    previous_line: Seq<char>,
    indent_level: nat,
    previous_indent_level: nat,
)
    requires
        indent_level % 4 != 0,
    ensures
        indentation_findings(line, previous_line, indent_level, previous_indent_level)[0] == Some(
            at_start(
                if is_comment(line) {
                    E114@
                } else {
                    E111@
                },
            ),
        ),
        indentation_findings(line, previous_line, indent_level, previous_indent_level)[1]
            == indent_depth_finding(line, previous_line, indent_level, previous_indent_level),
{
}

} // verus!
