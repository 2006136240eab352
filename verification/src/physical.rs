//! Detectors that need nothing but the characters of one line: its
//! length, what it is indented with, and what it ends with.

use vstd::prelude::*;
use crate::diagnostic::{decimal, decimal_text, finding, report, Diagnostic, Error};
use crate::text::{
    chars_of,
    find_char,
    index_in,
    leading_len,
    lemma_index_in,
    lemma_prefix_len_is_run,
    lemma_prefix_len_unique,
    lemma_trimmed_len_is_cut,
    lemma_trimmed_len_unique,
    is_white_space,
    prefix_len,
    trailing_cut,
    trimmed_len,
    CharClass,
};

verus! {

pub const E101: &'static str = "E101 indentation contains mixed spaces and tabs";

/// What `E501` says before the length of the line.
pub const E501: &'static str = "E501 line too long (";

/// What it says between the length and the limit.
pub const E501_OVER: &'static str = " > ";

/// What it ends with.
pub const E501_CLOSE: &'static str = " characters)";

pub const W191: &'static str = "W191 indentation contains tabs";

pub const W291: &'static str = "W291 trailing whitespace";

pub const W292: &'static str = "W292 no newline at end of file";

pub const W293: &'static str = "W293 blank line contains whitespace";

pub const W391: &'static str = "W391 blank line at end of file";

/// The message for a line of `length` characters where `limit` are
/// allowed: the code, then the length and the limit.
pub open spec fn too_long_message(limit: nat, length: nat) -> Seq<char> {
    E501@ + decimal(length) + E501_OVER@ + decimal(limit) + E501_CLOSE@
}

/// What the rule on line length reports: a line of more than
/// `max_line_length` characters is reported at the first column past the
/// limit.
pub open spec fn line_length_finding(line: Seq<char>, max_line_length: nat) -> Option<
    Diagnostic,
> {
    if line.len() > max_line_length {
        Some(
            Diagnostic {
                column: max_line_length,
                message: too_long_message(max_line_length, line.len()),
            },
        )
    } else {
        None
    }
}

/// Reports a line that holds more than `max_line_length` characters.
pub fn maximum_line_length(line: &str, max_line_length: usize) -> (r: Option<Error>)
    ensures
        finding(r) == line_length_finding(line@, max_line_length as nat),
        r is Some <==> line@.len() > max_line_length,
        r matches Some(e) ==> e.column_number == max_line_length,
{
    let length = line.unicode_len();
    if length > max_line_length {
        let limit = decimal_text(max_line_length);
        let actual = decimal_text(length);
        let mut message = String::from_str(E501);
        message.append(actual.as_str());
        message.append(E501_OVER);
        message.append(limit.as_str());
        message.append(E501_CLOSE);
        Some(Error { column_number: max_line_length, error_message: message })
    } else {
        None
    }
}

/// The white space that `line` is indented with: its longest prefix of
/// spaces and tabs.
pub open spec fn indent_of(line: Seq<char>) -> Seq<char> {
    line.take(prefix_len(line, CharClass::Blank) as int)
}

/// What the rule on mixed indentation reports: `E101` at the first
/// character of the indentation that is not `indent_char`.
pub open spec fn mixed_indent_finding(line: Seq<char>, indent_char: char) -> Option<Diagnostic> {
    let own = prefix_len(indent_of(line), CharClass::Exactly(indent_char));
    if own < indent_of(line).len() {
        Some(Diagnostic { column: own, message: E101@ })
    } else {
        None
    }
}

/// Reports indentation that holds another character than `indent_char`.
pub fn tabs_or_spaces(line: &str, indent_char: char) -> (r: Option<Error>)
    ensures
        finding(r) == mixed_indent_finding(line@, indent_char),
{
    let chars = chars_of(line);
    let width = leading_len(&chars, CharClass::Blank);
    let mut i: usize = 0;
    while i < width && chars[i] == indent_char
        invariant
            i <= width <= chars.len(),
            forall|j: int| 0 <= j < i ==> chars@[j] == indent_char,
        decreases width - i,
    {
        i += 1;
    }
    proof {
        let indent = chars@.take(width as int);
        assert forall|j: int| 0 <= j < i implies CharClass::Exactly(indent_char).contains(
            #[trigger] indent[j],
        ) by {
            assert(indent[j] == chars@[j]);
        }
        lemma_prefix_len_unique(indent, CharClass::Exactly(indent_char), i as int);
    }
    if i < width {
        Some(report(i, E101))
    } else {
        None
    }
}

/// Indentation made of `indent_char` alone is not reported.
pub proof fn pure_indent_is_accepted(line: Seq<char>, indent_char: char)
    requires
        forall|i: int| 0 <= i < indent_of(line).len() ==> line[i] == indent_char,
    ensures
        mixed_indent_finding(line, indent_char) is None,
{
    let indent = indent_of(line);
    lemma_prefix_len_is_run(line, CharClass::Blank);
    assert forall|i: int| 0 <= i < indent.len() implies CharClass::Exactly(indent_char).contains(
        #[trigger] indent[i],
    ) by {
        assert(indent[i] == line[i]);
    }
    lemma_prefix_len_unique(indent, CharClass::Exactly(indent_char), indent.len() as int);
}

/// The first character of the indentation that is not `indent_char` is
/// reported as `E101` at its own offset.
pub proof fn foreign_indent_is_reported(line: Seq<char>, indent_char: char, k: int)
    requires
        0 <= k < indent_of(line).len(),
        line[k] != indent_char,
        forall|i: int| 0 <= i < k ==> line[i] == indent_char,
    ensures
        mixed_indent_finding(line, indent_char) == Some(
            Diagnostic { column: k as nat, message: E101@ },
        ),
{
    let indent = indent_of(line);
    lemma_prefix_len_is_run(line, CharClass::Blank);
    assert(indent[k] == line[k]);
    assert forall|i: int| 0 <= i < k implies CharClass::Exactly(indent_char).contains(
        #[trigger] indent[i],
    ) by {
        assert(indent[i] == line[i]);
    }
    lemma_prefix_len_unique(indent, CharClass::Exactly(indent_char), k);
}

/// What the rule on tabs reports: `W191` at the first tab of the
/// indentation.
pub open spec fn tab_indent_finding(line: Seq<char>) -> Option<Diagnostic> {
    match index_in(line, '\t', 0, indent_of(line).len() as int) {
        Some(k) => Some(Diagnostic { column: k as nat, message: W191@ }),
        None => None,
    }
}

/// Reports indentation that holds a tab.
pub fn tabs_obsolete(line: &str) -> (r: Option<Error>)
    ensures
        finding(r) == tab_indent_finding(line@),
{
    let chars = chars_of(line);
    let width = leading_len(&chars, CharClass::Blank);
    match find_char(&chars, '\t', 0, width) {
        Some(k) => Some(report(k, W191)),
        None => None,
    }
}

/// A tab anywhere in the indentation is reported as `W191` at the offset
/// of the first tab, whatever else the indentation is made of.
pub proof fn first_tab_is_reported(line: Seq<char>, k: int)
    requires
        0 <= k < indent_of(line).len(),
        line[k] == '\t',
        forall|i: int| 0 <= i < k ==> line[i] != '\t',
    ensures
        tab_indent_finding(line) == Some(Diagnostic { column: k as nat, message: W191@ }),
{
    lemma_prefix_len_is_run(line, CharClass::Blank);
    lemma_index_in(line, '\t', 0, indent_of(line).len() as int);
}

/// Indentation without a tab is not reported.
pub proof fn tabless_indent_is_accepted(line: Seq<char>)
    requires
        forall|i: int| 0 <= i < indent_of(line).len() ==> line[i] != '\t',
    ensures
        tab_indent_finding(line) is None,
{
    lemma_prefix_len_is_run(line, CharClass::Blank);
    lemma_index_in(line, '\t', 0, indent_of(line).len() as int);
}

/// What the rule on trailing white space reports: nothing where the line
/// ends in none, `W291` at the first trailing one where something stands
/// before it, `W293` at column 0 where the line holds nothing else.
pub open spec fn trailing_whitespace_finding(line: Seq<char>) -> Option<Diagnostic> {
    let kept = trimmed_len(line, CharClass::WhiteSpace);
    if kept == line.len() {
        None
    } else if kept > 0 {
        Some(Diagnostic { column: kept, message: W291@ })
    } else {
        Some(Diagnostic { column: 0, message: W293@ })
    }
}

/// Reports white space at the end of a line.
pub fn trailing_whitespace(line: &str) -> (r: Option<Error>)
    ensures
        finding(r) == trailing_whitespace_finding(line@),
{
    let chars = chars_of(line);
    let kept = trailing_cut(&chars, CharClass::WhiteSpace);
    if kept == chars.len() {
        None
    } else if kept > 0 {
        Some(report(kept, W291))
    } else {
        Some(report(0, W293))
    }
}

/// A line is reported for trailing white space exactly when its last
/// character is white space.
pub proof fn reported_iff_ends_in_white_space(line: Seq<char>)
    ensures
        trailing_whitespace_finding(line) is Some <==> line.len() > 0 && is_white_space(
            line.last(),
        ),
{
    lemma_trimmed_len_is_cut(line, CharClass::WhiteSpace);
    if line.len() > 0 && !is_white_space(line.last()) {
        lemma_trimmed_len_unique(line, CharClass::WhiteSpace, line.len() as int);
    }
}

/// What the rule on the end of the file reports, on the last line only:
/// `W391` at column 0 where the line holds nothing but white space, else
/// `W292` at its end where it ends in no white space.
pub open spec fn end_of_file_finding(line: Seq<char>, line_number: nat, total_lines: nat) -> Option<
    Diagnostic,
> {
    let kept = trimmed_len(line, CharClass::WhiteSpace);
    if line_number != total_lines {
        None
    } else if kept == 0 {
        Some(Diagnostic { column: 0, message: W391@ })
    } else if kept == line.len() {
        Some(Diagnostic { column: line.len(), message: W292@ })
    } else {
        None
    }
}

/// Reports a blank last line, or a last line without a line end.
pub fn trailing_blank_lines(line: &str, line_number: usize, total_lines: usize) -> (r: Option<
    Error,
>)
    ensures
        finding(r) == end_of_file_finding(line@, line_number as nat, total_lines as nat),
{
    if line_number == total_lines {
        let chars = chars_of(line);
        let kept = trailing_cut(&chars, CharClass::WhiteSpace);
        if kept == 0 {
            return Some(report(0, W391));
        }
        if kept == chars.len() {
            return Some(report(kept, W292));
        }
        return None;
    }
    None
}

} // verus!
