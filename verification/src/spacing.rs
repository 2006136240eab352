//! Detectors for white space around brackets, keywords, operators and
//! separators, and for the style of import statements.

use vstd::prelude::*;
use crate::diagnostic::{finding, findings, report, Diagnostic, Error};
use crate::pattern::{find_occurrences, occurrences, Pattern};
use crate::text::{
    chars_of,
    find,
    find_char,
    first_occurrence,
    index_in,
    matches_at,
    occurs_at,
};

verus! {

/// What `E201` says before the bracket.
pub const E201: &'static str = "E201 whitespace after ";

pub const E202: &'static str = "E202";

pub const E203: &'static str = "E203";

/// What `E202` and `E203` say between the code and the symbol.
pub const BEFORE: &'static str = " whitespace before ";

pub const E221: &'static str = "E221 multiple spaces before operator";

pub const E222: &'static str = "E222 multiple spaces after operator";

pub const E223: &'static str = "E223 tab before operator";

pub const E224: &'static str = "E224 tab after operator";

/// What `E241` says before the separator.
pub const E241: &'static str = "E241 multiple spaces after ";

/// What `E242` says before the separator.
pub const E242: &'static str = "E242 tab after ";

pub const E271: &'static str = "E271 multiple spaces after keyword";

pub const E272: &'static str = "E272 multiple spaces before keyword";

pub const E273: &'static str = "E273 tab after keyword";

pub const E274: &'static str = "E274 tab before keyword";

/// A bracket that opens.
pub open spec fn is_opening(c: char) -> bool {
    c == '(' || c == '[' || c == '{'
}

/// A bracket that closes.
pub open spec fn is_closing(c: char) -> bool {
    c == ')' || c == ']' || c == '}'
}

/// A comma, a semicolon or a colon.
pub open spec fn is_separator(c: char) -> bool {
    c == ',' || c == ';' || c == ':'
}

/// Brackets and separators: the characters that a message may name.
pub open spec fn is_symbol(c: char) -> bool {
    is_opening(c) || is_closing(c) || is_separator(c)
}

fn opening(c: char) -> (b: bool)
    ensures
        b == is_opening(c),
{
    c == '(' || c == '[' || c == '{'
}

fn closing(c: char) -> (b: bool)
    ensures
        b == is_closing(c),
{
    c == ')' || c == ']' || c == '}'
}

fn separator(c: char) -> (b: bool)
    ensures
        b == is_separator(c),
{
    c == ',' || c == ';' || c == ':'
}

fn symbol_text(c: char) -> (s: &'static str)
    requires
        is_symbol(c),
    ensures
        s@ == seq![c],
{
    proof {
        reveal_strlit("(");
        reveal_strlit("[");
        reveal_strlit("{");
        reveal_strlit(")");
        reveal_strlit("]");
        reveal_strlit("}");
        reveal_strlit(",");
        reveal_strlit(";");
        reveal_strlit(":");
    }
    let s = if c == '(' {
        "("
    } else if c == '[' {
        "["
    } else if c == '{' {
        "{"
    } else if c == ')' {
        ")"
    } else if c == ']' {
        "]"
    } else if c == '}' {
        "}"
    } else if c == ',' {
        ","
    } else if c == ';' {
        ";"
    } else {
        ":"
    };
    assert(s@ =~= seq![c]);
    s
}

/// The code for a space before `symbol`: `E202` before a bracket that
/// closes, `E203` before anything else.
pub open spec fn extraneous_code(symbol: char) -> Seq<char> {
    if is_closing(symbol) {
        E202@
    } else {
        E203@
    }
}

/// Picks the code for a space before `symbol`.
pub fn determine_extraneous_whitespace_error_code(symbol: char) -> (code: &'static str)
    ensures
        code@ == extraneous_code(symbol),
{
    if symbol == '}' || symbol == ']' || symbol == ')' {
        E202
    } else {
        E203
    }
}

/// A single finding.
pub open spec fn one(column: int, message: Seq<char>) -> Seq<Option<Diagnostic>> {
    seq![Some(Diagnostic { column: column as nat, message })]
}

/// What a match of the bracket pattern amounts to. A bracket that opens
/// and a space: `E201`. A space and then a bracket that closes (`E202`)
/// or a separator (`E203`), unless a comma stands just before the space.
/// The column is that of the match's second character.
pub open spec fn bracket_findings(line: Seq<char>, span: (usize, usize)) -> Seq<
    Option<Diagnostic>,
> {
    let start = span.0 as int;
    if span.1 == start + 2 && span.1 <= line.len() {
        let first = line[start];
        let second = line[start + 1];
        if is_opening(first) && second == ' ' {
            one(start + 1, E201@ + seq![first])
        } else if first == ' ' && (is_closing(second) || is_separator(second)) && !(start > 0
            && line[start - 1] == ',') {
            one(start + 1, extraneous_code(second) + BEFORE@ + seq![second])
        } else {
            Seq::empty()
        }
    } else {
        Seq::empty()
    }
}

/// White space wider than one space.
pub enum Wide {
    /// A tab.
    Tab,
    /// Two spaces.
    Spaces,
}

/// The wide white space that a match opens with at column `start`: a tab
/// there, or a space there and at the next column.
pub open spec fn wide_from(line: Seq<char>, start: int) -> Option<Wide> {
    if 0 <= start < line.len() && line[start] == '\t' {
        Some(Wide::Tab)
    } else if 0 <= start && start + 1 < line.len() && line[start] == ' ' && line[start + 1]
        == ' ' {
        Some(Wide::Spaces)
    } else {
        None
    }
}

/// The wide white space that a match closes with before column `end`: a
/// tab just before, or a space at both columns before.
pub open spec fn wide_until(line: Seq<char>, end: int) -> Option<Wide> {
    if 1 <= end <= line.len() && line[end - 1] == '\t' {
        Some(Wide::Tab)
    } else if 2 <= end <= line.len() && line[end - 1] == ' ' && line[end - 2] == ' ' {
        Some(Wide::Spaces)
    } else {
        None
    }
}

/// What a match of the keyword pattern amounts to: `E274` or `E272` at
/// its start for wide space before the word, then `E273` or `E271` at its
/// end for wide space after.
pub open spec fn keyword_findings(line: Seq<char>, span: (usize, usize)) -> Seq<
    Option<Diagnostic>,
> {
    let start = span.0 as int;
    let end = span.1 as int;
    let before = match wide_from(line, start) {
        Some(Wide::Tab) => one(start, E274@),
        Some(Wide::Spaces) => one(start, E272@),
        None => Seq::empty(),
    };
    let after = match wide_until(line, end) {
        Some(Wide::Tab) => one(end, E273@),
        Some(Wide::Spaces) => one(end, E271@),
        None => Seq::empty(),
    };
    before + after
}

/// What a match of the operator pattern amounts to: `E223` or `E221` at
/// its start for wide space before the operator, then `E224` at the tab
/// or `E222` at the first of the two spaces that it ends with.
pub open spec fn operator_findings(line: Seq<char>, span: (usize, usize)) -> Seq<
    Option<Diagnostic>,
> {
    let start = span.0 as int;
    let end = span.1 as int;
    let before = match wide_from(line, start) {
        Some(Wide::Tab) => one(start, E223@),
        Some(Wide::Spaces) => one(start, E221@),
        None => Seq::empty(),
    };
    let after = match wide_until(line, end) {
        Some(Wide::Tab) => one(end - 1, E224@),
        Some(Wide::Spaces) => one(end - 2, E222@),
        None => Seq::empty(),
    };
    before + after
}

/// What a match of the separator pattern amounts to: `E242` where it
/// holds a tab, else `E241`, at the column after the separator that it
/// starts with.
pub open spec fn separator_findings(line: Seq<char>, span: (usize, usize)) -> Seq<
    Option<Diagnostic>,
> {
    let start = span.0 as int;
    let end = span.1 as int;
    if start < end <= line.len() && is_separator(line[start]) {
        if index_in(line, '\t', start, end) is Some {
            one(start + 1, E242@ + seq![line[start]])
        } else {
            one(start + 1, E241@ + seq![line[start]])
        }
    } else {
        Seq::empty()
    }
}

/// What one match of `pattern` at `span` amounts to.
pub open spec fn span_findings(pattern: Pattern, line: Seq<char>, span: (usize, usize)) -> Seq<
    Option<Diagnostic>,
> {
    match pattern {
        Pattern::Bracket => bracket_findings(line, span),
        Pattern::Keyword => keyword_findings(line, span),
        Pattern::Operator => operator_findings(line, span),
        Pattern::Separator => separator_findings(line, span),
    }
}

/// What the matches of `pattern` at `spans` amount to, taken in order.
pub open spec fn pattern_findings(
    pattern: Pattern,
    line: Seq<char>,
    spans: Seq<(usize, usize)>,
) -> Seq<Option<Diagnostic>>
    decreases spans.len(),
{
    if spans.len() == 0 {
        Seq::empty()
    } else {
        pattern_findings(pattern, line, spans.drop_last()) + span_findings(
            pattern,
            line,
            spans.last(),
        )
    }
}

fn note(out: &mut Vec<Option<Error>>, column: usize, message: String)
    ensures
        findings(final(out)@) == findings(old(out)@) + one(column as int, message@),
{
    out.push(Some(Error { column_number: column, error_message: message }));
    assert(findings(out@) =~= findings(old(out)@) + one(column as int, message@));
}

fn note_fixed(out: &mut Vec<Option<Error>>, column: usize, message: &str)
    ensures
        findings(final(out)@) == findings(old(out)@) + one(column as int, message@),
{
    note(out, column, String::from_str(message));
}

fn note_naming(out: &mut Vec<Option<Error>>, column: usize, opening: &str, symbol: char)
    requires
        is_symbol(symbol),
    ensures
        findings(final(out)@) == findings(old(out)@) + one(
            column as int,
            opening@ + seq![symbol],
        ),
{
    let mut message = String::from_str(opening);
    message.append(symbol_text(symbol));
    note(out, column, message);
}

fn classify_bracket(chars: &Vec<char>, span: (usize, usize), out: &mut Vec<Option<Error>>)
    ensures
        findings(final(out)@) == findings(old(out)@) + bracket_findings(chars@, span),
{
    let start = span.0;
    let fits = span.1 <= chars.len() && start <= span.1 && span.1 - start == 2;
    if fits && opening(chars[start]) && chars[start + 1] == ' ' {
        note_naming(out, start + 1, E201, chars[start]);
    } else if fits && chars[start] == ' ' && (closing(chars[start + 1]) || separator(
        chars[start + 1],
    )) && !(start > 0 && chars[start - 1] == ',') {
        let symbol = chars[start + 1];
        let mut message = String::from_str(determine_extraneous_whitespace_error_code(symbol));
        message.append(BEFORE);
        message.append(symbol_text(symbol));
        note(out, start + 1, message);
    } else {
        assert(findings(out@) =~= findings(old(out)@) + bracket_findings(chars@, span));
    }
}

fn wide_start(chars: &Vec<char>, start: usize) -> (w: Option<Wide>)
    ensures
        w == wide_from(chars@, start as int),
{
    if start < chars.len() && chars[start] == '\t' {
        Some(Wide::Tab)
    } else if start < chars.len() && chars.len() - start > 1 && chars[start] == ' ' && chars[start
        + 1] == ' ' {
        Some(Wide::Spaces)
    } else {
        None
    }
}

fn wide_end(chars: &Vec<char>, end: usize) -> (w: Option<Wide>)
    ensures
        w == wide_until(chars@, end as int),
{
    if 1 <= end && end <= chars.len() && chars[end - 1] == '\t' {
        Some(Wide::Tab)
    } else if 2 <= end && end <= chars.len() && chars[end - 1] == ' ' && chars[end - 2] == ' ' {
        Some(Wide::Spaces)
    } else {
        None
    }
}

fn classify_keyword(chars: &Vec<char>, span: (usize, usize), out: &mut Vec<Option<Error>>)
    ensures
        findings(final(out)@) == findings(old(out)@) + keyword_findings(chars@, span),
{
    let ghost before = findings(out@);
    match wide_start(chars, span.0) {
        Some(Wide::Tab) => note_fixed(out, span.0, E274),
        Some(Wide::Spaces) => note_fixed(out, span.0, E272),
        None => {},
    }
    match wide_end(chars, span.1) {
        Some(Wide::Tab) => note_fixed(out, span.1, E273),
        Some(Wide::Spaces) => note_fixed(out, span.1, E271),
        None => {},
    }
    assert(findings(out@) =~= before + keyword_findings(chars@, span));
}

fn classify_operator(chars: &Vec<char>, span: (usize, usize), out: &mut Vec<Option<Error>>)
    ensures
        findings(final(out)@) == findings(old(out)@) + operator_findings(chars@, span),
{
    let ghost before = findings(out@);
    match wide_start(chars, span.0) {
        Some(Wide::Tab) => note_fixed(out, span.0, E223),
        Some(Wide::Spaces) => note_fixed(out, span.0, E221),
        None => {},
    }
    match wide_end(chars, span.1) {
        Some(Wide::Tab) => note_fixed(out, span.1 - 1, E224),
        Some(Wide::Spaces) => note_fixed(out, span.1 - 2, E222),
        None => {},
    }
    assert(findings(out@) =~= before + operator_findings(chars@, span));
}

fn classify_separator(chars: &Vec<char>, span: (usize, usize), out: &mut Vec<Option<Error>>)
    ensures
        findings(final(out)@) == findings(old(out)@) + separator_findings(chars@, span),
{
    let start = span.0;
    let end = span.1;
    if start < end && end <= chars.len() && separator(chars[start]) {
        match find_char(chars, '\t', start, end) {
            Some(_) => note_naming(out, start + 1, E242, chars[start]),
            None => note_naming(out, start + 1, E241, chars[start]),
        }
    } else {
        assert(findings(out@) =~= findings(old(out)@) + separator_findings(chars@, span));
    }
}

/// Turns the matches of `pattern` in `line`, given by the columns at
/// which each starts and ends, into findings.
pub fn classify(pattern: Pattern, line: &str, spans: &Vec<(usize, usize)>) -> (r: Vec<
    Option<Error>,
>)
    ensures
        findings(r@) == pattern_findings(pattern, line@, spans@),
{
    let chars = chars_of(line);
    let mut out: Vec<Option<Error>> = Vec::new();
    let mut i: usize = 0;
    assert(findings(out@) =~= Seq::empty());
    while i < spans.len()
        invariant
            i <= spans.len(),
            chars@ == line@,
            findings(out@) == pattern_findings(pattern, line@, spans@.take(i as int)),
        decreases spans.len() - i,
    {
        let span = spans[i];
        proof {
            let now = spans@.take(i + 1);
            assert(now.drop_last() =~= spans@.take(i as int));
            assert(now.last() == span);
        }
        match pattern {
            Pattern::Bracket => classify_bracket(&chars, span, &mut out),
            Pattern::Keyword => classify_keyword(&chars, span, &mut out),
            Pattern::Operator => classify_operator(&chars, span, &mut out),
            Pattern::Separator => classify_separator(&chars, span, &mut out),
        }
        i += 1;
    }
    assert(spans@.take(spans.len() as int) =~= spans@);
    out
}

/// Searches `line` for `pattern` and turns the matches into findings.
pub fn scan(pattern: Pattern, line: &str) -> (r: Vec<Option<Error>>)
    ensures
        findings(r@) == pattern_findings(pattern, line@, occurrences(pattern, line@)),
{
    let spans = find_occurrences(pattern, line);
    classify(pattern, line, &spans)
}

/// Reports a space just inside a bracket, or just before a bracket that
/// closes or a separator.
pub fn extraneous_whitespace(line: &str) -> (r: Vec<Option<Error>>)
    ensures
        findings(r@) == pattern_findings(
            Pattern::Bracket,
            line@,
            occurrences(Pattern::Bracket, line@),
        ),
{
    scan(Pattern::Bracket, line)
}

/// Reports a tab or several spaces before or after a reserved word.
pub fn whitespace_around_keywords(line: &str) -> (r: Vec<Option<Error>>)
    ensures
        findings(r@) == pattern_findings(
            Pattern::Keyword,
            line@,
            occurrences(Pattern::Keyword, line@),
        ),
{
    scan(Pattern::Keyword, line)
}

/// Reports a tab or several spaces before or after an operator.
pub fn whitespace_around_operator(line: &str) -> (r: Vec<Option<Error>>)
    ensures
        findings(r@) == pattern_findings(
            Pattern::Operator,
            line@,
            occurrences(Pattern::Operator, line@),
        ),
{
    scan(Pattern::Operator, line)
}

/// Reports a tab or several spaces after a comma, semicolon or colon.
pub fn whitespace_around_comma(line: &str) -> (r: Vec<Option<Error>>)
    ensures
        findings(r@) == pattern_findings(
            Pattern::Separator,
            line@,
            occurrences(Pattern::Separator, line@),
        ),
{
    scan(Pattern::Separator, line)
}

/// What `E231` says before the separator.
pub const E231: &'static str = "E231 missing whitespace after ";

pub const E275: &'static str = "E275: missing whitespace after keyword import";

pub const E401: &'static str = "E401 multiple imports on one line";

/// How a line starts that imports names out of a module.
pub const FROM: &'static str = "from ";

/// How a line starts that imports modules.
pub const IMPORT: &'static str = "import ";

/// The keyword `import` with a parenthesis right behind it.
pub const IMPORT_PAREN: &'static str = " import(";

/// What the rule on `import(` reports: on a line that starts with `from `,
/// `E275` at the parenthesis of the first ` import(`.
pub open spec fn import_paren_finding(line: Seq<char>) -> Option<Diagnostic> {
    if occurs_at(line, FROM@, 0) {
        match first_occurrence(line, IMPORT_PAREN@) {
            Some(k) => Some(
                Diagnostic { column: (k + IMPORT_PAREN@.len() - 1) as nat, message: E275@ },
            ),
            None => None,
        }
    } else {
        None
    }
}

/// Reports a parenthesis that follows `import` without a space.
pub fn missing_whitespace_after_import_keyword(line: &str) -> (r: Option<Error>)
    ensures
        finding(r) == import_paren_finding(line@),
{
    let chars = chars_of(line);
    let from = chars_of(FROM);
    if matches_at(&chars, &from, 0) {
        let indicator = chars_of(IMPORT_PAREN);
        proof {
            reveal_strlit(" import(");
        }
        match find(&chars, &indicator) {
            Some(k) => Some(report(k + indicator.len() - 1, E275)),
            None => None,
        }
    } else {
        None
    }
}

/// What the rule on imports reports: on a line that starts with `import `,
/// `E401` at the first comma, unless a semicolon follows that comma.
pub open spec fn multiple_imports_finding(line: Seq<char>) -> Option<Diagnostic> {
    match index_in(line, ',', 0, line.len() as int) {
        Some(comma) => if occurs_at(line, IMPORT@, 0) && index_in(
            line,
            ';',
            comma,
            line.len() as int,
        ) is None {
            Some(Diagnostic { column: comma as nat, message: E401@ })
        } else {
            None
        },
        None => None,
    }
}

/// Reports several modules imported by one statement.
pub fn imports_on_separate_lines(line: &str) -> (r: Option<Error>)
    ensures
        finding(r) == multiple_imports_finding(line@),
{
    let chars = chars_of(line);
    match find_char(&chars, ',', 0, chars.len()) {
        Some(comma) => {
            let import = chars_of(IMPORT);
            if matches_at(&chars, &import, 0) && find_char(
                &chars,
                ';',
                comma,
                chars.len(),
            ).is_none() {
                Some(report(comma, E401))
            } else {
                None
            }
        },
        None => None,
    }
}

/// How often `c` occurs in `s`.
pub open spec fn count_of(s: Seq<char>, c: char) -> nat
    decreases s.len(),
{
    if s.len() == 0 {
        0
    } else {
        count_of(s.drop_last(), c) + if s.last() == c {
            1nat
        } else {
            0nat
        }
    }
}

/// The greatest index at which `s` holds `c`, or -1 where it holds none.
pub open spec fn last_index_of(s: Seq<char>, c: char) -> int
    decreases s.len(),
{
    if s.len() == 0 {
        -1
    } else if s.last() == c {
        s.len() - 1
    } else {
        last_index_of(s.drop_last(), c)
    }
}

/// Whether what follows `before` stands inside a subscript: more `[` than
/// `]` came before, and the last `[` came after the last `{`.
pub open spec fn in_subscript(before: Seq<char>) -> bool {
    count_of(before, '[') > count_of(before, ']') && last_index_of(before, '{') < last_index_of(
        before,
        '[',
    )
}

/// Whether the separator at `i` lacks the space that should follow it: the
/// next character is neither a space nor a tab, nor is this a colon
/// inside a subscript or a comma before `)`. The last character of a line
/// lacks nothing.
pub open spec fn lacks_space(line: Seq<char>, i: int) -> bool {
    &&& 0 <= i
    &&& i + 1 < line.len()
    &&& is_separator(line[i])
    &&& line[i + 1] != ' '
    &&& line[i + 1] != '\t'
    &&& !(line[i] == ':' && in_subscript(line.take(i)))
    &&& !(line[i] == ',' && line[i + 1] == ')')
}

/// `E231` at each of the first `n` columns whose separator lacks its
/// space, from left to right.
pub open spec fn missing_whitespace_before(line: Seq<char>, n: nat) -> Seq<Option<Diagnostic>>
    decreases n,
{
    if n == 0 {
        Seq::empty()
    } else {
        let i = (n - 1) as int;
        missing_whitespace_before(line, i as nat) + if lacks_space(line, i) {
            one(i, E231@ + seq![line[i]])
        } else {
            Seq::empty()
        }
    }
}

/// Reports each comma, semicolon and colon that no space follows.
pub fn missing_whitespace(line: &str) -> (r: Vec<Option<Error>>)
    ensures
        findings(r@) == missing_whitespace_before(line@, line@.len()),
{
    let chars = chars_of(line);
    let mut out: Vec<Option<Error>> = Vec::new();
    let mut opened: usize = 0;
    let mut closed: usize = 0;
    let mut last_brace: Option<usize> = None;
    let mut last_bracket: Option<usize> = None;
    let mut i: usize = 0;
    assert(findings(out@) =~= Seq::empty());
    assert(chars@.take(0) =~= Seq::<char>::empty());
    while i < chars.len()
        invariant
            i <= chars.len(),
            chars@ == line@,
            opened == count_of(line@.take(i as int), '['),
            closed == count_of(line@.take(i as int), ']'),
            opened <= i,
            closed <= i,
            match last_brace {
                Some(k) => k == last_index_of(line@.take(i as int), '{'),
                None => last_index_of(line@.take(i as int), '{') == -1,
            },
            match last_bracket {
                Some(k) => k == last_index_of(line@.take(i as int), '['),
                None => last_index_of(line@.take(i as int), '[') == -1,
            },
            findings(out@) == missing_whitespace_before(line@, i as nat),
        decreases chars.len() - i,
    {
        let c = chars[i];
        if separator(c) && chars.len() - i > 1 {
            let next = chars[i + 1];
            let subscript = opened > closed && match last_bracket {
                Some(k) => match last_brace {
                    Some(j) => j < k,
                    None => true,
                },
                None => false,
            };
            if next != ' ' && next != '\t' && !(c == ':' && subscript) && !(c == ',' && next
                == ')') {
                note_naming(&mut out, i, E231, c);
            }
        }
        proof {
            let now = line@.take(i + 1);
            assert(now.drop_last() =~= line@.take(i as int));
            assert(now.last() == c);
        }
        if c == '[' {
            opened += 1;
            last_bracket = Some(i);
        } else if c == ']' {
            closed += 1;
        } else if c == '{' {
            last_brace = Some(i);
        }
        assert(findings(out@) =~= missing_whitespace_before(line@, (i + 1) as nat));
        i += 1;
    }
    out
}

} // verus!
