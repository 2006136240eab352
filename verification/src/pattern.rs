//! The four small grammars that the spacing detectors search a line for,
//! and the search itself, which the `regex` crate carries out.

use vstd::prelude::*;
use vstd::utf8::{char_is_scalar, encode_scalar, encode_utf8};
use crate::text::chars_of;

verus! {

/// Reserved words of Python, with `print` and without `True`, `False`
/// and `None`.
pub open spec fn keywords() -> Seq<&'static str> {
    seq![
        "and",
        "as",
        "assert",
        "break",
        "class",
        "continue",
        "def",
        "del",
        "elif",
        "else",
        "except",
        "finally",
        "for",
        "from",
        "global",
        "if",
        "import",
        "in",
        "is",
        "lambda",
        "nonlocal",
        "not",
        "or",
        "pass",
        "raise",
        "return",
        "try",
        "while",
        "with",
        "yield",
        "print",
    ]
}

/// The reserved words around which spacing is checked.
pub fn get_keywords() -> (words: Vec<&'static str>)
    ensures
        words@ == keywords(),
{
    let words = vec![
        "and",
        "as",
        "assert",
        "break",
        "class",
        "continue",
        "def",
        "del",
        "elif",
        "else",
        "except",
        "finally",
        "for",
        "from",
        "global",
        "if",
        "import",
        "in",
        "is",
        "lambda",
        "nonlocal",
        "not",
        "or",
        "pass",
        "raise",
        "return",
        "try",
        "while",
        "with",
        "yield",
        "print",
    ];
    assert(words@ =~= keywords());
    words
}

/// A bracket that opens followed by a space, or a space followed by a
/// bracket that closes or by a separator.
pub const BRACKET_PATTERN: &'static str = "[\\[\\(\\{] | [\\]\\}\\),;:]";

/// A run of operator characters with the white space on both sides.
pub const OPERATOR_PATTERN: &'static str = "(\\s*)(?:[-+*/|!<=>%&^]+)(\\s*)";

/// A separator followed by white space that ends in two spaces or a tab.
pub const SEPARATOR_PATTERN: &'static str = "[,;:]\\s*(?:  |\\t)";

/// What the keyword pattern holds before the alternatives.
pub const KEYWORD_OPEN: &'static str = "(\\s*)\\b(?:";

/// What the keyword pattern holds after the alternatives.
pub const KEYWORD_CLOSE: &'static str = ")\\b(\\s*)";

/// What stands between two alternatives.
pub const ALTERNATIVE: &'static str = "|";

/// `words` written one after another with `separator` between each two.
pub open spec fn joined(words: Seq<&'static str>, separator: Seq<char>) -> Seq<char>
    decreases words.len(),
{
    if words.len() == 0 {
        Seq::empty()
    } else if words.len() == 1 {
        words[0]@
    } else {
        joined(words.drop_last(), separator) + separator + words.last()@
    }
}

/// Any reserved word between word boundaries, with the white space on
/// both sides.
pub open spec fn keyword_pattern() -> Seq<char> {
    KEYWORD_OPEN@ + joined(keywords(), ALTERNATIVE@) + KEYWORD_CLOSE@
}

/// Writes the keyword pattern out.
pub fn keyword_pattern_text() -> (p: String)
    ensures
        p@ == keyword_pattern(),
{
    let words = get_keywords();
    let mut p = String::from_str(KEYWORD_OPEN);
    let mut i: usize = 0;
    while i < words.len()
        invariant
            i <= words.len(),
            p@ == KEYWORD_OPEN@ + joined(words@.take(i as int), ALTERNATIVE@),
        decreases words.len() - i,
    {
        if i > 0 {
            p.append(ALTERNATIVE);
        }
        p.append(words[i]);
        proof {
            let before = words@.take(i as int);
            let now = words@.take(i + 1);
            assert(now.drop_last() =~= before);
            assert(now.last() == words@[i as int]);
            if i == 0 {
                assert(joined(before, ALTERNATIVE@) =~= Seq::<char>::empty());
            }
            assert(p@ =~= KEYWORD_OPEN@ + joined(now, ALTERNATIVE@));
        }
        i += 1;
    }
    assert(words@.take(words.len() as int) =~= words@);
    p.append(KEYWORD_CLOSE);
    p
}

/// The grammars that are searched for in a line.
#[derive(Clone, Copy, Debug)]
pub enum Pattern {
    /// Space just inside a bracket or just before a separator.
    Bracket,
    /// A reserved word and the white space around it.
    Keyword,
    /// An operator and the white space around it.
    Operator,
    /// A separator and the wide white space after it.
    Separator,
}

impl Pattern {
    /// The regular expression that stands for the grammar.
    pub open spec fn source(self) -> Seq<char> {
        match self {
            Pattern::Bracket => BRACKET_PATTERN@,
            Pattern::Keyword => keyword_pattern(),
            Pattern::Operator => OPERATOR_PATTERN@,
            Pattern::Separator => SEPARATOR_PATTERN@,
        }
    }

    /// Writes the regular expression out.
    pub fn source_text(&self) -> (p: String)
        ensures
            p@ == self.source(),
    {
        match self {
            Pattern::Bracket => String::from_str(BRACKET_PATTERN),
            Pattern::Keyword => keyword_pattern_text(),
            Pattern::Operator => String::from_str(OPERATOR_PATTERN),
            Pattern::Separator => String::from_str(SEPARATOR_PATTERN),
        }
    }
}

/// What a search of `text` for the regular expression `pattern` finds:
/// nothing at all where `pattern` is no regular expression that the engine
/// accepts, else for each match, from left to right and without overlap,
/// the byte offsets in the UTF-8 form of `text` at which it starts and
/// ends.
pub uninterp spec fn regex_spans(pattern: Seq<char>, text: Seq<char>) -> Option<
    Seq<(usize, usize)>,
>;

/// Searches `text` for `pattern` with `regex::Regex::new` and
/// `regex::Regex::find_iter`, and hands out `Match::start` and
/// `Match::end` of each match. Nothing is proved of the search: its
/// outcome is only given the name `regex_spans`, on the ground that the
/// engine's answer depends on the two strings alone.
#[verifier::external_body]
fn find_spans(pattern: &str, text: &str) -> (found: Option<Vec<(usize, usize)>>)
    ensures
        match found {
            Some(spans) => regex_spans(pattern@, text@) == Some(spans@),
            None => regex_spans(pattern@, text@) is None,
        },
{
    match regex::Regex::new(pattern) {
        Ok(re) => Some(re.find_iter(text).map(|m| (m.start(), m.end())).collect()),
        Err(_) => None,
    }
}

/// The number of bytes that `c` takes in UTF-8.
pub open spec fn utf8_width(c: char) -> nat {
    let u = c as u32;
    if u < 0x80 {
        1
    } else if u < 0x800 {
        2
    } else if u < 0x10000 {
        3
    } else {
        4
    }
}

/// Computes `utf8_width`.
pub fn encoded_width(c: char) -> (w: usize)
    ensures
        w == utf8_width(c),
{
    let u: u32 = c as u32;
    if u < 0x80 {
        1
    } else if u < 0x800 {
        2
    } else if u < 0x10000 {
        3
    } else {
        4
    }
}

/// The number of characters of `text` that begin before byte `offset` of
/// its UTF-8 form. For an offset at which a character begins, or at the
/// end, this is that character's index.
pub open spec fn chars_before(text: Seq<char>, offset: int) -> nat
    decreases text.len(),
{
    if text.len() == 0 || offset <= 0 {
        0
    } else {
        1 + chars_before(text.drop_first(), offset - utf8_width(text[0]))
    }
}

/// The byte offset at which character `k` of `text` begins in its UTF-8
/// form, or the length of that form for `k` the length of `text`.
pub open spec fn offset_of(text: Seq<char>, k: int) -> nat {
    encode_utf8(text.take(k)).len()
}

/// `utf8_width` is the length of the UTF-8 form of one character.
pub proof fn width_is_encoded_length(c: char)
    ensures
        utf8_width(c) == encode_scalar(c as u32).len(),
{
    char_is_scalar(c);
}

/// The offset at which a character begins is turned into that
/// character's index, and the length of the UTF-8 form into the number
/// of characters.
pub proof fn boundary_is_turned_into_index(text: Seq<char>, k: int)
    requires
        0 <= k <= text.len(),
    ensures
        chars_before(text, offset_of(text, k) as int) == k,
    decreases k,
{
    if k == 0 {
        assert(text.take(0) =~= Seq::<char>::empty());
    } else {
        let rest = text.drop_first();
        width_is_encoded_length(text[0]);
        assert(text.take(k).drop_first() =~= rest.take(k - 1));
        assert(text.take(k)[0] == text[0]);
        boundary_is_turned_into_index(rest, k - 1);
    }
}

/// Turns a byte offset into a column.
pub fn column_of(chars: &Vec<char>, offset: usize) -> (column: usize)
    ensures
        column == chars_before(chars@, offset as int),
        column <= chars.len(),
{
    let mut k: usize = 0;
    let mut left: usize = offset;
    assert(chars@.skip(0) =~= chars@);
    while k < chars.len() && left > 0
        invariant
            k <= chars.len(),
            chars_before(chars@, offset as int) == k + chars_before(
                chars@.skip(k as int),
                left as int,
            ),
        decreases chars.len() - k,
    {
        let w = encoded_width(chars[k]);
        proof {
            let rest = chars@.skip(k as int);
            assert(rest[0] == chars@[k as int]);
            assert(rest.drop_first() =~= chars@.skip(k + 1));
            if w >= left {
                assert(chars_before(rest.drop_first(), left - w) == 0);
            }
        }
        left = if w >= left {
            0
        } else {
            left - w
        };
        k += 1;
    }
    k
}

/// A span of byte offsets as a span of columns.
pub open spec fn column_span(text: Seq<char>, span: (usize, usize)) -> (usize, usize) {
    (chars_before(text, span.0 as int) as usize, chars_before(text, span.1 as int) as usize)
}

/// Spans of byte offsets as spans of columns, one for one.
pub open spec fn column_spans(text: Seq<char>, spans: Seq<(usize, usize)>) -> Seq<(usize, usize)> {
    spans.map_values(|span: (usize, usize)| column_span(text, span))
}

/// Where `pattern` is found in `line`, in columns; nothing where the
/// search could not be made.
pub open spec fn occurrences(pattern: Pattern, line: Seq<char>) -> Seq<(usize, usize)> {
    match regex_spans(pattern.source(), line) {
        Some(spans) => column_spans(line, spans),
        None => Seq::empty(),
    }
}

/// Searches `line` for `pattern` and gives the columns at which each
/// match starts and ends.
pub fn find_occurrences(pattern: Pattern, line: &str) -> (found: Vec<(usize, usize)>)
    ensures
        found@ == occurrences(pattern, line@),
{
    let source = pattern.source_text();
    let mut found: Vec<(usize, usize)> = Vec::new();
    match find_spans(source.as_str(), line) {
        Some(spans) => {
            let chars = chars_of(line);
            let mut i: usize = 0;
            while i < spans.len()
                invariant
                    i <= spans.len(),
                    chars@ == line@,
                    found@ == column_spans(line@, spans@.take(i as int)),
                decreases spans.len() - i,
            {
                let span = spans[i];
                let start = column_of(&chars, span.0);
                let end = column_of(&chars, span.1);
                found.push((start, end));
                assert(found@ =~= column_spans(line@, spans@.take(i + 1)));
                i += 1;
            }
            assert(spans@.take(spans.len() as int) =~= spans@);
        },
        None => {},
    }
    found
}

} // verus!
