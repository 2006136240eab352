//! A line-oriented style checker for Python source text.
//!
//! Every detector takes one physical line (and, where needed, a little
//! context about the lines before it) and yields diagnostics: a column in
//! Unicode scalar values and a message that opens with the rule's code.

pub mod context;
pub mod diagnostic;
pub mod engine;
pub mod pattern;
pub mod physical;
pub mod source;
pub mod spacing;
pub mod text;

pub use crate::context::{
    blank_lines, calculate_indent_level, increment_blank_lines, indentation, indentation_depth,
    indentation_width,
};
pub use crate::diagnostic::{decimal_text, report, Error};
pub use crate::engine::{
    checker, report_line, report_lines, reporting, INDENT_CHAR, MAX_LINE_LENGTH,
};
pub use crate::pattern::{
    column_of, encoded_width, find_occurrences, get_keywords, keyword_pattern_text, Pattern,
};
pub use crate::physical::{
    maximum_line_length, tabs_obsolete, tabs_or_spaces, trailing_blank_lines, trailing_whitespace,
};
pub use crate::source::{check_lines, LineContext};
pub use crate::text::{
    chars_of, find, find_char, leading_len, matches_at, trailing_cut, white_space, CharClass,
};
pub use crate::spacing::{
    classify, determine_extraneous_whitespace_error_code, extraneous_whitespace,
    imports_on_separate_lines, missing_whitespace, missing_whitespace_after_import_keyword,
    whitespace_around_comma, whitespace_around_keywords, whitespace_around_operator,
};
