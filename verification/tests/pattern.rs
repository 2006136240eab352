use rpycodestyle::{
    chars_of, column_of, encoded_width, find_occurrences, keyword_pattern_text, Pattern,
};

#[test]
fn patterns_are_written_as_regular_expressions() {
    assert_eq!(Pattern::Bracket.source_text(), r"[\[\(\{] | [\]\}\),;:]");
    assert_eq!(Pattern::Operator.source_text(), r"(\s*)(?:[-+*/|!<=>%&^]+)(\s*)");
    assert_eq!(Pattern::Separator.source_text(), r"[,;:]\s*(?:  |\t)");
    assert_eq!(Pattern::Keyword.source_text(), keyword_pattern_text());
}

#[test]
fn keyword_pattern_lists_every_word_between_boundaries() {
    assert_eq!(
        keyword_pattern_text(),
        r"(\s*)\b(?:and|as|assert|break|class|continue|def|del|elif|else|except|finally|for|from|global|if|import|in|is|lambda|nonlocal|not|or|pass|raise|return|try|while|with|yield|print)\b(\s*)"
    );
}

#[test]
fn width_of_a_character_in_utf8() {
    assert_eq!(encoded_width('a'), 1);
    assert_eq!(encoded_width('\u{7f}'), 1);
    assert_eq!(encoded_width('\u{80}'), 2);
    assert_eq!(encoded_width('\u{7ff}'), 2);
    assert_eq!(encoded_width('\u{800}'), 3);
    assert_eq!(encoded_width('\u{ffff}'), 3);
    assert_eq!(encoded_width('\u{10000}'), 4);
    assert_eq!(encoded_width('\u{10ffff}'), 4);
    for c in ['a', '\u{e9}', '\u{20ac}', '\u{1f600}'] {
        assert_eq!(encoded_width(c), c.len_utf8());
    }
}

#[test]
fn column_of_a_byte_offset() {
    let text = "a\u{e9}\u{20ac}\u{1f600}b";
    let chars = chars_of(text);
    assert_eq!(chars.len(), 5);
    assert_eq!(column_of(&chars, 0), 0);
    assert_eq!(column_of(&chars, 1), 1);
    assert_eq!(column_of(&chars, 3), 2);
    assert_eq!(column_of(&chars, 6), 3);
    assert_eq!(column_of(&chars, 10), 4);
    assert_eq!(column_of(&chars, 11), 5);
    for (column, (offset, _)) in text.char_indices().enumerate() {
        assert_eq!(column_of(&chars, offset), column);
    }
}

#[test]
fn column_of_an_offset_inside_a_character_or_past_the_end() {
    let chars = chars_of("a\u{e9}b");
    assert_eq!(column_of(&chars, 2), 2);
    assert_eq!(column_of(&chars, 4), 3);
    assert_eq!(column_of(&chars, 400), 3);
    assert_eq!(column_of(&chars, usize::MAX), 3);
    assert_eq!(column_of(&chars_of(""), 0), 0);
    assert_eq!(column_of(&chars_of(""), 5), 0);
}

#[test]
fn occurrences_are_found_from_left_to_right() {
    assert_eq!(find_occurrences(Pattern::Operator, "a = 4  + 5"), vec![(1, 4), (5, 9)]);
    assert_eq!(find_occurrences(Pattern::Bracket, "x[ 1 ] ; y"), vec![(1, 3), (4, 6), (6, 8)]);
    assert_eq!(find_occurrences(Pattern::Separator, "(1,  2,\t3)"), vec![(2, 5), (6, 8)]);
    assert_eq!(find_occurrences(Pattern::Keyword, "x  if y  else z"), vec![(1, 6), (7, 14)]);
}

#[test]
fn occurrences_are_given_in_columns() {
    assert_eq!(find_occurrences(Pattern::Operator, "\u{e9}\u{20ac} +  \u{1f600}"), vec![(2, 6)]);
    assert_eq!(find_occurrences(Pattern::Keyword, "\u{1f600} and\t\u{20ac}"), vec![(1, 6)]);
}

#[test]
fn no_occurrence_in_an_empty_line() {
    assert_eq!(find_occurrences(Pattern::Bracket, ""), vec![]);
    assert_eq!(find_occurrences(Pattern::Keyword, ""), vec![]);
    assert_eq!(find_occurrences(Pattern::Operator, ""), vec![]);
    assert_eq!(find_occurrences(Pattern::Separator, ""), vec![]);
}

#[test]
fn separator_pattern_ends_at_the_last_wide_space() {
    assert_eq!(find_occurrences(Pattern::Separator, "a,   b"), vec![(1, 5)]);
    assert_eq!(find_occurrences(Pattern::Separator, "a,\t b"), vec![(1, 3)]);
    assert_eq!(find_occurrences(Pattern::Separator, "a, \t b"), vec![(1, 4)]);
}
