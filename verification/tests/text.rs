use rpycodestyle::{
    chars_of, decimal_text, find, find_char, leading_len, matches_at, report, trailing_cut,
    white_space, CharClass, Error,
};

#[test]
fn characters_of_a_string() {
    assert_eq!(chars_of(""), Vec::<char>::new());
    assert_eq!(chars_of("a\u{e9}\u{1f600}"), vec!['a', '\u{e9}', '\u{1f600}']);
}

#[test]
fn white_space_is_what_the_standard_library_calls_so() {
    let mut code: u32 = 0;
    while code <= 0x10ffff {
        if let Some(c) = char::from_u32(code) {
            assert_eq!(white_space(c), c.is_whitespace(), "U+{:04X}", code);
        }
        code += 1;
    }
}

#[test]
fn classes_of_characters() {
    assert!(CharClass::Exactly('x').has('x'));
    assert!(!CharClass::Exactly('x').has('y'));
    assert!(CharClass::Blank.has(' '));
    assert!(CharClass::Blank.has('\t'));
    assert!(!CharClass::Blank.has('\n'));
    assert!(!CharClass::Blank.has('\u{a0}'));
    assert!(CharClass::WhiteSpace.has('\n'));
    assert!(CharClass::WhiteSpace.has('\u{a0}'));
    assert!(!CharClass::WhiteSpace.has('x'));
}

#[test]
fn length_of_the_leading_run() {
    let line = chars_of("  \t x ");
    assert_eq!(leading_len(&line, CharClass::Exactly(' ')), 2);
    assert_eq!(leading_len(&line, CharClass::Blank), 4);
    assert_eq!(leading_len(&line, CharClass::Exactly('\t')), 0);
    assert_eq!(leading_len(&chars_of("   "), CharClass::WhiteSpace), 3);
    assert_eq!(leading_len(&chars_of(""), CharClass::WhiteSpace), 0);
}

#[test]
fn length_without_the_trailing_run() {
    let line = chars_of(" x \t ");
    assert_eq!(trailing_cut(&line, CharClass::Exactly(' ')), 4);
    assert_eq!(trailing_cut(&line, CharClass::Blank), 2);
    assert_eq!(trailing_cut(&line, CharClass::Exactly('x')), 5);
    assert_eq!(trailing_cut(&chars_of("   "), CharClass::WhiteSpace), 0);
    assert_eq!(trailing_cut(&chars_of(""), CharClass::WhiteSpace), 0);
}

#[test]
fn pattern_at_an_offset() {
    let line = chars_of("from x import y");
    assert!(matches_at(&line, &chars_of("from "), 0));
    assert!(!matches_at(&line, &chars_of("from "), 1));
    assert!(matches_at(&line, &chars_of("import"), 7));
    assert!(matches_at(&line, &chars_of("y"), 14));
    assert!(!matches_at(&line, &chars_of("y "), 14));
    assert!(!matches_at(&line, &chars_of("y"), 15));
    assert!(matches_at(&line, &chars_of(""), 15));
    assert!(!matches_at(&line, &chars_of(""), 16));
    assert!(!matches_at(&chars_of("ab"), &chars_of("abc"), 0));
    assert!(!matches_at(&line, &chars_of("y"), usize::MAX));
}

#[test]
fn first_occurrence_of_a_pattern() {
    let line = chars_of("abcabc");
    assert_eq!(find(&line, &chars_of("bc")), Some(1));
    assert_eq!(find(&line, &chars_of("abcabc")), Some(0));
    assert_eq!(find(&line, &chars_of("c")), Some(2));
    assert_eq!(find(&line, &chars_of("cb")), None);
    assert_eq!(find(&line, &chars_of("abcabca")), None);
    assert_eq!(find(&line, &chars_of("")), Some(0));
    assert_eq!(find(&chars_of(""), &chars_of("")), Some(0));
    assert_eq!(find(&chars_of(""), &chars_of("a")), None);
}

#[test]
fn first_index_of_a_character_in_a_range() {
    let line = chars_of("a,b,c;");
    assert_eq!(find_char(&line, ',', 0, 6), Some(1));
    assert_eq!(find_char(&line, ',', 1, 6), Some(1));
    assert_eq!(find_char(&line, ',', 2, 6), Some(3));
    assert_eq!(find_char(&line, ',', 4, 6), None);
    assert_eq!(find_char(&line, ';', 0, 5), None);
    assert_eq!(find_char(&line, ';', 0, 60), Some(5));
    assert_eq!(find_char(&line, 'a', 3, 1), None);
    assert_eq!(find_char(&line, 'a', 9, 12), None);
}

#[test]
fn numbers_are_written_in_decimal() {
    assert_eq!(decimal_text(0), "0");
    assert_eq!(decimal_text(7), "7");
    assert_eq!(decimal_text(10), "10");
    assert_eq!(decimal_text(120), "120");
    assert_eq!(decimal_text(9876543210), "9876543210");
    assert_eq!(decimal_text(usize::MAX), usize::MAX.to_string());
}

#[test]
fn finding_holds_its_column_and_message() {
    assert_eq!(
        report(4, "W191 indentation contains tabs"),
        Error { column_number: 4, error_message: "W191 indentation contains tabs".to_string() }
    );
}
