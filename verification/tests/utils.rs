use rpycodestyle::calculate_indent_level;

#[test]
fn calculate_indent_level_space_one() {
    let indent_char = ' ';
    let line = " Hello World";
    let indent_level = calculate_indent_level(line, indent_char);
    assert_eq!(1, indent_level);
}

#[test]
fn calculate_indent_level_tab_one() {
    let indent_char = '\t';
    let line = "\tHello World";
    let indent_level = calculate_indent_level(line, indent_char);
    assert_eq!(1, indent_level);
}

#[test]
fn calculate_indent_level_mix_one() {
    let indent_char = ' ';
    let line = "  \tHello World";
    let indent_level = calculate_indent_level(line, indent_char);
    assert_eq!(2, indent_level);
}

#[test]
fn calculate_indent_level_none() {
    let indent_char = ' ';
    let line = "Hello World";
    let indent_level = calculate_indent_level(line, indent_char);
    assert_eq!(0, indent_level);
}
