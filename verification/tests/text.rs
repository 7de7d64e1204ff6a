use todo_list::text::str_is_blank;

#[test]
fn empty_string_is_blank() {
    assert!(str_is_blank(""));
}

#[test]
fn spaces_are_blank() {
    assert!(str_is_blank("   "));
}

#[test]
fn mixed_whitespace_is_blank() {
    assert!(str_is_blank(" \t\r\n\u{00A0}\u{2003}\u{3000}"));
}

#[test]
fn letters_are_not_blank() {
    assert!(!str_is_blank("a"));
    assert!(!str_is_blank("  a  "));
}

#[test]
fn punctuation_is_not_blank() {
    assert!(!str_is_blank(" . "));
}
