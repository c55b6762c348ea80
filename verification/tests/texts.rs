use codex_api::text::{copy_text, decimal_text, join_paragraphs, same_text};

#[test]
fn texts_are_compared_by_their_characters() {
    assert!(same_text("", ""));
    assert!(same_text("grün", "grün"));
    assert!(!same_text("abc", "abd"));
    assert!(!same_text("abc", "abcd"));
}

#[test]
fn numbers_are_written_in_decimal() {
    assert_eq!(decimal_text(0), "0");
    assert_eq!(decimal_text(9), "9");
    assert_eq!(decimal_text(10), "10");
    assert_eq!(decimal_text(907), "907");
}

#[test]
fn paragraphs_have_a_blank_line_between_them() {
    assert_eq!(join_paragraphs("a", "b"), "a\n\nb");
    assert_eq!(join_paragraphs("", ""), "\n\n");
}

#[test]
fn optional_texts_are_copied() {
    assert_eq!(copy_text(&Some("a".to_string())), Some("a".to_string()));
    assert_eq!(copy_text(&None), None);
}
