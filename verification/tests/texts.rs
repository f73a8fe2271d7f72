use greco::text::{joined, same_text};

#[test]
fn texts_are_compared_character_by_character() {
    assert!(same_text("md", "md"));
    assert!(same_text("", ""));
    assert!(!same_text("md", "MD"));
    assert!(!same_text("md", "md "));
    assert!(!same_text("md", "m"));
}

#[test]
fn joining_puts_the_second_text_behind_the_first() {
    assert_eq!(joined("README.rst", ".md"), "README.rst.md");
    assert_eq!(joined("", "x"), "x");
    assert_eq!(joined("x", ""), "x");
}
