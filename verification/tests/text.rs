use z3_app::text::same_text;

#[test]
fn same_text_compares_whole_strings() {
    assert!(same_text("", ""));
    assert!(same_text("alice@x.com", "alice@x.com"));
    assert!(!same_text("alice@x.com", "alice@x.co"));
    assert!(!same_text("alice@x.com", "Alice@x.com"));
    assert!(!same_text("a", ""));
    assert!(!same_text("ab", "ba"));
}

#[test]
fn same_text_handles_text_beyond_ascii() {
    assert!(same_text("zoë@x.com", "zoë@x.com"));
    assert!(!same_text("zoë@x.com", "zoe@x.com"));
    assert!(!same_text("é", "e\u{301}"));
}
