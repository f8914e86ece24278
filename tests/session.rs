use netwatch::session::{classify_input, classify_trimmed, eq_ignore_ascii_case, UserInput};

#[test]
fn exit_words_in_any_case_end_the_session() {
    for w in ["exit", "EXIT", "Quit", "quit", "/q", "/Q", "  exit \n"] {
        assert!(matches!(classify_input(w), UserInput::Exit), "{}", w);
    }
}

#[test]
fn blank_lines_ask_nothing() {
    assert!(matches!(classify_input(""), UserInput::Empty));
    assert!(matches!(classify_input("   \t\n"), UserInput::Empty));
    assert!(matches!(classify_trimmed(""), UserInput::Empty));
}

#[test]
fn other_lines_are_trimmed_questions() {
    match classify_input("  who is scanning me?\n") {
        UserInput::Query(q) => assert_eq!(q, "who is scanning me?"),
        _ => panic!("expected a question"),
    }
    match classify_trimmed("exits") {
        UserInput::Query(q) => assert_eq!(q, "exits"),
        _ => panic!("expected a question"),
    }
}

#[test]
fn ascii_case_insensitive_comparison() {
    assert!(eq_ignore_ascii_case("ExIt", "exit"));
    assert!(!eq_ignore_ascii_case("exit", "exi"));
    assert!(!eq_ignore_ascii_case("[", "{"));
    assert!(eq_ignore_ascii_case("", ""));
}
