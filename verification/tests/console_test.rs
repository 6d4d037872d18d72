use mi7_agent::console::{classify_input, history_line, ConsoleInput};

#[test]
fn console_commands() {
    assert!(matches!(classify_input("exit"), ConsoleInput::Exit));
    assert!(matches!(classify_input("  quit\n"), ConsoleInput::Exit));
    assert!(matches!(classify_input("clear"), ConsoleInput::Clear));
    assert!(matches!(classify_input("history "), ConsoleInput::History));
    assert!(matches!(classify_input("memory"), ConsoleInput::Memory));
    assert!(matches!(classify_input("   "), ConsoleInput::Empty));
    match classify_input("  hello world  ") {
        ConsoleInput::Prompt(p) => assert_eq!(p, "hello world"),
        _ => panic!("expected prompt"),
    }
    assert!(matches!(classify_input("Exit"), ConsoleInput::Prompt(_)));
}

#[test]
fn listing_lines() {
    assert_eq!(history_line(0, "user", "hi"), "  [1] user: hi");
    let long = "z".repeat(60);
    assert_eq!(history_line(9, "assistant", &long), format!("  [10] assistant: {}...", "z".repeat(50)));
}
