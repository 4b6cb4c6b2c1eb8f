use pubtrust::commands::{help_commands, help_lines, parse_prompt, PromptCommand};
use pubtrust::utils::UIAction;

fn sends(line: &str) -> String {
    match parse_prompt(line) {
        PromptCommand::Act(UIAction::SendMessage(m)) => m,
        _ => panic!("expected a chat message for {:?}", line),
    }
}

fn error(line: &str) -> String {
    match parse_prompt(line) {
        PromptCommand::Error(e) => e,
        _ => panic!("expected an error for {:?}", line),
    }
}

#[test]
fn plain_line_loses_only_leading_white_space() {
    assert_eq!(sends("hello"), "hello");
    assert_eq!(sends("  hi there \t"), "hi there \t");
    assert_eq!(sends("  hi "), "hi ");
    assert_eq!(sends(""), "");
    assert_eq!(sends("a /b"), "a /b");
}

#[test]
fn alias_takes_exactly_one_word() {
    match parse_prompt("  /alias carol") {
        PromptCommand::Act(UIAction::ChangeAlias(a)) => assert_eq!(a, "carol"),
        _ => panic!("expected an alias change"),
    }
    let usage = "Not enough arguments. Usage: /alias <your_alias>";
    assert_eq!(error("/alias"), usage);
    assert_eq!(error("/alias a b"), usage);
}

#[test]
fn unserved_commands_are_not_implemented() {
    assert_eq!(error("/dm bob hi"), "Not implemented.");
    assert_eq!(error("/list"), "Not implemented.");
    assert_eq!(error("/topic x"), "Not implemented.");
}

#[test]
fn quit_help_and_unknown_commands() {
    assert!(matches!(parse_prompt("/q"), PromptCommand::Quit));
    assert!(matches!(parse_prompt("/exit"), PromptCommand::Quit));
    assert!(matches!(parse_prompt("/help"), PromptCommand::Help));
    assert_eq!(error("/foo bar"), "Unknown command \"/foo\".");
}

#[test]
fn help_lists_five_commands_aligned() {
    assert_eq!(help_commands().len(), 5);
    let lines = help_lines();
    assert_eq!(lines.len(), 6);
    assert_eq!(lines[0], "Available commands:");
    assert_eq!(lines[1], " /exit, /q          - Exit from chat");
    assert_eq!(lines[4], " /alias <new_alias> - Change alias");
    assert_eq!(lines[5], " /dm                - Not implemented");
}
