use todo_list::command::{parse_command, usage, Command, Outcome};
use todo_list::text::chars_of;
use todo_list::text::parse_number;
use todo_list::text::push_decimal;
use todo_list::text::trim_bounds;
use todo_list::todo_app::TodoApp;

fn lines(v: &[&str]) -> Vec<String> {
    v.iter().map(|s| s.to_string()).collect()
}

fn number(s: &str) -> Option<usize> {
    let cs = chars_of(s);
    parse_number(&cs, 0, cs.len())
}

#[test]
fn add_then_exit_session() {
    let mut app = TodoApp::new();
    let first = app.step("add Buy milk\n");
    assert_eq!(first, Outcome::Added);
    assert_eq!(first.reply(), lines(&["Todo item added successfully!"]));
    assert!(!first.ends_session());
    assert_eq!(app.list(), lines(&["[ ] 0: Buy milk"]));
    let second = app.step("x\n");
    assert_eq!(second, Outcome::Exit);
    assert_eq!(second.reply(), lines(&["Exiting..."]));
    assert!(second.ends_session());
    assert_eq!(app.list(), lines(&["[ ] 0: Buy milk"]));
}

#[test]
fn bad_id_reports_and_keeps_list() {
    let mut app = TodoApp::new();
    app.add(String::from("Buy milk"));
    let before = app.list();
    let o = app.step("complete abc\n");
    assert_eq!(o, Outcome::BadId);
    assert_eq!(
        o.reply(),
        lines(&["Invalid todo id: expected a non-negative whole number."])
    );
    assert!(!o.ends_session());
    assert_eq!(app.list(), before);
}

#[test]
fn complete_command_replies() {
    let mut app = TodoApp::new();
    app.step("add Buy groceries");
    app.step("add Do laundry");
    let o = app.step("complete 1");
    assert_eq!(o, Outcome::Completed);
    assert_eq!(o.reply(), lines(&["Todo item marked as completed!"]));
    let o = app.step("complete 99");
    assert_eq!(o, Outcome::NotFound);
    assert_eq!(o.reply(), lines(&["Todo item not found."]));
    assert_eq!(
        app.list(),
        lines(&["[ ] 0: Buy groceries", "[x] 1: Do laundry"])
    );
}

#[test]
fn other_commands_leave_list_alone() {
    let mut app = TodoApp::new();
    app.step("add a");
    let before = app.list();
    let o = app.step("list");
    assert_eq!(o, Outcome::Listed);
    assert!(o.reply().is_empty());
    let o = app.step("help");
    assert_eq!(o, Outcome::Help);
    assert_eq!(o.reply(), usage());
    let o = app.step("dance");
    assert_eq!(o, Outcome::Unknown);
    assert_eq!(
        o.reply(),
        lines(&["Invalid command. Type '?' to see available commands."])
    );
    assert_eq!(app.list(), before);
}

#[test]
fn usage_lines() {
    assert_eq!(
        usage(),
        lines(&[
            "Available commands:",
            "  add <todo_text>    - Add a new todo item",
            "  complete <todo_id> - Mark a todo item as completed",
            "  list               - List all todo items",
            "  ?                  - Show available commands",
            "  x                  - Exit the program",
        ])
    );
}

#[test]
fn parse_keywords() {
    assert!(matches!(parse_command("list"), Command::List));
    assert!(matches!(parse_command("  list \n"), Command::List));
    assert!(matches!(parse_command("help"), Command::Help));
    assert!(matches!(parse_command("?"), Command::Help));
    assert!(matches!(parse_command("x\r\n"), Command::Exit));
    assert!(matches!(parse_command("X"), Command::Unknown));
    assert!(matches!(parse_command("List"), Command::Unknown));
    assert!(matches!(parse_command(""), Command::Unknown));
    assert!(matches!(parse_command("lists"), Command::Unknown));
}

#[test]
fn parse_add_text() {
    match parse_command("  add   Buy milk  \n") {
        Command::Add(t) => assert_eq!(t, "Buy milk"),
        _ => panic!("expected an add command"),
    }
    match parse_command("add\tcaf\u{e9} \u{3000}") {
        Command::Add(t) => assert_eq!(t, "caf\u{e9}"),
        _ => panic!("expected an add command"),
    }
    match parse_command("add") {
        Command::Add(t) => assert_eq!(t, ""),
        _ => panic!("expected an add command"),
    }
    assert!(matches!(parse_command("address"), Command::Unknown));
}

#[test]
fn parse_complete_id() {
    assert!(matches!(parse_command("complete 7"), Command::Complete(7)));
    assert!(matches!(parse_command("complete   42 \n"), Command::Complete(42)));
    assert!(matches!(parse_command("complete +3"), Command::Complete(3)));
    assert!(matches!(parse_command("complete abc"), Command::BadId));
    assert!(matches!(parse_command("complete"), Command::BadId));
    assert!(matches!(parse_command("complete -1"), Command::BadId));
    assert!(matches!(parse_command("complete 1 2"), Command::BadId));
    assert!(matches!(parse_command("completely 1"), Command::Unknown));
}

#[test]
fn number_parsing() {
    assert_eq!(number("0"), Some(0));
    assert_eq!(number("007"), Some(7));
    assert_eq!(number("+12"), Some(12));
    assert_eq!(number("18446744073709551615"), Some(usize::MAX));
    assert_eq!(number("18446744073709551616"), None);
    assert_eq!(number("99999999999999999999x"), None);
    assert_eq!(number(""), None);
    assert_eq!(number("+"), None);
    assert_eq!(number("1a"), None);
    assert_eq!(number("٣"), None);
}

#[test]
fn trimming_bounds() {
    let cs = chars_of(" \t ab c \u{a0}\n");
    assert_eq!(trim_bounds(&cs, 0, cs.len()), (3, 7));
    let blank = chars_of(" \n\t");
    let (a, b) = trim_bounds(&blank, 0, blank.len());
    assert_eq!(a, b);
}

#[test]
fn decimal_formatting() {
    let mut s = String::from("n=");
    push_decimal(&mut s, 0);
    assert_eq!(s, "n=0");
    let mut s = String::new();
    push_decimal(&mut s, 1234567890);
    assert_eq!(s, "1234567890");
    let mut s = String::new();
    push_decimal(&mut s, usize::MAX);
    assert_eq!(s, usize::MAX.to_string());
}
