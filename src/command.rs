//! The console commands: how a line of input is read as a command, what each
//! command does to the list, and what is printed in reply.
use vstd::prelude::*;

use crate::text::{chars_of, is_space, number_of, parse_number, same_chars, space, trim, trim_bounds};
use crate::todo_app::{add_spec, complete_spec, has_id, Entry, TodoApp};

verus! {

/// A command, as a mathematical value.
pub enum Request {
    Add(Seq<char>),
    Complete(nat),
    BadId,
    List,
    Help,
    Exit,
    Unknown,
}

/// A command read from a line of input.
pub enum Command {
    /// `add <text>`: add an item with that text.
    Add(String),
    /// `complete <id>`: mark the item `id` completed.
    Complete(usize),
    /// `complete` followed by something that is no valid id.
    BadId,
    /// `list`: show the list, which is shown before every prompt anyway.
    List,
    /// `help` or `?`: show the available commands.
    Help,
    /// `x`: leave.
    Exit,
    /// Anything else.
    Unknown,
}

impl View for Command {
    type V = Request;

    open spec fn view(&self) -> Request {
        match self {
            Command::Add(t) => Request::Add(t@),
            Command::Complete(id) => Request::Complete(*id as nat),
            Command::BadId => Request::BadId,
            Command::List => Request::List,
            Command::Help => Request::Help,
            Command::Exit => Request::Exit,
            Command::Unknown => Request::Unknown,
        }
    }
}

/// What became of a command.
#[derive(Clone, Copy, Debug, PartialEq, Eq, Structural)]
pub enum Outcome {
    Added,
    Completed,
    NotFound,
    BadId,
    Listed,
    Help,
    Exit,
    Unknown,
}

/// Whether `t` starts with the keyword `kw`, followed by whitespace or by
/// nothing.
pub open spec fn opens_with(t: Seq<char>, kw: Seq<char>) -> bool {
    &&& kw.len() <= t.len()
    &&& t.subrange(0, kw.len() as int) == kw
    &&& (t.len() == kw.len() || is_space(t[kw.len() as int]))
}

/// What follows the keyword `kw` in `t`, trimmed.
pub open spec fn argument(t: Seq<char>, kw: Seq<char>) -> Seq<char> {
    trim(t.subrange(kw.len() as int, t.len() as int))
}

/// The command that a line of input gives. The line is trimmed; the keywords
/// are case-sensitive.
pub open spec fn request_of(line: Seq<char>) -> Request {
    let t = trim(line);
    if t == "list"@ {
        Request::List
    } else if t == "help"@ || t == "?"@ {
        Request::Help
    } else if t == "x"@ {
        Request::Exit
    } else if opens_with(t, "add"@) {
        Request::Add(argument(t, "add"@))
    } else if opens_with(t, "complete"@) {
        match number_of(argument(t, "complete"@)) {
            Some(n) => Request::Complete(n),
            None => Request::BadId,
        }
    } else {
        Request::Unknown
    }
}

/// The list after the command, and what became of it.
pub open spec fn execute_spec(s: Seq<Entry>, r: Request) -> (Seq<Entry>, Outcome) {
    match r {
        Request::Add(t) => (add_spec(s, t), Outcome::Added),
        Request::Complete(id) => (
            complete_spec(s, id as int),
            if has_id(s, id as int) {
                Outcome::Completed
            } else {
                Outcome::NotFound
            },
        ),
        Request::BadId => (s, Outcome::BadId),
        Request::List => (s, Outcome::Listed),
        Request::Help => (s, Outcome::Help),
        Request::Exit => (s, Outcome::Exit),
        Request::Unknown => (s, Outcome::Unknown),
    }
}

/// Whether `cs[lo..hi]` starts with the keyword `kw`, as `opens_with` says.
fn opens_with_at(cs: &Vec<char>, lo: usize, hi: usize, kw: &Vec<char>) -> (r: bool)
    requires
        lo <= hi <= cs@.len(),
    ensures
        r == opens_with(cs@.subrange(lo as int, hi as int), kw@),
{
    let ghost t = cs@.subrange(lo as int, hi as int);
    if kw.len() > hi - lo {
        return false;
    }
    let k = lo + kw.len();
    assert(t.subrange(0, kw@.len() as int) =~= cs@.subrange(lo as int, k as int));
    same_chars(cs, lo, k, kw) && (k == hi || space(cs[k]))
}

/// Reads a line of input as a command.
pub fn parse_command(line: &str) -> (c: Command)
    ensures
        c@ == request_of(line@),
{
    let cs = chars_of(line);
    assert(cs@.subrange(0, cs@.len() as int) =~= cs@);
    let (a, b) = trim_bounds(&cs, 0, cs.len());
    let ghost t = cs@.subrange(a as int, b as int);
    if same_chars(&cs, a, b, &chars_of("list")) {
        return Command::List;
    }
    if same_chars(&cs, a, b, &chars_of("help")) || same_chars(&cs, a, b, &chars_of("?")) {
        return Command::Help;
    }
    if same_chars(&cs, a, b, &chars_of("x")) {
        return Command::Exit;
    }
    let add = chars_of("add");
    if opens_with_at(&cs, a, b, &add) {
        let (p, q) = trim_bounds(&cs, a + add.len(), b);
        assert(t.subrange(add@.len() as int, t.len() as int) =~= cs@.subrange(
            a + add@.len(),
            b as int,
        ));
        let text = String::from_str(line.substring_char(p, q));
        return Command::Add(text);
    }
    let complete = chars_of("complete");
    if opens_with_at(&cs, a, b, &complete) {
        let (p, q) = trim_bounds(&cs, a + complete.len(), b);
        assert(t.subrange(complete@.len() as int, t.len() as int) =~= cs@.subrange(
            a + complete@.len(),
            b as int,
        ));
        return match parse_number(&cs, p, q) {
            Some(id) => Command::Complete(id),
            None => Command::BadId,
        };
    }
    Command::Unknown
}

/// The texts of a sequence of strings.
pub open spec fn texts(v: Seq<String>) -> Seq<Seq<char>> {
    v.map_values(|l: String| l@)
}

/// The lines that describe the available commands.
pub open spec fn usage_spec() -> Seq<Seq<char>> {
    seq![
        "Available commands:"@,
        "  add <todo_text>    - Add a new todo item"@,
        "  complete <todo_id> - Mark a todo item as completed"@,
        "  list               - List all todo items"@,
        "  ?                  - Show available commands"@,
        "  x                  - Exit the program"@,
    ]
}

/// The lines printed in reply to a command with the given outcome.
pub open spec fn reply_spec(o: Outcome) -> Seq<Seq<char>> {
    match o {
        Outcome::Added => seq!["Todo item added successfully!"@],
        Outcome::Completed => seq!["Todo item marked as completed!"@],
        Outcome::NotFound => seq!["Todo item not found."@],
        Outcome::BadId => seq!["Invalid todo id: expected a non-negative whole number."@],
        Outcome::Listed => Seq::empty(),
        Outcome::Help => usage_spec(),
        Outcome::Exit => seq!["Exiting..."@],
        Outcome::Unknown => seq!["Invalid command. Type '?' to see available commands."@],
    }
}

/// The lines that describe the available commands.
pub fn usage() -> (r: Vec<String>)
    ensures
        texts(r@) == usage_spec(),
{
    let mut r: Vec<String> = Vec::new();
    r.push(String::from_str("Available commands:"));
    r.push(String::from_str("  add <todo_text>    - Add a new todo item"));
    r.push(String::from_str("  complete <todo_id> - Mark a todo item as completed"));
    r.push(String::from_str("  list               - List all todo items"));
    r.push(String::from_str("  ?                  - Show available commands"));
    r.push(String::from_str("  x                  - Exit the program"));
    assert(texts(r@) =~= usage_spec());
    r
}

impl Outcome {
    /// The lines to print in reply.
    pub fn reply(&self) -> (r: Vec<String>)
        ensures
            texts(r@) == reply_spec(*self),
    {
        let line = match self {
            Outcome::Added => "Todo item added successfully!",
            Outcome::Completed => "Todo item marked as completed!",
            Outcome::NotFound => "Todo item not found.",
            Outcome::BadId => "Invalid todo id: expected a non-negative whole number.",
            Outcome::Listed => {
                let r: Vec<String> = Vec::new();
                assert(texts(r@) =~= reply_spec(*self));
                return r;
            },
            Outcome::Help => {
                return usage();
            },
            Outcome::Exit => "Exiting...",
            Outcome::Unknown => "Invalid command. Type '?' to see available commands.",
        };
        let mut r: Vec<String> = Vec::new();
        r.push(String::from_str(line));
        assert(texts(r@) =~= reply_spec(*self));
        r
    }

    /// Whether the command loop stops after this outcome.
    pub fn ends_session(&self) -> (r: bool)
        ensures
            r == (*self == Outcome::Exit),
    {
        match self {
            Outcome::Exit => true,
            _ => false,
        }
    }
}

impl TodoApp {
    /// Carries out a command on the list.
    pub fn execute(&mut self, cmd: Command) -> (r: Outcome)
        requires
            old(self).wf(),
        ensures
            (final(self)@, r) == execute_spec(old(self)@, cmd@),
            final(self).wf(),
    {
        match cmd {
            Command::Add(text) => {
                self.add(text);
                Outcome::Added
            },
            Command::Complete(id) => {
                if self.complete(id) {
                    Outcome::Completed
                } else {
                    Outcome::NotFound
                }
            },
            Command::BadId => Outcome::BadId,
            Command::List => Outcome::Listed,
            Command::Help => Outcome::Help,
            Command::Exit => Outcome::Exit,
            Command::Unknown => Outcome::Unknown,
        }
    }

    /// Reads a line of input as a command and carries it out.
    pub fn step(&mut self, line: &str) -> (r: Outcome)
        requires
            old(self).wf(),
        ensures
            (final(self)@, r) == execute_spec(old(self)@, request_of(line@)),
            final(self).wf(),
    {
        let cmd = parse_command(line);
        self.execute(cmd)
    }
}

} // verus!
