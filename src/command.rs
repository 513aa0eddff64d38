use vstd::prelude::*;
use crate::text::{find_space, first_space, lower_of, lowercase, text_eq, trim_text, trimmed};

verus! {

/// A parsed input line.
pub enum Command {
    Help,
    Clear,
    Status,
    Echo(String),
    Time,
    Date,
    AsyncTask,
    Log,
    ScrollTop,
    ScrollBottom,
    Empty,
    Unknown(String),
}

/// A `Command` with its texts as characters.
pub ghost enum CommandView {
    Help,
    Clear,
    Status,
    Echo(Seq<char>),
    Time,
    Date,
    AsyncTask,
    Log,
    ScrollTop,
    ScrollBottom,
    Empty,
    Unknown(Seq<char>),
}

impl View for Command {
    type V = CommandView;

    open spec fn view(&self) -> CommandView {
        match self {
            Command::Help => CommandView::Help,
            Command::Clear => CommandView::Clear,
            Command::Status => CommandView::Status,
            Command::Echo(s) => CommandView::Echo(s@),
            Command::Time => CommandView::Time,
            Command::Date => CommandView::Date,
            Command::AsyncTask => CommandView::AsyncTask,
            Command::Log => CommandView::Log,
            Command::ScrollTop => CommandView::ScrollTop,
            Command::ScrollBottom => CommandView::ScrollBottom,
            Command::Empty => CommandView::Empty,
            Command::Unknown(s) => CommandView::Unknown(s@),
        }
    }
}

/// The first word of a line: what precedes its first space, or all of it.
pub open spec fn head_of(line: Seq<char>) -> Seq<char> {
    match first_space(line) {
        Some(k) => line.subrange(0, k as int),
        None => line,
    }
}

/// What follows the first space of a line; empty when it has none.
pub open spec fn arg_of(line: Seq<char>) -> Seq<char> {
    match first_space(line) {
        Some(k) => line.subrange(k + 1 as int, line.len() as int),
        None => Seq::empty(),
    }
}

/// The command that a trimmed line `line` names, given its first word
/// lower-cased (`verb`) and the whole line lower-cased (`lowered`). Only
/// `echo` takes an argument, which keeps its case; every other verb stands
/// alone.
pub open spec fn command_of(line: Seq<char>, verb: Seq<char>, lowered: Seq<char>) -> CommandView {
    if line.len() == 0 {
        CommandView::Empty
    } else if verb == "echo"@ {
        CommandView::Echo(arg_of(line))
    } else if first_space(line) is Some {
        CommandView::Unknown(lowered)
    } else if verb == "help"@ || verb == "?"@ {
        CommandView::Help
    } else if verb == "clear"@ {
        CommandView::Clear
    } else if verb == "status"@ {
        CommandView::Status
    } else if verb == "time"@ {
        CommandView::Time
    } else if verb == "date"@ {
        CommandView::Date
    } else if verb == "async-task"@ {
        CommandView::AsyncTask
    } else if verb == "log"@ {
        CommandView::Log
    } else if verb == "scroll-top"@ {
        CommandView::ScrollTop
    } else if verb == "scroll-bottom"@ {
        CommandView::ScrollBottom
    } else {
        CommandView::Unknown(lowered)
    }
}

/// The command that a raw input line names: it is trimmed, and its verb is
/// matched without regard to case.
pub open spec fn parsed(input: Seq<char>) -> CommandView {
    let line = trimmed(input);
    command_of(line, lower_of(head_of(line)), lower_of(line))
}

/// Reads a trimmed line, given its first word and the whole line in lower
/// case.
pub fn classify(line: &str, verb: &str, lowered: &str) -> (r: Command)
    ensures
        r@ == command_of(line@, verb@, lowered@),
{
    if line.unicode_len() == 0 {
        return Command::Empty;
    }
    let space = find_space(line);
    if text_eq(verb, "echo") {
        let arg = match space {
            Some(k) => String::from_str(line.substring_char(k + 1, line.unicode_len())),
            None => String::new(),
        };
        return Command::Echo(arg);
    }
    if space.is_some() {
        return Command::Unknown(String::from_str(lowered));
    }
    if text_eq(verb, "help") || text_eq(verb, "?") {
        Command::Help
    } else if text_eq(verb, "clear") {
        Command::Clear
    } else if text_eq(verb, "status") {
        Command::Status
    } else if text_eq(verb, "time") {
        Command::Time
    } else if text_eq(verb, "date") {
        Command::Date
    } else if text_eq(verb, "async-task") {
        Command::AsyncTask
    } else if text_eq(verb, "log") {
        Command::Log
    } else if text_eq(verb, "scroll-top") {
        Command::ScrollTop
    } else if text_eq(verb, "scroll-bottom") {
        Command::ScrollBottom
    } else {
        Command::Unknown(String::from_str(lowered))
    }
}

/// Parses a raw input line.
pub fn parse_command(input: &str) -> (r: Command)
    ensures
        r@ == parsed(input@),
{
    let line = trim_text(input);
    let head = match find_space(line) {
        Some(k) => line.substring_char(0, k),
        None => line,
    };
    let verb = lowercase(head);
    let lowered = lowercase(line);
    classify(line, verb.as_str(), lowered.as_str())
}

} // verus!
