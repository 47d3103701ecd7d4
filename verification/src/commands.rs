//! The command language of the interactive loop.
//!
//! Each input line, once trimmed, either names exactly one command — an
//! exact, case-sensitive match against a fixed set of tokens — or is
//! invalid. The loop reads a line, parses it here, and hands the command to
//! the session for dispatch.

use vstd::prelude::*;
use vstd::string::StringExecFns;

verus! {

/// One command of the interactive loop, or `Invalid` for any line that
/// matches none of the recognized tokens.
#[derive(Clone, Copy, Debug, PartialEq, Eq, Structural)]
pub enum Command {
    Play,
    Add,
    Delete,
    Pause,
    Resume,
    VolumeUp,
    VolumeDown,
    Clear,
    Help,
    List,
    Exit,
    Invalid,
}

/// Which command a trimmed input line names: an exact, case-sensitive
/// match, with every unrecognized line invalid.
pub open spec fn parse_command_spec(s: Seq<char>) -> Command {
    if s == "play"@ {
        Command::Play
    } else if s == "add"@ {
        Command::Add
    } else if s == "delete"@ {
        Command::Delete
    } else if s == "pause"@ {
        Command::Pause
    } else if s == "resume"@ {
        Command::Resume
    } else if s == "vu"@ {
        Command::VolumeUp
    } else if s == "vd"@ {
        Command::VolumeDown
    } else if s == "clear"@ {
        Command::Clear
    } else if s == "help"@ {
        Command::Help
    } else if s == "list"@ {
        Command::List
    } else if s == "exit"@ {
        Command::Exit
    } else {
        Command::Invalid
    }
}

/// Parses one trimmed input line into the command it names.
pub fn parse_command(line: &String) -> (c: Command)
    ensures
        c == parse_command_spec(line@),
{
    if *line == String::from_str("play") {
        Command::Play
    } else if *line == String::from_str("add") {
        Command::Add
    } else if *line == String::from_str("delete") {
        Command::Delete
    } else if *line == String::from_str("pause") {
        Command::Pause
    } else if *line == String::from_str("resume") {
        Command::Resume
    } else if *line == String::from_str("vu") {
        Command::VolumeUp
    } else if *line == String::from_str("vd") {
        Command::VolumeDown
    } else if *line == String::from_str("clear") {
        Command::Clear
    } else if *line == String::from_str("help") {
        Command::Help
    } else if *line == String::from_str("list") {
        Command::List
    } else if *line == String::from_str("exit") {
        Command::Exit
    } else {
        Command::Invalid
    }
}

} // verus!
