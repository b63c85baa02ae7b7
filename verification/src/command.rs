//! The console command grammar: one input line becomes one user intent.
//!
//! A line starting with `/` is a command: `/connect <addr>` (alias
//! `/open`), `/close`, `/exit`, `/help`; any other `/` line is unknown.
//! A non-empty line without `/` is chat text to send. Commands are
//! recognized by prefix, and the connect argument is the second
//! space-separated piece of the line.

use crate::text::{second_token, spec_second_token, spec_starts_with, starts_with};
use vstd::prelude::*;

verus! {

/// One parsed input line.
#[derive(Debug, PartialEq, Eq)]
pub enum Command {
    /// The line was empty: nothing to do.
    Empty,
    /// Connect to a server; the argument is the address if one was given.
    Connect { arg: Option<String> },
    /// Close the current connection(s).
    CloseAll,
    /// Leave the program.
    Exit,
    /// Show the help text.
    Help,
    /// An unrecognized `/` command.
    Unknown,
    /// Plain chat text: send it.
    Say(String),
}

/// The bare kind of an input line, without its payload.
#[derive(Clone, Copy, Debug, PartialEq, Eq, Structural)]
pub enum CommandKind {
    Empty,
    Connect,
    CloseAll,
    Exit,
    Help,
    Unknown,
    Say,
}

/// Whether the line asks to connect (either spelling).
pub open spec fn spec_is_connect(line: Seq<char>) -> bool {
    spec_starts_with(line, "/open"@) || spec_starts_with(line, "/connect"@)
}

/// The grammar itself: what kind of intent a line expresses.
pub open spec fn spec_kind(line: Seq<char>) -> CommandKind {
    if line.len() == 0 {
        CommandKind::Empty
    } else if !spec_starts_with(line, "/"@) {
        CommandKind::Say
    } else if spec_is_connect(line) {
        CommandKind::Connect
    } else if spec_starts_with(line, "/close"@) {
        CommandKind::CloseAll
    } else if spec_starts_with(line, "/exit"@) {
        CommandKind::Exit
    } else if spec_starts_with(line, "/help"@) {
        CommandKind::Help
    } else {
        CommandKind::Unknown
    }
}

/// Parses one input line into the intent it expresses.
pub fn parse_command(line: &str) -> (r: Command)
    ensures
        spec_kind(line@) is Empty ==> r is Empty,
        spec_kind(line@) is Say ==> (r matches Command::Say(t) && t@ == line@),
        spec_kind(line@) is Connect ==> (r matches Command::Connect { arg } && (
        arg is Some <==> spec_second_token(line@) is Some) && (arg matches Some(a) ==> a@
            == spec_second_token(line@)->Some_0)),
        spec_kind(line@) is CloseAll ==> r is CloseAll,
        spec_kind(line@) is Exit ==> r is Exit,
        spec_kind(line@) is Help ==> r is Help,
        spec_kind(line@) is Unknown ==> r is Unknown,
{
    proof {
        reveal_strlit("/");
    }
    if line.is_empty() {
        return Command::Empty;
    }
    if !starts_with(line, "/") {
        return Command::Say(line.to_owned());
    }
    if starts_with(line, "/open") || starts_with(line, "/connect") {
        Command::Connect { arg: second_token(line) }
    } else if starts_with(line, "/close") {
        Command::CloseAll
    } else if starts_with(line, "/exit") {
        Command::Exit
    } else if starts_with(line, "/help") {
        Command::Help
    } else {
        Command::Unknown
    }
}

} // verus!
