//! The closed set of commands and the mapping from the command-line word to
//! one of them.
use vstd::prelude::*;
use crate::errors::Error;
use crate::text::str_eq;

verus! {

/// A parsed command.
#[derive(Clone, Copy, PartialEq, Eq, Structural, Debug)]
pub enum Command {
    Play,
    Pause,
    PlayPause,
    Next,
    Previous,
    NextPlayer,
    PreviousPlayer,
}

/// Whether the command changes which player is active instead of issuing a
/// transport operation.
pub open spec fn is_cycling(c: Command) -> bool {
    c == Command::NextPlayer || c == Command::PreviousPlayer
}

/// The command a single argument word selects, if any.
pub open spec fn command_of(s: Seq<char>) -> Option<Command> {
    if s == "play"@ {
        Some(Command::Play)
    } else if s == "pause"@ {
        Some(Command::Pause)
    } else if s == "playpause"@ || s == "play-pause"@ {
        Some(Command::PlayPause)
    } else if s == "next"@ {
        Some(Command::Next)
    } else if s == "previous"@ {
        Some(Command::Previous)
    } else if s == "next_player"@ {
        Some(Command::NextPlayer)
    } else if s == "previous_player"@ {
        Some(Command::PreviousPlayer)
    } else {
        None
    }
}

/// Parses the single positional argument; any word outside the closed set is
/// a parse error.
pub fn parse_command(arg: &str) -> (r: Result<Command, Error>)
    ensures
        match r {
            Ok(c) => command_of(arg@) == Some(c),
            Err(e) => command_of(arg@) is None && e == Error::Parse,
        },
{
    if str_eq(arg, "play") {
        Ok(Command::Play)
    } else if str_eq(arg, "pause") {
        Ok(Command::Pause)
    } else if str_eq(arg, "playpause") || str_eq(arg, "play-pause") {
        Ok(Command::PlayPause)
    } else if str_eq(arg, "next") {
        Ok(Command::Next)
    } else if str_eq(arg, "previous") {
        Ok(Command::Previous)
    } else if str_eq(arg, "next_player") {
        Ok(Command::NextPlayer)
    } else if str_eq(arg, "previous_player") {
        Ok(Command::PreviousPlayer)
    } else {
        Err(Error::Parse)
    }
}

} // verus!
