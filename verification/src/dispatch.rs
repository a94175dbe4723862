//! Command Dispatcher: the one decision an invocation makes, mapping the
//! parsed command to a transport operation on the active player or to a new
//! active index.
use vstd::prelude::*;
use crate::command::{Command, is_cycling};
use crate::cycle::{cycle, cycle_spec};
use crate::errors::Error;
use crate::player::PlaybackState;

verus! {

/// A single transport operation on a player.
#[derive(Clone, Copy, PartialEq, Eq, Structural, Debug)]
pub enum TransportOp {
    Play,
    Pause,
    Next,
    Previous,
}

/// The dispatcher's outcome: issue one transport operation, leaving the
/// active player unchanged, or make another roster index active.
#[derive(Clone, Copy, PartialEq, Eq, Structural, Debug)]
pub enum Decision {
    Transport(TransportOp),
    SwitchTo(usize),
}

/// Transport operation a non-cycling command issues. `PlayPause` resolves by
/// the playback state read once before dispatching: pause a playing player,
/// play in every other state.
pub open spec fn resolved_op(c: Command, state: PlaybackState) -> TransportOp
    recommends
        !is_cycling(c),
{
    match c {
        Command::Play => TransportOp::Play,
        Command::Pause => TransportOp::Pause,
        Command::PlayPause => if state == PlaybackState::Playing {
            TransportOp::Pause
        } else {
            TransportOp::Play
        },
        Command::Next => TransportOp::Next,
        Command::Previous => TransportOp::Previous,
        Command::NextPlayer => arbitrary(),
        Command::PreviousPlayer => arbitrary(),
    }
}

/// Cycling direction: +1 for next player, -1 for previous player.
pub open spec fn step_of(c: Command) -> int
    recommends
        is_cycling(c),
{
    if c == Command::NextPlayer {
        1
    } else {
        -1
    }
}

/// Decides what this invocation does. Every command needs a target player, so
/// an empty roster is the one failure, a registry error; otherwise a cycling
/// command moves the active index one step with wraparound and a transport
/// command issues its resolved operation without changing the index.
pub fn dispatch(command: Command, state: PlaybackState, count: usize, current: usize) -> (r:
    Result<Decision, Error>)
    requires
        count == 0 ==> current == 0,
        count > 0 ==> current < count,
    ensures
        match r {
            Ok(d) => count > 0 && match d {
                Decision::Transport(op) => !is_cycling(command) && op == resolved_op(
                    command,
                    state,
                ),
                Decision::SwitchTo(idx) => is_cycling(command) && idx < count && idx as int
                    == cycle_spec(count as int, current as int, step_of(command)),
            },
            Err(e) => count == 0 && e == Error::Registry,
        },
{
    if count == 0 {
        return Err(Error::Registry);
    }
    match command {
        Command::Play => Ok(Decision::Transport(TransportOp::Play)),
        Command::Pause => Ok(Decision::Transport(TransportOp::Pause)),
        Command::PlayPause => {
            if state == PlaybackState::Playing {
                Ok(Decision::Transport(TransportOp::Pause))
            } else {
                Ok(Decision::Transport(TransportOp::Play))
            }
        },
        Command::Next => Ok(Decision::Transport(TransportOp::Next)),
        Command::Previous => Ok(Decision::Transport(TransportOp::Previous)),
        Command::NextPlayer => Ok(Decision::SwitchTo(cycle(count, current, 1))),
        Command::PreviousPlayer => Ok(Decision::SwitchTo(cycle(count, current, -1))),
    }
}

} // verus!
