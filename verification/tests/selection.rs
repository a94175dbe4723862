use media_control::command::{parse_command, Command};
use media_control::cycle::cycle;
use media_control::dispatch::{dispatch, Decision, TransportOp};
use media_control::errors::Error;
use media_control::player::{PlaybackState, PlayerInfo};
use media_control::resolve::resolve_active;

fn roster(ids: &[&str]) -> Vec<PlayerInfo> {
    ids.iter()
        .map(|id| PlayerInfo { stable_id: id.to_string(), display_name: id.to_string() })
        .collect()
}

#[test]
fn cycle_steps_forward() {
    assert_eq!(cycle(3, 0, 1), 1);
    assert_eq!(cycle(3, 1, 1), 2);
}

#[test]
fn cycle_wraps_forward() {
    assert_eq!(cycle(3, 2, 1), 0);
}

#[test]
fn cycle_steps_backward() {
    assert_eq!(cycle(3, 2, -1), 1);
}

#[test]
fn cycle_wraps_backward() {
    assert_eq!(cycle(3, 0, -1), 2);
}

#[test]
fn cycle_single_player_stays() {
    assert_eq!(cycle(1, 0, 1), 0);
    assert_eq!(cycle(1, 0, -1), 0);
}

#[test]
fn cycle_round_trips() {
    for n in 1..6usize {
        for i in 0..n {
            let forward = cycle(n, i, 1);
            assert!(forward < n);
            assert_eq!(cycle(n, forward, -1), i);
        }
    }
}

#[test]
fn resolver_finds_persisted_id() {
    let players = roster(&["a", "b", "c"]);
    assert_eq!(resolve_active(&players, "b"), 1);
}

#[test]
fn resolver_unknown_id_defaults_to_first() {
    let players = roster(&["a", "b", "c"]);
    assert_eq!(resolve_active(&players, "z"), 0);
}

#[test]
fn resolver_empty_roster_defaults_to_zero() {
    let players: Vec<PlayerInfo> = Vec::new();
    assert_eq!(resolve_active(&players, "b"), 0);
}

#[test]
fn resolver_first_match_wins() {
    let players = roster(&["x", "b", "b"]);
    assert_eq!(resolve_active(&players, "b"), 1);
}

#[test]
fn dispatch_empty_roster_is_registry_error() {
    assert_eq!(dispatch(Command::Play, PlaybackState::Unknown, 0, 0), Err(Error::Registry));
    assert_eq!(
        dispatch(Command::NextPlayer, PlaybackState::Unknown, 0, 0),
        Err(Error::Registry)
    );
}

#[test]
fn dispatch_play_pause_when_playing_pauses() {
    assert_eq!(
        dispatch(Command::PlayPause, PlaybackState::Playing, 2, 0),
        Ok(Decision::Transport(TransportOp::Pause))
    );
}

#[test]
fn dispatch_play_pause_when_paused_plays() {
    assert_eq!(
        dispatch(Command::PlayPause, PlaybackState::Paused, 2, 0),
        Ok(Decision::Transport(TransportOp::Play))
    );
}

#[test]
fn dispatch_play_pause_when_stopped_plays() {
    assert_eq!(
        dispatch(Command::PlayPause, PlaybackState::Stopped, 2, 0),
        Ok(Decision::Transport(TransportOp::Play))
    );
}

#[test]
fn dispatch_transport_commands_map_directly() {
    let st = PlaybackState::Unknown;
    assert_eq!(dispatch(Command::Play, st, 1, 0), Ok(Decision::Transport(TransportOp::Play)));
    assert_eq!(dispatch(Command::Pause, st, 1, 0), Ok(Decision::Transport(TransportOp::Pause)));
    assert_eq!(dispatch(Command::Next, st, 1, 0), Ok(Decision::Transport(TransportOp::Next)));
    assert_eq!(
        dispatch(Command::Previous, st, 1, 0),
        Ok(Decision::Transport(TransportOp::Previous))
    );
}

#[test]
fn dispatch_next_player_cycles_with_wraparound() {
    assert_eq!(
        dispatch(Command::NextPlayer, PlaybackState::Unknown, 2, 1),
        Ok(Decision::SwitchTo(0))
    );
}

#[test]
fn dispatch_previous_player_cycles_with_wraparound() {
    assert_eq!(
        dispatch(Command::PreviousPlayer, PlaybackState::Unknown, 2, 0),
        Ok(Decision::SwitchTo(1))
    );
}

#[test]
fn parse_known_commands() {
    assert_eq!(parse_command("play"), Ok(Command::Play));
    assert_eq!(parse_command("pause"), Ok(Command::Pause));
    assert_eq!(parse_command("playpause"), Ok(Command::PlayPause));
    assert_eq!(parse_command("play-pause"), Ok(Command::PlayPause));
    assert_eq!(parse_command("next"), Ok(Command::Next));
    assert_eq!(parse_command("previous"), Ok(Command::Previous));
    assert_eq!(parse_command("next_player"), Ok(Command::NextPlayer));
    assert_eq!(parse_command("previous_player"), Ok(Command::PreviousPlayer));
}

#[test]
fn parse_unknown_command_fails() {
    assert_eq!(parse_command("stop"), Err(Error::Parse));
    assert_eq!(parse_command(""), Err(Error::Parse));
    assert_eq!(parse_command("Play"), Err(Error::Parse));
}
