use media_control::command::Command;
use media_control::errors::Error;
use media_control::notify::{compose, Urgency};
use media_control::player::{PlaybackState, PlayerInfo, TrackMetadata};

fn roster(names: &[&str]) -> Vec<PlayerInfo> {
    names
        .iter()
        .map(|name| PlayerInfo {
            stable_id: format!("org.mpris.MediaPlayer2.{}", name),
            display_name: name.to_string(),
        })
        .collect()
}

fn no_metadata() -> TrackMetadata {
    TrackMetadata { artists: None, title: None }
}

#[test]
fn play_pause_summary_when_playing_says_pause() {
    let players = roster(&["Foo"]);
    let n = compose(Command::PlayPause, PlaybackState::Playing, &players, 0, &no_metadata(), 0);
    assert_eq!(n.summary, "Pause (Foo)");
    assert_eq!(n.icon, "/usr/share/icons/gnome/48x48/actions/gtk-media-pause.png");
}

#[test]
fn play_pause_summary_when_paused_says_play() {
    let players = roster(&["Foo"]);
    let n = compose(Command::PlayPause, PlaybackState::Paused, &players, 0, &no_metadata(), 0);
    assert_eq!(n.summary, "Play (Foo)");
    assert_eq!(n.icon, "/usr/share/icons/gnome/48x48/actions/gtk-media-play-ltr.png");
}

#[test]
fn play_pause_summary_when_stopped_says_play() {
    let players = roster(&["Foo"]);
    let n = compose(Command::PlayPause, PlaybackState::Stopped, &players, 0, &no_metadata(), 0);
    assert_eq!(n.summary, "Play (Foo)");
}

#[test]
fn next_player_roster_body_marks_active_line() {
    let players = roster(&["Foo", "Bar"]);
    let n = compose(Command::NextPlayer, PlaybackState::Unknown, &players, 1, &no_metadata(), 0);
    assert_eq!(n.summary, "Selected player (Bar)");
    assert_eq!(n.body, "<span color=\"grey\">Foo</span>\n\u{2192} Bar");
    assert_eq!(n.urgency, Urgency::Normal);
    assert_eq!(n.timeout_ms, 6000);
    assert_eq!(n.icon, "/usr/share/icons/gnome/48x48/actions/forward.png");
}

#[test]
fn previous_player_marks_first_line() {
    let players = roster(&["Foo", "Bar"]);
    let n = compose(
        Command::PreviousPlayer,
        PlaybackState::Unknown,
        &players,
        0,
        &no_metadata(),
        0,
    );
    assert_eq!(n.body, "\u{2192} Foo\n<span color=\"grey\">Bar</span>");
    assert_eq!(n.icon, "/usr/share/icons/gnome/48x48/actions/back.png");
}

#[test]
fn prior_handle_is_reused() {
    let players = roster(&["Foo", "Bar"]);
    let n = compose(Command::NextPlayer, PlaybackState::Unknown, &players, 1, &no_metadata(), 42);
    assert_eq!(n.reuse_handle, 42);
}

#[test]
fn zero_handle_asks_for_a_fresh_notification() {
    // handle 0 is the reserved "no prior notification" sentinel; a service
    // that ever allocated handle 0 could not be told apart from that default
    let players = roster(&["Foo"]);
    let n = compose(Command::Play, PlaybackState::Unknown, &players, 0, &no_metadata(), 0);
    assert_eq!(n.reuse_handle, 0);
}

#[test]
fn transport_body_joins_artists_and_title() {
    let players = roster(&["Foo"]);
    let metadata = TrackMetadata {
        artists: Some(vec!["Alice".to_string(), "Bob".to_string()]),
        title: Some("Song".to_string()),
    };
    let n = compose(Command::Play, PlaybackState::Stopped, &players, 0, &metadata, 0);
    assert_eq!(n.summary, "Play (Foo)");
    assert_eq!(n.body, "Alice, Bob - Song");
    assert_eq!(n.urgency, Urgency::Low);
    assert_eq!(n.timeout_ms, 1500);
}

#[test]
fn transport_body_with_absent_metadata_is_a_bare_dash() {
    let players = roster(&["Foo"]);
    let n = compose(Command::Next, PlaybackState::Playing, &players, 0, &no_metadata(), 0);
    assert_eq!(n.summary, "Next track (Foo)");
    assert_eq!(n.body, " - ");
    assert_eq!(n.icon, "/usr/share/icons/gnome/48x48/actions/gtk-media-next-ltr.png");
}

#[test]
fn transport_body_single_artist_no_title() {
    let players = roster(&["Foo"]);
    let metadata = TrackMetadata { artists: Some(vec!["Alice".to_string()]), title: None };
    let n = compose(Command::Previous, PlaybackState::Playing, &players, 0, &metadata, 7);
    assert_eq!(n.summary, "Previous track (Foo)");
    assert_eq!(n.body, "Alice - ");
    assert_eq!(n.reuse_handle, 7);
}

#[test]
fn error_messages_name_each_failure() {
    assert_eq!(Error::Config.message(), "runtime directory is not set");
    assert_eq!(Error::Storage.message(), "could not write the selection record");
    assert_eq!(
        Error::Registry.message(),
        "no player available or player operation failed"
    );
    assert_eq!(
        Error::Notify.message(),
        "notification service rejected the request"
    );
    assert_eq!(Error::Parse.message(), "unknown or missing command");
}
