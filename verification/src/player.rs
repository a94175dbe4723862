//! The core's view of the desktop's media players: plain values carried in
//! from the player registry at the start of an invocation.
use vstd::prelude::*;

verus! {

/// One discovered player: the identifier that stays meaningful across
/// invocations, and the name shown to the user.
#[derive(Clone, Debug)]
pub struct PlayerInfo {
    pub stable_id: String,
    pub display_name: String,
}

/// Playback state of one player, as read once per invocation.
#[derive(Clone, Copy, PartialEq, Eq, Structural, Debug)]
pub enum PlaybackState {
    Playing,
    Paused,
    Stopped,
    Unknown,
}

/// Track metadata snapshot used for the notification body; either field may
/// be absent.
#[derive(Debug)]
pub struct TrackMetadata {
    pub artists: Option<Vec<String>>,
    pub title: Option<String>,
}

/// The display names of a roster, in enumeration order.
pub open spec fn names_of(players: Seq<PlayerInfo>) -> Seq<Seq<char>> {
    players.map_values(|p: PlayerInfo| p.display_name@)
}

/// The stable identifiers of a roster, in enumeration order.
pub open spec fn ids_of(players: Seq<PlayerInfo>) -> Seq<Seq<char>> {
    players.map_values(|p: PlayerInfo| p.stable_id@)
}

} // verus!
