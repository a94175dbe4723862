//! Notification Composer: the summary, body, icon, urgency, timeout and
//! handle-reuse choice of the confirmation popup, computed from the command,
//! the once-read playback state, the roster and the track metadata.
use vstd::prelude::*;
use vstd::string::{StrSliceExecFns, StringExecFns};
use crate::command::{Command, is_cycling};
use crate::dispatch::{TransportOp, resolved_op};
use crate::player::{PlayerInfo, PlaybackState, TrackMetadata, names_of};

verus! {

/// Notification urgency, as far as the tool distinguishes it.
#[derive(Clone, Copy, PartialEq, Eq, Structural, Debug)]
pub enum Urgency {
    Low,
    Normal,
}

/// Everything the notification service is asked to show. `reuse_handle` is
/// the prior notification's handle so the popup is replaced in place; 0 is
/// the reserved "no prior notification" sentinel and asks for a fresh one.
#[derive(Debug)]
pub struct NotificationPlan {
    pub summary: String,
    pub body: String,
    pub icon: String,
    pub urgency: Urgency,
    pub timeout_ms: u32,
    pub reuse_handle: u32,
}

/// The fixed action label of a command; `PlayPause` resolves by the playback
/// state read once for the invocation: it announces a pause exactly when the
/// player was playing.
pub open spec fn action_label(c: Command, state: PlaybackState) -> Seq<char> {
    match c {
        Command::Play => "Play"@,
        Command::Pause => "Pause"@,
        Command::PlayPause => if state == PlaybackState::Playing {
            "Pause"@
        } else {
            "Play"@
        },
        Command::Next => "Next track"@,
        Command::Previous => "Previous track"@,
        Command::NextPlayer => "Selected player"@,
        Command::PreviousPlayer => "Selected player"@,
    }
}

/// Summary line: the action label, then the active player's display name in
/// parentheses.
pub open spec fn summary_spec(c: Command, state: PlaybackState, name: Seq<char>) -> Seq<char> {
    action_label(c, state) + " ("@ + name + ")"@
}

/// Artist names joined by a comma and a space.
pub open spec fn joined_artists(artists: Seq<Seq<char>>) -> Seq<char>
    decreases artists.len(),
{
    if artists.len() == 0 {
        Seq::<char>::empty()
    } else if artists.len() == 1 {
        artists[0]
    } else {
        joined_artists(artists.drop_last()) + ", "@ + artists.last()
    }
}

/// The artists of a metadata snapshot, if present, as sequences of
/// characters.
pub open spec fn artists_view(m: TrackMetadata) -> Option<Seq<Seq<char>>> {
    match m.artists {
        Some(v) => Some(v.deep_view()),
        None => None,
    }
}

/// The title of a metadata snapshot, if present, as a sequence of
/// characters.
pub open spec fn title_view(m: TrackMetadata) -> Option<Seq<char>> {
    match m.title {
        Some(t) => Some(t@),
        None => None,
    }
}

/// Body of a transport notification: the joined artists, a dash, the title;
/// an absent field renders as the empty string on its side, so it can
/// legitimately come out as `" - "`.
pub open spec fn transport_body_spec(
    artists: Option<Seq<Seq<char>>>,
    title: Option<Seq<char>>,
) -> Seq<char> {
    (match artists {
        Some(a) => joined_artists(a),
        None => Seq::<char>::empty(),
    }) + " - "@ + (match title {
        Some(t) => t,
        None => Seq::<char>::empty(),
    })
}

/// One roster line: the newly active player's name after the arrow marker,
/// any other name in the muted span markup.
pub open spec fn roster_line(name: Seq<char>, active: bool) -> Seq<char> {
    if active {
        "\u{2192} "@ + name
    } else {
        "<span color=\"grey\">"@ + name + "</span>"@
    }
}

/// Body of a cycling notification: one line per player in enumeration order,
/// the newly active one marked.
pub open spec fn roster_body_spec(names: Seq<Seq<char>>, active: int) -> Seq<char>
    decreases names.len(),
{
    if names.len() == 0 {
        Seq::<char>::empty()
    } else if names.len() == 1 {
        roster_line(names[0], active == 0)
    } else {
        roster_body_spec(names.drop_last(), active) + "\n"@ + roster_line(
            names.last(),
            active == names.len() - 1,
        )
    }
}

/// The icon key of a command, `PlayPause` by its resolved direction.
pub open spec fn icon_key(c: Command, state: PlaybackState) -> Seq<char> {
    match c {
        Command::Play => "gtk-media-play-ltr"@,
        Command::Pause => "gtk-media-pause"@,
        Command::PlayPause => if state == PlaybackState::Playing {
            "gtk-media-pause"@
        } else {
            "gtk-media-play-ltr"@
        },
        Command::Next => "gtk-media-next-ltr"@,
        Command::Previous => "gtk-media-previous-ltr"@,
        Command::NextPlayer => "forward"@,
        Command::PreviousPlayer => "back"@,
    }
}

/// Full icon reference: the fixed icon directory, the key, the extension.
pub open spec fn icon_spec(c: Command, state: PlaybackState) -> Seq<char> {
    "/usr/share/icons/gnome/48x48/actions/"@ + icon_key(c, state) + ".png"@
}

/// Cycling notifications carry the roster and need reading time; transport
/// notifications are a short low-urgency confirmation.
pub open spec fn urgency_spec(c: Command) -> Urgency {
    if is_cycling(c) {
        Urgency::Normal
    } else {
        Urgency::Low
    }
}

/// Timeout in milliseconds, by the same distinction as the urgency.
pub open spec fn timeout_spec(c: Command) -> u32 {
    if is_cycling(c) {
        6000
    } else {
        1500
    }
}

/// The action label of each command, shared by the summary builder.
fn label_str(c: Command, state: PlaybackState) -> (r: &'static str)
    ensures
        r@ == action_label(c, state),
{
    match c {
        Command::Play => "Play",
        Command::Pause => "Pause",
        Command::PlayPause => if state == PlaybackState::Playing {
            "Pause"
        } else {
            "Play"
        },
        Command::Next => "Next track",
        Command::Previous => "Previous track",
        Command::NextPlayer => "Selected player",
        Command::PreviousPlayer => "Selected player",
    }
}

/// The icon key of each command, shared by the icon builder.
fn icon_key_str(c: Command, state: PlaybackState) -> (r: &'static str)
    ensures
        r@ == icon_key(c, state),
{
    match c {
        Command::Play => "gtk-media-play-ltr",
        Command::Pause => "gtk-media-pause",
        Command::PlayPause => if state == PlaybackState::Playing {
            "gtk-media-pause"
        } else {
            "gtk-media-play-ltr"
        },
        Command::Next => "gtk-media-next-ltr",
        Command::Previous => "gtk-media-previous-ltr",
        Command::NextPlayer => "forward",
        Command::PreviousPlayer => "back",
    }
}

/// Joins artist names with a comma and a space.
fn join_artists(list: &Vec<String>) -> (r: String)
    ensures
        r@ == joined_artists(list.deep_view()),
{
    let ghost dv = list.deep_view();
    let mut s = String::new();
    let n = list.len();
    let mut i: usize = 0;
    while i < n
        invariant
            i <= n,
            n == list@.len(),
            dv == list.deep_view(),
            s@ == joined_artists(dv.take(i as int)),
        decreases n - i,
    {
        if i > 0 {
            s.append(", ");
        }
        s.append(list[i].as_str());
        proof {
            assert(dv.take(i + 1).drop_last() =~= dv.take(i as int));
            assert(dv.take(i + 1).last() == dv[i as int]);
            assert(dv[i as int] == list@[i as int]@);
        }
        i = i + 1;
    }
    proof {
        assert(dv.take(n as int) =~= dv);
    }
    s
}

/// Builds the roster body for a cycling notification.
fn roster_body(players: &Vec<PlayerInfo>, active: usize) -> (r: String)
    ensures
        r@ == roster_body_spec(names_of(players@), active as int),
{
    let ghost names = names_of(players@);
    let mut s = String::new();
    let n = players.len();
    let mut i: usize = 0;
    while i < n
        invariant
            i <= n,
            n == players@.len(),
            names == names_of(players@),
            s@ == roster_body_spec(names.take(i as int), active as int),
        decreases n - i,
    {
        if i > 0 {
            s.append("\n");
        }
        if i == active {
            s.append("\u{2192} ");
            s.append(players[i].display_name.as_str());
        } else {
            s.append("<span color=\"grey\">");
            s.append(players[i].display_name.as_str());
            s.append("</span>");
        }
        proof {
            assert(names.take(i + 1).drop_last() =~= names.take(i as int));
            assert(names.take(i + 1).last() == names[i as int]);
            assert(names[i as int] == players@[i as int].display_name@);
        }
        i = i + 1;
    }
    proof {
        assert(names.take(n as int) =~= names);
    }
    s
}

/// Builds the body of a transport notification from the metadata snapshot.
fn transport_body(metadata: &TrackMetadata) -> (r: String)
    ensures
        r@ == transport_body_spec(artists_view(*metadata), title_view(*metadata)),
{
    let mut s = match &metadata.artists {
        Some(a) => join_artists(a),
        None => String::new(),
    };
    s.append(" - ");
    match &metadata.title {
        Some(t) => s.append(t.as_str()),
        None => (),
    }
    s
}

/// Composes the confirmation notification of one invocation. The summary
/// names the action and the active player; the body is the marked roster for
/// a cycling command and the track line for a transport command; icon,
/// urgency and timeout come from the fixed per-command tables; the prior
/// notification handle is carried over unchanged so the service replaces the
/// previous popup instead of stacking a new one.
pub fn compose(
    command: Command,
    state: PlaybackState,
    players: &Vec<PlayerInfo>,
    active: usize,
    metadata: &TrackMetadata,
    prior_handle: u32,
) -> (n: NotificationPlan)
    requires
        active < players@.len(),
    ensures
        n.summary@ == summary_spec(command, state, players@[active as int].display_name@),
        n.body@ == if is_cycling(command) {
            roster_body_spec(names_of(players@), active as int)
        } else {
            transport_body_spec(artists_view(*metadata), title_view(*metadata))
        },
        n.icon@ == icon_spec(command, state),
        n.urgency == urgency_spec(command),
        n.timeout_ms == timeout_spec(command),
        n.reuse_handle == prior_handle,
{
    let summary = String::from_str(label_str(command, state)).concat(" (").concat(
        players[active].display_name.as_str(),
    ).concat(")");
    let cycling = command == Command::NextPlayer || command == Command::PreviousPlayer;
    let body = if cycling {
        roster_body(players, active)
    } else {
        transport_body(metadata)
    };
    let icon = String::from_str("/usr/share/icons/gnome/48x48/actions/").concat(
        icon_key_str(command, state),
    ).concat(".png");
    let urgency = if cycling {
        Urgency::Normal
    } else {
        Urgency::Low
    };
    let timeout_ms: u32 = if cycling {
        6000
    } else {
        1500
    };
    NotificationPlan { summary, body, icon, urgency, timeout_ms, reuse_handle: prior_handle }
}

/// The summary label of `PlayPause` agrees with the operation the dispatcher
/// issues from the same playback state: the pause label appears exactly when
/// a pause is issued.
pub proof fn lemma_play_pause_label_consistent(state: PlaybackState)
    ensures
        (resolved_op(Command::PlayPause, state) == TransportOp::Pause) <==> (action_label(
            Command::PlayPause,
            state,
        ) == "Pause"@),
{
    reveal_strlit("Pause");
    reveal_strlit("Play");
    assert("Pause"@.len() == 5);
    assert("Play"@.len() == 4);
}

} // verus!
