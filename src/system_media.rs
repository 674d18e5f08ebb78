//! The "now playing" side of the app: which media player to talk to, the
//! AppleScript sent to it, and how its replies are read. Running the scripts
//! is left to the caller.

use vstd::prelude::*;

use crate::text::{
    ascii_lowered, eq_ignore_ascii_case, field, split_fields, str_equals, trim, trimmed,
};

verus! {

/// What is known of the media that plays on the system.
#[derive(Clone, Debug, PartialEq, Eq)]
pub struct SystemMediaState {
    pub available: bool,
    pub title: String,
    pub artist: Option<String>,
    pub source: String,
    pub is_playing: bool,
    pub supports_play_pause: bool,
    pub supports_next: bool,
    pub supports_previous: bool,
}

/// The state reported when no player can be reached.
pub open spec fn is_unavailable(m: SystemMediaState) -> bool {
    &&& !m.available
    &&& m.title@ == Seq::<char>::empty()
    &&& m.artist is None
    &&& m.source@ == Seq::<char>::empty()
    &&& !m.is_playing
    &&& !m.supports_play_pause
    &&& !m.supports_next
    &&& !m.supports_previous
}

impl SystemMediaState {
    /// The state reported when no player can be reached.
    pub fn unavailable() -> (r: Self)
        ensures
            is_unavailable(r),
    {
        SystemMediaState {
            available: false,
            title: String::new(),
            artist: None,
            source: String::new(),
            is_playing: false,
            supports_play_pause: false,
            supports_next: false,
            supports_previous: false,
        }
    }
}

/// The player to control: Music when it runs, else Spotify when it runs.
pub open spec fn media_player_of(music_running: bool, spotify_running: bool) -> Option<Seq<char>> {
    if music_running {
        Some("Music"@)
    } else if spotify_running {
        Some("Spotify"@)
    } else {
        None
    }
}

/// Picks the player to control from which of Music and Spotify run; whether
/// Spotify runs matters only when Music does not.
pub fn resolve_media_player(music_running: bool, spotify_running: bool) -> (r: Option<String>)
    ensures
        r.deep_view() == media_player_of(music_running, spotify_running),
{
    if music_running {
        Some(String::from_str("Music"))
    } else if spotify_running {
        Some(String::from_str("Spotify"))
    } else {
        None
    }
}

/// The AppleScript line `tell application "<app>" to <command>`.
pub open spec fn tell_script(app: Seq<char>, command: Seq<char>) -> Seq<char> {
    "tell application \""@ + app + "\" to "@ + command
}

fn tell(app: &str, command: &str) -> (r: String)
    ensures
        r@ == tell_script(app@, command@),
{
    let mut script = String::from_str("tell application \"");
    script.append(app);
    script.append("\" to ");
    script.append(command);
    script
}

/// The player command for a media action name, if it is one.
pub open spec fn media_command_of(action: Seq<char>) -> Option<Seq<char>> {
    if action == "play_pause"@ {
        Some("playpause"@)
    } else if action == "previous"@ {
        Some("previous track"@)
    } else if action == "next"@ {
        Some("next track"@)
    } else {
        None
    }
}

fn media_command(action: &str) -> (r: Option<&'static str>)
    ensures
        r.deep_view() == media_command_of(action@),
{
    if str_equals(action, "play_pause") {
        Some("playpause")
    } else if str_equals(action, "previous") {
        Some("previous track")
    } else if str_equals(action, "next") {
        Some("next track")
    } else {
        None
    }
}

/// The script that performs `action` on `player`: none when there is no
/// player to talk to or the action is not one of `play_pause`, `previous`
/// and `next`.
pub fn control_media_action(player: &Option<String>, action: &str) -> (r: Option<String>)
    ensures
        r.deep_view() == (match (player.deep_view(), media_command_of(action@)) {
            (Some(p), Some(c)) => Some(tell_script(p, c)),
            _ => None,
        }),
{
    match player {
        None => None,
        Some(p) => match media_command(action) {
            None => None,
            Some(command) => Some(tell(p.as_str(), command)),
        },
    }
}

/// The script that asks whether a process of the given name runs.
pub open spec fn process_query_script_of(process_name: Seq<char>) -> Seq<char> {
    "tell application \"System Events\" to (name of processes) contains \""@ + process_name
        + "\""@
}

/// Builds the script that asks whether a process of the given name runs.
pub fn process_query_script(process_name: &str) -> (r: String)
    ensures
        r@ == process_query_script_of(process_name@),
{
    let mut script = String::from_str(
        "tell application \"System Events\" to (name of processes) contains \"",
    );
    script.append(process_name);
    script.append("\"");
    script
}

/// Reads the reply to the process query: the process runs when the script
/// answered `true`, in any case and with white space around it.
pub fn process_running_from_reply(reply: &Option<String>) -> (r: bool)
    ensures
        r == (match reply {
            Some(o) => ascii_lowered(trimmed(o@)) == ascii_lowered("true"@),
            None => false,
        }),
{
    match reply {
        Some(o) => eq_ignore_ascii_case(trim(o.as_str()), "true"),
        None => false,
    }
}

/// The script that asks a player for its current track's name and artist
/// and its state, separated by `||`.
pub open spec fn metadata_script_of(player: Seq<char>) -> Seq<char> {
    tell_script(
        player,
        "return (name of current track) & \"||\" & (artist of current track) & \"||\" & (player state as string)"@,
    )
}

/// Builds the script that asks a player for its current track and state.
pub fn player_metadata_script(player: &str) -> (r: String)
    ensures
        r@ == metadata_script_of(player@),
{
    tell(
        player,
        "return (name of current track) & \"||\" & (artist of current track) & \"||\" & (player state as string)",
    )
}

/// Field `j` of a reply when it is there and not empty.
pub open spec fn non_empty_field(s: Seq<char>, j: nat) -> Option<Seq<char>> {
    match field(s, j) {
        Some(f) => if f.len() > 0 {
            Some(f)
        } else {
            None
        },
        None => None,
    }
}

/// The title, artist and playing flag read from a player's reply: the first
/// field is the title, the second the artist when it is not empty, and the
/// player plays when the third field is `playing`, in any case and with white
/// space around it.
pub open spec fn metadata_of(reply: Seq<char>) -> (Seq<char>, Option<Seq<char>>, bool) {
    (
        field(reply, 0)->0,
        non_empty_field(reply, 1),
        match field(reply, 2) {
            Some(p) => ascii_lowered(trimmed(p)) == ascii_lowered("playing"@),
            None => false,
        },
    )
}

/// Reads a player's reply to the metadata script.
pub fn parse_player_metadata(reply: &str) -> (r: (String, Option<String>, bool))
    ensures
        (r.0@, r.1.deep_view(), r.2) == metadata_of(reply@),
{
    let parts = split_fields(reply);
    let title = parts[0].clone();
    let artist = if parts.len() > 1 && parts[1].unicode_len() > 0 {
        Some(parts[1].clone())
    } else {
        None
    };
    let is_playing = parts.len() > 2 && eq_ignore_ascii_case(trim(parts[2].as_str()), "playing");
    (title, artist, is_playing)
}

/// The media state built from the player that was found, if any, and what it
/// reported of its track: a found player is available and supports every
/// control, and a failed query leaves an empty title, no artist and not
/// playing.
pub open spec fn media_state_is(
    m: SystemMediaState,
    player: Option<Seq<char>>,
    metadata: Option<(Seq<char>, Option<Seq<char>>, bool)>,
) -> bool {
    match player {
        None => is_unavailable(m),
        Some(p) => {
            let (title, artist, playing) = match metadata {
                Some(md) => md,
                None => (Seq::<char>::empty(), None, false),
            };
            &&& m.available
            &&& m.title@ == title
            &&& m.artist.deep_view() == artist
            &&& m.source@ == p
            &&& m.is_playing == playing
            &&& m.supports_play_pause
            &&& m.supports_next
            &&& m.supports_previous
        },
    }
}

/// Builds the media state from the player that was found and the result of
/// asking it for its track.
pub fn system_media_state(
    player: Option<String>,
    metadata: Option<(String, Option<String>, bool)>,
) -> (r: SystemMediaState)
    ensures
        media_state_is(
            r,
            player.deep_view(),
            match metadata {
                Some(md) => Some((md.0@, md.1.deep_view(), md.2)),
                None => None,
            },
        ),
{
    match player {
        None => SystemMediaState::unavailable(),
        Some(source) => {
            let (title, artist, is_playing) = match metadata {
                Some(md) => md,
                None => (String::new(), None, false),
            };
            SystemMediaState {
                available: true,
                title,
                artist,
                source,
                is_playing,
                supports_play_pause: true,
                supports_next: true,
                supports_previous: true,
            }
        },
    }
}

/// Field `j` of a reply, or empty text when it is missing.
pub open spec fn field_or_empty(s: Seq<char>, j: nat) -> Seq<char> {
    match field(s, j) {
        Some(f) => f,
        None => Seq::<char>::empty(),
    }
}

/// The media state described by the reply of the combined player query,
/// whose fields are title, artist, source, player state and whether next
/// and previous are supported: an empty reply means nothing plays; the
/// artist is kept when not empty, the state `playing` means playing, the
/// flags hold when their field is exactly `true`, and every source but
/// Safari supports play/pause.
pub open spec fn media_state_of_reply(m: SystemMediaState, reply: Seq<char>) -> bool {
    if reply.len() == 0 {
        is_unavailable(m)
    } else {
        &&& m.available
        &&& m.title@ == field_or_empty(reply, 0)
        &&& m.artist.deep_view() == non_empty_field(reply, 1)
        &&& m.source@ == field_or_empty(reply, 2)
        &&& m.is_playing == (field_or_empty(reply, 3) == "playing"@)
        &&& m.supports_next == (field(reply, 4) == Some("true"@))
        &&& m.supports_previous == (field(reply, 5) == Some("true"@))
        &&& m.supports_play_pause == (field_or_empty(reply, 2) != "Safari"@)
    }
}

/// Field `j` of the split reply, or empty text when it is missing.
fn field_text(parts: &Vec<String>, j: usize) -> (r: &str)
    ensures
        j < parts@.len() ==> r@ == parts@[j as int]@,
        j >= parts@.len() ==> r@ == Seq::<char>::empty(),
{
    if j < parts.len() {
        parts[j].as_str()
    } else {
        proof {
            reveal_strlit("");
        }
        ""
    }
}

/// Reads the reply of the combined player query.
pub fn media_state_from_reply(reply: &str) -> (r: SystemMediaState)
    ensures
        media_state_of_reply(r, reply@),
{
    if reply.unicode_len() == 0 {
        return SystemMediaState::unavailable();
    }
    let parts = split_fields(reply);
    let title = String::from_str(field_text(&parts, 0));
    let artist = if parts.len() > 1 && parts[1].unicode_len() > 0 {
        Some(parts[1].clone())
    } else {
        None
    };
    let source = String::from_str(field_text(&parts, 2));
    let state = field_text(&parts, 3);
    let supports_next = parts.len() > 4 && str_equals(parts[4].as_str(), "true");
    let supports_previous = parts.len() > 5 && str_equals(parts[5].as_str(), "true");
    let is_playing = str_equals(state, "playing");
    let supports_play_pause = !str_equals(source.as_str(), "Safari");
    SystemMediaState {
        available: true,
        title,
        artist,
        source,
        is_playing,
        supports_play_pause,
        supports_next,
        supports_previous,
    }
}

/// The script that sends `command` to the first of Spotify and Music that
/// runs and has a track playing or paused; it does nothing when neither has.
pub open spec fn player_control_script_of(command: Seq<char>) -> Seq<char> {
    "\nif application \"Spotify\" is running then\n  tell application \"Spotify\"\n    if player state is playing or player state is paused then\n      "@
        + command
        + "\n      return \"\"\n    end if\n  end tell\nend if\n\nif application \"Music\" is running then\n  tell application \"Music\"\n    if player state is playing or player state is paused then\n      "@
        + command + "\n      return \"\"\n    end if\n  end tell\nend if\n\nreturn \"\"\n"@
}

/// The script that performs a media action on whichever player has a
/// track; none when the action is not one of `play_pause`, `previous` and
/// `next`.
pub fn player_control_script(action: &str) -> (r: Option<String>)
    ensures
        r.deep_view() == (match media_command_of(action@) {
            Some(c) => Some(player_control_script_of(c)),
            None => None,
        }),
{
    match media_command(action) {
        None => None,
        Some(command) => {
            let mut script = String::from_str(
                "\nif application \"Spotify\" is running then\n  tell application \"Spotify\"\n    if player state is playing or player state is paused then\n      ",
            );
            script.append(command);
            script.append(
                "\n      return \"\"\n    end if\n  end tell\nend if\n\nif application \"Music\" is running then\n  tell application \"Music\"\n    if player state is playing or player state is paused then\n      ",
            );
            script.append(command);
            script.append("\n      return \"\"\n    end if\n  end tell\nend if\n\nreturn \"\"\n");
            Some(script)
        },
    }
}

} // verus!
