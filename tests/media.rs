use pomodoro_timer::system_media::{
    control_media_action, media_state_from_reply, parse_player_metadata, player_control_script,
    player_metadata_script,
    process_query_script, process_running_from_reply, resolve_media_player, system_media_state,
    SystemMediaState,
};
use pomodoro_timer::text::{eq_ignore_ascii_case, split_fields, str_equals};

#[test]
fn player_preference() {
    assert_eq!(resolve_media_player(true, true), Some("Music".to_string()));
    assert_eq!(resolve_media_player(true, false), Some("Music".to_string()));
    assert_eq!(resolve_media_player(false, true), Some("Spotify".to_string()));
    assert_eq!(resolve_media_player(false, false), None);
}

#[test]
fn control_scripts() {
    let music = Some("Music".to_string());
    assert_eq!(
        control_media_action(&music, "play_pause"),
        Some("tell application \"Music\" to playpause".to_string())
    );
    assert_eq!(
        control_media_action(&music, "previous"),
        Some("tell application \"Music\" to previous track".to_string())
    );
    assert_eq!(
        control_media_action(&Some("Spotify".to_string()), "next"),
        Some("tell application \"Spotify\" to next track".to_string())
    );
    assert_eq!(control_media_action(&music, "stop"), None);
    assert_eq!(control_media_action(&None, "next"), None);
}

#[test]
fn query_scripts() {
    assert_eq!(
        process_query_script("Spotify"),
        "tell application \"System Events\" to (name of processes) contains \"Spotify\""
    );
    assert_eq!(
        player_metadata_script("Music"),
        "tell application \"Music\" to return (name of current track) & \"||\" & (artist of current track) & \"||\" & (player state as string)"
    );
}

#[test]
fn process_reply_is_trimmed_and_case_blind() {
    assert!(process_running_from_reply(&Some("true".to_string())));
    assert!(process_running_from_reply(&Some("  TRUE \n".to_string())));
    assert!(!process_running_from_reply(&Some("false".to_string())));
    assert!(!process_running_from_reply(&Some("".to_string())));
    assert!(!process_running_from_reply(&None));
}

#[test]
fn player_metadata_fields() {
    assert_eq!(
        parse_player_metadata("Song||Band||playing"),
        ("Song".to_string(), Some("Band".to_string()), true)
    );
    assert_eq!(
        parse_player_metadata("Song||||Paused"),
        ("Song".to_string(), None, false)
    );
    assert_eq!(
        parse_player_metadata("Song|| Band || PLAYING \n"),
        ("Song".to_string(), Some(" Band ".to_string()), true)
    );
    assert_eq!(parse_player_metadata("Only"), ("Only".to_string(), None, false));
    assert_eq!(parse_player_metadata(""), ("".to_string(), None, false));
}

#[test]
fn media_state_from_player_and_metadata() {
    assert_eq!(system_media_state(None, None), SystemMediaState::unavailable());
    let s = system_media_state(
        Some("Spotify".to_string()),
        Some(("Song".to_string(), Some("Band".to_string()), true)),
    );
    assert!(s.available);
    assert_eq!(s.title, "Song");
    assert_eq!(s.artist, Some("Band".to_string()));
    assert_eq!(s.source, "Spotify");
    assert!(s.is_playing);
    assert!(s.supports_play_pause && s.supports_next && s.supports_previous);
    let s = system_media_state(Some("Music".to_string()), None);
    assert!(s.available);
    assert_eq!(s.title, "");
    assert_eq!(s.artist, None);
    assert!(!s.is_playing);
}

#[test]
fn combined_reply_parsing() {
    assert_eq!(media_state_from_reply(""), SystemMediaState::unavailable());
    let s = media_state_from_reply("Song||Band||Spotify||playing||true||true");
    assert_eq!(
        s,
        SystemMediaState {
            available: true,
            title: "Song".to_string(),
            artist: Some("Band".to_string()),
            source: "Spotify".to_string(),
            is_playing: true,
            supports_play_pause: true,
            supports_next: true,
            supports_previous: true,
        }
    );
    let s = media_state_from_reply("Video||||Safari||playing||false||false");
    assert_eq!(s.artist, None);
    assert!(!s.supports_play_pause);
    assert!(!s.supports_next);
    assert!(!s.supports_previous);
    assert!(s.is_playing);
    let s = media_state_from_reply("Song||Band||Music||paused");
    assert!(!s.is_playing);
    assert!(s.supports_play_pause);
    assert!(!s.supports_next);
    assert!(!s.supports_previous);
}

#[test]
fn text_helpers() {
    assert_eq!(split_fields("a||b||c"), vec!["a", "b", "c"]);
    assert_eq!(split_fields("a|||b"), vec!["a", "|b"]);
    assert_eq!(split_fields("||"), vec!["", ""]);
    assert_eq!(split_fields("abc"), vec!["abc"]);
    assert_eq!(split_fields(""), vec![""]);
    assert_eq!(split_fields("é||ü"), vec!["é", "ü"]);
    assert!(str_equals("work", "work"));
    assert!(!str_equals("work", "Work"));
    assert!(!str_equals("work", "works"));
    assert!(eq_ignore_ascii_case("PlayIng", "playing"));
    assert!(!eq_ignore_ascii_case("playing", "paused!"));
}

#[test]
fn player_control_scripts() {
    let next = "
if application \"Spotify\" is running then
  tell application \"Spotify\"
    if player state is playing or player state is paused then
      next track
      return \"\"
    end if
  end tell
end if

if application \"Music\" is running then
  tell application \"Music\"
    if player state is playing or player state is paused then
      next track
      return \"\"
    end if
  end tell
end if

return \"\"
";
    assert_eq!(player_control_script("next"), Some(next.to_string()));
    let play_pause = player_control_script("play_pause").unwrap();
    assert_eq!(play_pause, next.replace("next track", "playpause"));
    let previous = player_control_script("previous").unwrap();
    assert_eq!(previous, next.replace("next track", "previous track"));
    assert_eq!(player_control_script("louder"), None);
}
