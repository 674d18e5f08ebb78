//! What the system tray shows for the state the window reports: the menu it
//! offers, its switches, and its title.

use vstd::prelude::*;

use crate::text::{clock_text, format_clock, str_equals};

verus! {

/// The Pomodoro part of the state the window reports.
#[derive(Clone, Debug, PartialEq, Eq)]
pub struct PomodoroSnapshot {
    pub running: bool,
    pub active: bool,
    pub mode: String,
    pub remaining_seconds: u64,
    pub total_seconds: u64,
}

/// The countdown part of the state the window reports.
#[derive(Clone, Debug, PartialEq, Eq)]
pub struct CountdownSnapshot {
    pub running: bool,
    pub active: bool,
    pub remaining_seconds: u64,
    pub total_seconds: u64,
}

/// The audio part of the state the window reports.
#[derive(Clone, Debug, PartialEq, Eq)]
pub struct AudioSnapshot {
    pub active_source: String,
    pub is_playing: bool,
    pub play_pause_enabled: bool,
    pub previous_enabled: bool,
    pub next_enabled: bool,
    pub focus_sound: String,
}

/// The state the window reports so that the tray can follow it.
#[derive(Clone, Debug, PartialEq, Eq)]
pub struct MenuSyncPayload {
    pub pomodoro: PomodoroSnapshot,
    pub countdown: CountdownSnapshot,
    pub audio: AudioSnapshot,
}

/// The menu the tray offers.
#[derive(Clone, Copy, Debug, PartialEq, Eq, Structural)]
pub enum MenuMode {
    Pomodoro,
    Break,
    Countdown,
    Idle,
}

/// Everything the tray menu is built from; the menu is rebuilt only when
/// this changes.
#[derive(Clone, Debug, PartialEq, Eq)]
pub struct MenuPresentation {
    pub mode: MenuMode,
    pub play_pause_label: String,
    pub play_pause_enabled: bool,
    pub previous_enabled: bool,
    pub next_enabled: bool,
    pub focus_sound: String,
    pub countdown_running: bool,
    pub countdown_active: bool,
}

/// A number of seconds as `MM:SS`.
pub fn format_duration(total_seconds: u64) -> (r: String)
    ensures
        r@ == clock_text(total_seconds as nat),
{
    format_clock(total_seconds)
}

/// An active Pomodoro decides the menu (work when its mode is `work`, else a
/// break); otherwise a running countdown; otherwise the idle menu.
pub open spec fn tray_mode_of(p: MenuSyncPayload) -> MenuMode {
    if p.pomodoro.active {
        if p.pomodoro.mode@ != "work"@ {
            MenuMode::Break
        } else {
            MenuMode::Pomodoro
        }
    } else if p.countdown.running {
        MenuMode::Countdown
    } else {
        MenuMode::Idle
    }
}

/// The tray title: the time left of what runs, behind a tomato for work, a
/// cup for a break and a stopwatch for the countdown.
pub open spec fn tray_title_of(p: MenuSyncPayload) -> Seq<char> {
    match tray_mode_of(p) {
        MenuMode::Pomodoro => "🍅 "@ + clock_text(p.pomodoro.remaining_seconds as nat),
        MenuMode::Break => "☕ "@ + clock_text(p.pomodoro.remaining_seconds as nat),
        MenuMode::Countdown => "⏱ "@ + clock_text(p.countdown.remaining_seconds as nat),
        MenuMode::Idle => "🍅 Ready"@,
    }
}

/// The presentation built from `p`: the menu of `tray_mode_of`, a pause label
/// while audio plays and a play label otherwise, and the audio switches,
/// focus sound and countdown flags as reported.
pub open spec fn presentation_of(m: MenuPresentation, p: MenuSyncPayload) -> bool {
    &&& m.mode == tray_mode_of(p)
    &&& m.play_pause_label@ == (if p.audio.is_playing {
        "⏸ Pause"@
    } else {
        "▶ Play"@
    })
    &&& m.play_pause_enabled == p.audio.play_pause_enabled
    &&& m.previous_enabled == p.audio.previous_enabled
    &&& m.next_enabled == p.audio.next_enabled
    &&& m.focus_sound@ == p.audio.focus_sound@
    &&& m.countdown_running == p.countdown.running
    &&& m.countdown_active == p.countdown.active
}

fn with_clock(prefix: &str, total_seconds: u64) -> (r: String)
    ensures
        r@ == prefix@ + clock_text(total_seconds as nat),
{
    let mut title = String::from_str(prefix);
    title.append(format_duration(total_seconds).as_str());
    title
}

/// The tray menu's presentation and the tray title for the reported state.
pub fn build_presentation(payload: &MenuSyncPayload) -> (r: (MenuPresentation, String))
    ensures
        presentation_of(r.0, *payload),
        r.1@ == tray_title_of(*payload),
{
    let pomodoro_active = payload.pomodoro.active;
    let is_break = !str_equals(payload.pomodoro.mode.as_str(), "work");
    let countdown_running = payload.countdown.running;
    let menu_mode = if pomodoro_active {
        if is_break {
            MenuMode::Break
        } else {
            MenuMode::Pomodoro
        }
    } else if countdown_running {
        MenuMode::Countdown
    } else {
        MenuMode::Idle
    };
    let play_pause_label = if payload.audio.is_playing {
        "⏸ Pause"
    } else {
        "▶ Play"
    };
    let title = if pomodoro_active {
        if is_break {
            with_clock("☕ ", payload.pomodoro.remaining_seconds)
        } else {
            with_clock("🍅 ", payload.pomodoro.remaining_seconds)
        }
    } else if countdown_running {
        with_clock("⏱ ", payload.countdown.remaining_seconds)
    } else {
        String::from_str("🍅 Ready")
    };
    (
        MenuPresentation {
            mode: menu_mode,
            play_pause_label: String::from_str(play_pause_label),
            play_pause_enabled: payload.audio.play_pause_enabled,
            previous_enabled: payload.audio.previous_enabled,
            next_enabled: payload.audio.next_enabled,
            focus_sound: payload.audio.focus_sound.clone(),
            countdown_running: payload.countdown.running,
            countdown_active: payload.countdown.active,
        },
        title,
    )
}

/// What a click on a tray menu item asks for.
#[derive(Clone, Debug, PartialEq, Eq)]
pub enum TrayCommand {
    /// Show the main window, switched to `tab` when one is given.
    ShowWindow { tab: Option<String> },
    /// Quit the application.
    Quit,
    /// Hand `action`, with `value` if any, to the window.
    Forward { action: String, value: Option<String> },
}

/// The menu items whose click is handed to the window under their own name.
pub open spec fn forwarded_as_is(id: Seq<char>) -> bool {
    id == "pomodoro_start"@ || id == "pomodoro_pause"@ || id == "pomodoro_reset"@ || id
        == "break_start"@ || id == "break_skip"@ || id == "countdown_start"@ || id
        == "countdown_pause"@ || id == "countdown_reset"@ || id == "music_play_pause"@ || id
        == "music_previous"@ || id == "music_next"@
}

/// The focus sound that a focus menu item picks.
pub open spec fn focus_value_of(id: Seq<char>) -> Option<Seq<char>> {
    if id == "focus_sound_off"@ {
        Some("off"@)
    } else if id == "focus_sound_white"@ {
        Some("white"@)
    } else if id == "focus_sound_rain"@ {
        Some("rain"@)
    } else if id == "focus_sound_brown"@ {
        Some("brown"@)
    } else {
        None
    }
}

/// Whether `c` is what a click on the item `id` asks for: the open items
/// show the window (on the music or countdown tab for theirs), `quit` quits,
/// the timer and music items are handed on under their own name, a focus
/// item is handed on as `focus_sound` with its sound, and any other item asks
/// for nothing.
pub open spec fn tray_command_for(c: Option<TrayCommand>, id: Seq<char>) -> bool {
    if id == "open_app"@ {
        c matches Some(TrayCommand::ShowWindow { tab }) && tab is None
    } else if id == "open_music"@ {
        c matches Some(TrayCommand::ShowWindow { tab }) && tab.deep_view() == Some("music"@)
    } else if id == "open_countdown"@ {
        c matches Some(TrayCommand::ShowWindow { tab }) && tab.deep_view() == Some("countdown"@)
    } else if id == "quit"@ {
        c == Some(TrayCommand::Quit)
    } else if forwarded_as_is(id) {
        c matches Some(TrayCommand::Forward { action, value }) && action@ == id && value is None
    } else if focus_value_of(id) is Some {
        c matches Some(TrayCommand::Forward { action, value }) && action@ == "focus_sound"@
            && value.deep_view() == focus_value_of(id)
    } else {
        c is None
    }
}

fn show_tab(tab: &str) -> (r: Option<TrayCommand>)
    ensures
        r matches Some(TrayCommand::ShowWindow { tab: t }) && t.deep_view() == Some(tab@),
{
    Some(TrayCommand::ShowWindow { tab: Some(String::from_str(tab)) })
}

fn forward_focus(sound: &str) -> (r: Option<TrayCommand>)
    ensures
        r matches Some(TrayCommand::Forward { action, value }) && action@ == "focus_sound"@
            && value.deep_view() == Some(sound@),
{
    Some(
        TrayCommand::Forward {
            action: String::from_str("focus_sound"),
            value: Some(String::from_str(sound)),
        },
    )
}

/// What a click on the tray menu item `id` asks for.
pub fn tray_menu_command(id: &str) -> (r: Option<TrayCommand>)
    ensures
        tray_command_for(r, id@),
{
    if str_equals(id, "open_app") {
        Some(TrayCommand::ShowWindow { tab: None })
    } else if str_equals(id, "open_music") {
        show_tab("music")
    } else if str_equals(id, "open_countdown") {
        show_tab("countdown")
    } else if str_equals(id, "quit") {
        Some(TrayCommand::Quit)
    } else if str_equals(id, "pomodoro_start") || str_equals(id, "pomodoro_pause")
        || str_equals(id, "pomodoro_reset") || str_equals(id, "break_start") || str_equals(
        id,
        "break_skip",
    ) || str_equals(id, "countdown_start") || str_equals(id, "countdown_pause") || str_equals(
        id,
        "countdown_reset",
    ) || str_equals(id, "music_play_pause") || str_equals(id, "music_previous") || str_equals(
        id,
        "music_next",
    ) {
        Some(TrayCommand::Forward { action: String::from_str(id), value: None })
    } else if str_equals(id, "focus_sound_off") {
        forward_focus("off")
    } else if str_equals(id, "focus_sound_white") {
        forward_focus("white")
    } else if str_equals(id, "focus_sound_rain") {
        forward_focus("rain")
    } else if str_equals(id, "focus_sound_brown") {
        forward_focus("brown")
    } else {
        None
    }
}

/// Whether two presentations build the same menu.
pub open spec fn same_presentation(a: MenuPresentation, b: MenuPresentation) -> bool {
    &&& a.mode == b.mode
    &&& a.play_pause_label@ == b.play_pause_label@
    &&& a.play_pause_enabled == b.play_pause_enabled
    &&& a.previous_enabled == b.previous_enabled
    &&& a.next_enabled == b.next_enabled
    &&& a.focus_sound@ == b.focus_sound@
    &&& a.countdown_running == b.countdown_running
    &&& a.countdown_active == b.countdown_active
}

/// Whether the tray menu has to be rebuilt for `next`: when none was built
/// yet or the last one was built from a different presentation.
pub fn presentation_changed(last: &Option<MenuPresentation>, next: &MenuPresentation) -> (r: bool)
    ensures
        r == (match last {
            Some(l) => !same_presentation(*l, *next),
            None => true,
        }),
{
    match last {
        None => true,
        Some(l) => !(l.mode == next.mode && str_equals(
            l.play_pause_label.as_str(),
            next.play_pause_label.as_str(),
        ) && l.play_pause_enabled == next.play_pause_enabled && l.previous_enabled
            == next.previous_enabled && l.next_enabled == next.next_enabled && str_equals(
            l.focus_sound.as_str(),
            next.focus_sound.as_str(),
        ) && l.countdown_running == next.countdown_running && l.countdown_active
            == next.countdown_active),
    }
}

} // verus!
