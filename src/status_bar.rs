//! What the menu-bar status item shows for a timer snapshot: which menu it
//! offers and its title text.

use vstd::prelude::*;

use crate::text::{clock_text, format_clock};
use crate::system_media::SystemMediaState;
use crate::timer::{
    minutes_to_seconds, seconds_of, CountdownSnapshot, FocusSound, PomodoroMode, TimerSnapshot,
};

verus! {

/// The menu the status item offers.
#[derive(Clone, Copy, Debug, PartialEq, Eq, Structural)]
pub enum MenuMode {
    PomodoroRunning,
    BreakRunning,
    CountdownRunning,
    Idle,
}

/// A running Pomodoro decides the menu (work or break); otherwise a running
/// countdown; otherwise the idle menu.
pub open spec fn menu_mode_of(s: TimerSnapshot) -> MenuMode {
    if s.pomodoro.running {
        match s.pomodoro.mode {
            PomodoroMode::Work => MenuMode::PomodoroRunning,
            _ => MenuMode::BreakRunning,
        }
    } else if s.countdown.running {
        MenuMode::CountdownRunning
    } else {
        MenuMode::Idle
    }
}

/// The menu the status item offers for `snapshot`.
pub fn menu_mode(snapshot: &TimerSnapshot) -> (r: MenuMode)
    ensures
        r == menu_mode_of(*snapshot),
{
    if snapshot.pomodoro.running {
        match snapshot.pomodoro.mode {
            PomodoroMode::Work => MenuMode::PomodoroRunning,
            PomodoroMode::ShortBreak | PomodoroMode::LongBreak => MenuMode::BreakRunning,
        }
    } else if snapshot.countdown.running {
        MenuMode::CountdownRunning
    } else {
        MenuMode::Idle
    }
}

/// A number of seconds as `MM:SS`.
pub fn format_mm_ss(total_seconds: u32) -> (r: String)
    ensures
        r@ == clock_text(total_seconds as nat),
{
    format_clock(total_seconds as u64)
}

/// The status item's title: the time left of what runs, behind a tomato for
/// work, a cup for a break and a stopwatch for the countdown.
pub open spec fn status_title_of(s: TimerSnapshot) -> Seq<char> {
    match menu_mode_of(s) {
        MenuMode::PomodoroRunning => "🍅 "@ + clock_text(s.pomodoro.remaining_seconds as nat),
        MenuMode::BreakRunning => "☕ "@ + clock_text(s.pomodoro.remaining_seconds as nat),
        MenuMode::CountdownRunning => "⏱ "@ + clock_text(s.countdown.remaining_seconds as nat),
        MenuMode::Idle => "🍅 Ready"@,
    }
}

/// The status item's title for `snapshot`.
pub fn build_title(snapshot: &TimerSnapshot) -> (r: String)
    ensures
        r@ == status_title_of(*snapshot),
{
    match menu_mode(snapshot) {
        MenuMode::PomodoroRunning => {
            let mut title = String::from_str("🍅 ");
            title.append(format_mm_ss(snapshot.pomodoro.remaining_seconds).as_str());
            title
        },
        MenuMode::BreakRunning => {
            let mut title = String::from_str("☕ ");
            title.append(format_mm_ss(snapshot.pomodoro.remaining_seconds).as_str());
            title
        },
        MenuMode::CountdownRunning => {
            let mut title = String::from_str("⏱ ");
            title.append(format_mm_ss(snapshot.countdown.remaining_seconds).as_str());
            title
        },
        MenuMode::Idle => String::from_str("🍅 Ready"),
    }
}

/// Everything the status menu is built from; the menu is rebuilt only when
/// this changes.
#[derive(Clone, Copy, Debug, PartialEq, Eq, Structural)]
pub struct MenuSignature {
    pub mode: MenuMode,
    pub countdown_running: bool,
    pub music_available: bool,
    pub music_playing: bool,
    pub supports_play_pause: bool,
    pub supports_previous: bool,
    pub supports_next: bool,
    pub focus_sound: FocusSound,
}

/// The signature of the status menu for a timer snapshot and a media state.
pub fn menu_signature(snapshot: &TimerSnapshot, media: &SystemMediaState) -> (r: MenuSignature)
    ensures
        r == (MenuSignature {
            mode: menu_mode_of(*snapshot),
            countdown_running: snapshot.countdown.running,
            music_available: media.available,
            music_playing: media.is_playing,
            supports_play_pause: media.supports_play_pause,
            supports_previous: media.supports_previous,
            supports_next: media.supports_next,
            focus_sound: snapshot.focus_sound,
        }),
{
    MenuSignature {
        mode: menu_mode(snapshot),
        countdown_running: snapshot.countdown.running,
        music_available: media.available,
        music_playing: media.is_playing,
        supports_play_pause: media.supports_play_pause,
        supports_previous: media.supports_previous,
        supports_next: media.supports_next,
        focus_sound: snapshot.focus_sound,
    }
}

/// Whether the countdown menu offers a reset: only once some of the
/// countdown has gone by.
pub fn countdown_reset_enabled(countdown: &CountdownSnapshot) -> (r: bool)
    ensures
        r == (countdown.remaining_seconds < seconds_of(countdown.duration_minutes)),
{
    countdown.remaining_seconds < minutes_to_seconds(countdown.duration_minutes)
}

} // verus!
