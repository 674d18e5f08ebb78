//! A desktop focus timer: a Pomodoro work/break scheduler and a one-shot
//! countdown driven by one shared one-second tick, together with the pure
//! presentation rules that turn the timer state into tray and status-bar text.

pub mod timer;
pub mod laws;
pub mod text;
pub mod system_media;
pub mod status_bar;
pub mod tray;
pub mod notification;
