//! The texts of the notification shown when a Pomodoro session ends.

use vstd::prelude::*;

use crate::text::str_equals;
use crate::timer::PomodoroMode;

verus! {

/// The name of a finished session's kind: `work`, or `break` for either
/// kind of break.
pub open spec fn session_label_of(mode: PomodoroMode) -> Seq<char> {
    match mode {
        PomodoroMode::Work => "work"@,
        _ => "break"@,
    }
}

/// The name of a finished session's kind, as handed to the notifier.
pub fn session_label(mode: PomodoroMode) -> (r: &'static str)
    ensures
        r@ == session_label_of(mode),
{
    match mode {
        PomodoroMode::Work => "work",
        PomodoroMode::ShortBreak | PomodoroMode::LongBreak => "break",
    }
}

/// The title and body of the notification for a finished session named
/// `label`; there is none for a name other than `work` and `break`.
pub open spec fn notification_text_of(label: Seq<char>) -> Option<(Seq<char>, Seq<char>)> {
    if label == "work"@ {
        Some(("🍅 Work session complete"@, "Time to take a break."@))
    } else if label == "break"@ {
        Some(("☕ Break finished"@, "Ready to focus again?"@))
    } else {
        None
    }
}

/// The title and body of the notification for a finished session named
/// `label`.
pub fn notification_text(label: &str) -> (r: Option<(&'static str, &'static str)>)
    ensures
        match r {
            Some((title, body)) => notification_text_of(label@) == Some((title@, body@)),
            None => notification_text_of(label@) is None,
        },
{
    if str_equals(label, "work") {
        Some(("🍅 Work session complete", "Time to take a break."))
    } else if str_equals(label, "break") {
        Some(("☕ Break finished", "Ready to focus again?"))
    } else {
        None
    }
}

} // verus!
