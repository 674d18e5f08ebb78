//! The timer engine: one composite state, advanced by ticks and changed by
//! commands, each of which is a single total transition.

use vstd::prelude::*;

verus! {

/// Seconds that pass between a finished session and the automatic start of
/// the next one.
pub const AUTO_START_DELAY_SECONDS: u32 = 5;

/// The kind of Pomodoro session.
#[derive(Clone, Copy, Debug, PartialEq, Eq, Structural)]
pub enum PomodoroMode {
    Work,
    ShortBreak,
    LongBreak,
}

/// A background sound picked for focus; it has no effect on the timers.
#[derive(Clone, Copy, Debug, PartialEq, Eq, Structural)]
pub enum FocusSound {
    Off,
    White,
    Rain,
    Brown,
}

/// The Pomodoro settings, always replaced as a whole.
#[derive(Clone, Copy, Debug, PartialEq, Eq, Structural)]
pub struct PomodoroSettings {
    pub work_minutes: u32,
    pub short_break_minutes: u32,
    pub long_break_minutes: u32,
    pub sessions_before_long_break: u32,
    pub auto_long_break: bool,
    pub pause_music_on_break: bool,
}

/// The state of the Pomodoro scheduler.
#[derive(Clone, Copy, Debug, PartialEq, Eq, Structural)]
pub struct PomodoroSnapshot {
    pub mode: PomodoroMode,
    pub running: bool,
    pub remaining_seconds: u32,
    pub total_seconds: u32,
    pub awaiting_next_session: bool,
    pub auto_start_remaining: u32,
    pub cycle_work_sessions: u32,
    pub total_work_sessions: u32,
    pub total_sessions_completed: u32,
    pub settings: PomodoroSettings,
}

/// The state of the one-shot countdown.
#[derive(Clone, Copy, Debug, PartialEq, Eq, Structural)]
pub struct CountdownSnapshot {
    pub duration_minutes: u32,
    pub remaining_seconds: u32,
    pub running: bool,
}

/// A full, consistent copy of the engine's state.
#[derive(Clone, Copy, Debug, PartialEq, Eq, Structural)]
pub struct TimerSnapshot {
    pub pomodoro: PomodoroSnapshot,
    pub countdown: CountdownSnapshot,
    pub focus_sound: FocusSound,
}

/// Whole minutes as seconds, saturating at `u32::MAX`.
pub open spec fn seconds_of(minutes: u32) -> u32 {
    if minutes * 60 <= u32::MAX {
        (minutes * 60) as u32
    } else {
        u32::MAX
    }
}

/// The configured length, in minutes, of a session of the given kind.
pub open spec fn minutes_for_mode(mode: PomodoroMode, settings: PomodoroSettings) -> u32 {
    match mode {
        PomodoroMode::Work => settings.work_minutes,
        PomodoroMode::ShortBreak => settings.short_break_minutes,
        PomodoroMode::LongBreak => settings.long_break_minutes,
    }
}

/// Converts whole minutes to seconds, saturating at `u32::MAX`.
pub fn minutes_to_seconds(minutes: u32) -> (r: u32)
    ensures
        r == seconds_of(minutes),
{
    if minutes <= u32::MAX / 60 {
        minutes * 60
    } else {
        u32::MAX
    }
}

/// The configured length, in minutes, of a session of the given kind.
pub fn duration_for_mode(mode: PomodoroMode, settings: &PomodoroSettings) -> (r: u32)
    ensures
        r == minutes_for_mode(mode, *settings),
{
    match mode {
        PomodoroMode::Work => settings.work_minutes,
        PomodoroMode::ShortBreak => settings.short_break_minutes,
        PomodoroMode::LongBreak => settings.long_break_minutes,
    }
}

/// `n + 1`, saturating at `u32::MAX`.
pub open spec fn incremented(n: u32) -> u32 {
    if n < u32::MAX {
        (n + 1) as u32
    } else {
        u32::MAX
    }
}

/// What holds of every state the engine can reach: a session is never both
/// running and waiting to start, the auto-start delay is pending exactly while
/// waiting and never longer than the fixed delay, and the countdown never has
/// more left than its full duration.
pub open spec fn timer_invariant(s: TimerSnapshot) -> bool {
    &&& !(s.pomodoro.running && s.pomodoro.awaiting_next_session)
    &&& (s.pomodoro.awaiting_next_session <==> s.pomodoro.auto_start_remaining > 0)
    &&& s.pomodoro.auto_start_remaining <= AUTO_START_DELAY_SECONDS
    &&& s.countdown.remaining_seconds <= seconds_of(s.countdown.duration_minutes)
}

/// The state the engine starts in: 25/5/15 minutes, a long break after four
/// work sessions, and a 25-minute countdown, nothing running.
pub open spec fn initial_timer() -> TimerSnapshot {
    TimerSnapshot {
        pomodoro: PomodoroSnapshot {
            mode: PomodoroMode::Work,
            running: false,
            remaining_seconds: 1500,
            total_seconds: 1500,
            awaiting_next_session: false,
            auto_start_remaining: 0,
            cycle_work_sessions: 0,
            total_work_sessions: 0,
            total_sessions_completed: 0,
            settings: PomodoroSettings {
                work_minutes: 25,
                short_break_minutes: 5,
                long_break_minutes: 15,
                sessions_before_long_break: 4,
                auto_long_break: true,
                pause_music_on_break: false,
            },
        },
        countdown: CountdownSnapshot { duration_minutes: 25, remaining_seconds: 1500, running: false },
        focus_sound: FocusSound::Off,
    }
}

/// The work-session count of the current cycle once the session in `p` ends.
pub open spec fn cycle_after_completion(p: PomodoroSnapshot) -> u32 {
    match p.mode {
        PomodoroMode::Work => incremented(p.cycle_work_sessions),
        PomodoroMode::ShortBreak => p.cycle_work_sessions,
        PomodoroMode::LongBreak => 0,
    }
}

/// The kind of session that follows the session in `p`: after work a long
/// break once the cycle (counting the session just ended) reaches the
/// threshold and long breaks are on, else a short break; after any break, work.
pub open spec fn mode_after_completion(p: PomodoroSnapshot) -> PomodoroMode {
    match p.mode {
        PomodoroMode::Work => if p.settings.auto_long_break && cycle_after_completion(p)
            >= p.settings.sessions_before_long_break {
            PomodoroMode::LongBreak
        } else {
            PomodoroMode::ShortBreak
        },
        _ => PomodoroMode::Work,
    }
}

/// The Pomodoro state right after the session in `p` has run out: stopped,
/// waiting for the auto-start delay, counters advanced, and the next session
/// loaded at its full length.
pub open spec fn completed_session(p: PomodoroSnapshot) -> PomodoroSnapshot {
    let mode = mode_after_completion(p);
    let total = seconds_of(minutes_for_mode(mode, p.settings));
    PomodoroSnapshot {
        mode,
        running: false,
        remaining_seconds: total,
        total_seconds: total,
        awaiting_next_session: true,
        auto_start_remaining: AUTO_START_DELAY_SECONDS,
        cycle_work_sessions: cycle_after_completion(p),
        total_work_sessions: if p.mode == PomodoroMode::Work {
            incremented(p.total_work_sessions)
        } else {
            p.total_work_sessions
        },
        total_sessions_completed: incremented(p.total_sessions_completed),
        settings: p.settings,
    }
}

/// Whether one tick ends the session in `p`.
pub open spec fn tick_completes(p: PomodoroSnapshot) -> bool {
    p.running && p.remaining_seconds <= 1
}

/// The Pomodoro state one second later.
pub open spec fn pomodoro_ticked(p: PomodoroSnapshot) -> PomodoroSnapshot {
    if p.running {
        if p.remaining_seconds <= 1 {
            completed_session(p)
        } else {
            PomodoroSnapshot { remaining_seconds: (p.remaining_seconds - 1) as u32, ..p }
        }
    } else if p.awaiting_next_session {
        if p.auto_start_remaining <= 1 {
            PomodoroSnapshot {
                auto_start_remaining: 0,
                awaiting_next_session: false,
                running: true,
                ..p
            }
        } else {
            PomodoroSnapshot { auto_start_remaining: (p.auto_start_remaining - 1) as u32, ..p }
        }
    } else {
        p
    }
}

/// The countdown one second later: it counts down while running and stops
/// at zero.
pub open spec fn countdown_ticked(c: CountdownSnapshot) -> CountdownSnapshot {
    if c.running {
        let left: u32 = if c.remaining_seconds == 0 {
            0
        } else {
            (c.remaining_seconds - 1) as u32
        };
        CountdownSnapshot { remaining_seconds: left, running: left != 0, ..c }
    } else {
        c
    }
}

/// The whole state one second later.
pub open spec fn timer_ticked(s: TimerSnapshot) -> TimerSnapshot {
    TimerSnapshot {
        pomodoro: pomodoro_ticked(s.pomodoro),
        countdown: countdown_ticked(s.countdown),
        focus_sound: s.focus_sound,
    }
}

/// The state after `n` ticks with no command in between.
pub open spec fn timer_ticked_n(s: TimerSnapshot, n: nat) -> TimerSnapshot
    decreases n,
{
    if n == 0 {
        s
    } else {
        timer_ticked_n(timer_ticked(s), (n - 1) as nat)
    }
}

/// The Pomodoro state once `settings` replace the current ones: the total is
/// recomputed for the current kind of session; an idle session is reloaded at
/// the new total, one that runs or waits is only clamped down to it.
pub open spec fn settings_updated(p: PomodoroSnapshot, settings: PomodoroSettings) -> PomodoroSnapshot {
    let total = seconds_of(minutes_for_mode(p.mode, settings));
    PomodoroSnapshot {
        settings,
        total_seconds: total,
        remaining_seconds: if !p.running && !p.awaiting_next_session {
            total
        } else if p.remaining_seconds > total {
            total
        } else {
            p.remaining_seconds
        },
        ..p
    }
}

/// The Pomodoro state once a work session is started: it resumes what is
/// left, or starts the full work length when nothing is left.
pub open spec fn pomodoro_started(p: PomodoroSnapshot) -> PomodoroSnapshot {
    let total = seconds_of(p.settings.work_minutes);
    PomodoroSnapshot {
        mode: PomodoroMode::Work,
        total_seconds: total,
        remaining_seconds: if p.remaining_seconds == 0 {
            total
        } else {
            p.remaining_seconds
        },
        awaiting_next_session: false,
        auto_start_remaining: 0,
        running: true,
        ..p
    }
}

/// The Pomodoro state once a session of kind `mode` is started afresh at its
/// full length.
pub open spec fn session_started(p: PomodoroSnapshot, mode: PomodoroMode) -> PomodoroSnapshot {
    let total = seconds_of(minutes_for_mode(mode, p.settings));
    PomodoroSnapshot {
        mode,
        total_seconds: total,
        remaining_seconds: total,
        awaiting_next_session: false,
        auto_start_remaining: 0,
        running: true,
        ..p
    }
}

/// The Pomodoro state once paused: stopped, and a pending auto-start is
/// cancelled.
pub open spec fn pomodoro_paused(p: PomodoroSnapshot) -> PomodoroSnapshot {
    PomodoroSnapshot { running: false, awaiting_next_session: false, auto_start_remaining: 0, ..p }
}

/// The Pomodoro state once reset: stopped, with the current kind of session
/// reloaded at its full length.
pub open spec fn pomodoro_reset(p: PomodoroSnapshot) -> PomodoroSnapshot {
    let total = seconds_of(minutes_for_mode(p.mode, p.settings));
    PomodoroSnapshot {
        running: false,
        awaiting_next_session: false,
        auto_start_remaining: 0,
        total_seconds: total,
        remaining_seconds: total,
        ..p
    }
}

/// The countdown once started: it resumes what is left, or starts again from
/// its full duration when nothing is left.
pub open spec fn countdown_started(c: CountdownSnapshot) -> CountdownSnapshot {
    CountdownSnapshot {
        remaining_seconds: if c.remaining_seconds == 0 {
            seconds_of(c.duration_minutes)
        } else {
            c.remaining_seconds
        },
        running: true,
        ..c
    }
}

/// The countdown once paused: stopped, with what is left kept.
pub open spec fn countdown_paused(c: CountdownSnapshot) -> CountdownSnapshot {
    CountdownSnapshot { running: false, ..c }
}

/// The countdown once reset: stopped, at its full duration.
pub open spec fn countdown_reset(c: CountdownSnapshot) -> CountdownSnapshot {
    CountdownSnapshot { running: false, remaining_seconds: seconds_of(c.duration_minutes), ..c }
}

/// The countdown once its duration is set to `minutes`: stopped, at the new
/// full duration.
pub open spec fn countdown_with_duration(c: CountdownSnapshot, minutes: u32) -> CountdownSnapshot {
    CountdownSnapshot {
        duration_minutes: minutes,
        remaining_seconds: seconds_of(minutes),
        running: false,
    }
}

/// Advances the Pomodoro scheduler by one second; returns the kind of the
/// session that ran out, if one did.
fn advance_pomodoro(p: PomodoroSnapshot) -> (r: (PomodoroSnapshot, Option<PomodoroMode>))
    ensures
        r.0 == pomodoro_ticked(p),
        r.1 == (if tick_completes(p) {
            Some(p.mode)
        } else {
            None::<PomodoroMode>
        }),
{
    let mut pomodoro = p;
    let mut completed: Option<PomodoroMode> = None;
    if pomodoro.running {
        if pomodoro.remaining_seconds > 0 {
            pomodoro.remaining_seconds = pomodoro.remaining_seconds.saturating_sub(1);
        }
        if pomodoro.remaining_seconds == 0 {
            pomodoro.running = false;
            pomodoro.awaiting_next_session = true;
            pomodoro.auto_start_remaining = AUTO_START_DELAY_SECONDS;
            completed = Some(pomodoro.mode);
            pomodoro.total_sessions_completed = pomodoro.total_sessions_completed.saturating_add(1);
            match pomodoro.mode {
                PomodoroMode::Work => {
                    pomodoro.total_work_sessions = pomodoro.total_work_sessions.saturating_add(1);
                    pomodoro.cycle_work_sessions = pomodoro.cycle_work_sessions.saturating_add(1);
                    let should_long_break = pomodoro.settings.auto_long_break
                        && pomodoro.cycle_work_sessions
                        >= pomodoro.settings.sessions_before_long_break;
                    pomodoro.mode =
                        if should_long_break {
                            PomodoroMode::LongBreak
                        } else {
                            PomodoroMode::ShortBreak
                        };
                },
                PomodoroMode::ShortBreak => {
                    pomodoro.mode = PomodoroMode::Work;
                },
                PomodoroMode::LongBreak => {
                    pomodoro.mode = PomodoroMode::Work;
                    pomodoro.cycle_work_sessions = 0;
                },
            }
            pomodoro.total_seconds = minutes_to_seconds(
                duration_for_mode(pomodoro.mode, &pomodoro.settings),
            );
            pomodoro.remaining_seconds = pomodoro.total_seconds;
        }
    } else if pomodoro.awaiting_next_session {
        if pomodoro.auto_start_remaining > 0 {
            pomodoro.auto_start_remaining = pomodoro.auto_start_remaining.saturating_sub(1);
        }
        if pomodoro.auto_start_remaining == 0 {
            pomodoro.awaiting_next_session = false;
            pomodoro.running = true;
        }
    }
    (pomodoro, completed)
}

/// Advances the countdown by one second.
fn advance_countdown(c: CountdownSnapshot) -> (r: CountdownSnapshot)
    ensures
        r == countdown_ticked(c),
{
    let mut countdown = c;
    if countdown.running {
        countdown.remaining_seconds = countdown.remaining_seconds.saturating_sub(1);
        if countdown.remaining_seconds == 0 {
            countdown.running = false;
        }
    }
    countdown
}

/// A session of kind `mode` started afresh at its full length.
fn fresh_session(p: PomodoroSnapshot, mode: PomodoroMode) -> (r: PomodoroSnapshot)
    ensures
        r == session_started(p, mode),
{
    let mut pomodoro = p;
    pomodoro.mode = mode;
    pomodoro.total_seconds = minutes_to_seconds(duration_for_mode(mode, &pomodoro.settings));
    pomodoro.remaining_seconds = pomodoro.total_seconds;
    pomodoro.awaiting_next_session = false;
    pomodoro.auto_start_remaining = 0;
    pomodoro.running = true;
    pomodoro
}

/// The timer engine: the Pomodoro scheduler, the countdown and the focus
/// sound, changed only as one unit.
pub struct TimerEngine {
    state: TimerSnapshot,
}

impl View for TimerEngine {
    type V = TimerSnapshot;

    closed spec fn view(&self) -> TimerSnapshot {
        self.state
    }
}

impl TimerEngine {
    #[verifier::type_invariant]
    closed spec fn inv(self) -> bool {
        timer_invariant(self.state)
    }

    /// An engine in its initial state.
    pub fn new() -> (r: Self)
        ensures
            r@ == initial_timer(),
    {
        let settings = PomodoroSettings {
            work_minutes: 25,
            short_break_minutes: 5,
            long_break_minutes: 15,
            sessions_before_long_break: 4,
            auto_long_break: true,
            pause_music_on_break: false,
        };
        let total_seconds = settings.work_minutes * 60;
        TimerEngine {
            state: TimerSnapshot {
                pomodoro: PomodoroSnapshot {
                    mode: PomodoroMode::Work,
                    running: false,
                    remaining_seconds: total_seconds,
                    total_seconds,
                    awaiting_next_session: false,
                    auto_start_remaining: 0,
                    cycle_work_sessions: 0,
                    total_work_sessions: 0,
                    total_sessions_completed: 0,
                    settings,
                },
                countdown: CountdownSnapshot {
                    duration_minutes: 25,
                    remaining_seconds: 25 * 60,
                    running: false,
                },
                focus_sound: FocusSound::Off,
            },
        }
    }

    /// A copy of the whole state at this instant.
    pub fn snapshot(&self) -> (r: TimerSnapshot)
        ensures
            r == self@,
            timer_invariant(r),
    {
        proof {
            use_type_invariant(self);
        }
        self.state
    }

    /// Advances both timers by one second. Returns the kind of the Pomodoro
    /// session that ran out during this tick, if one did.
    pub fn tick(&mut self) -> (completed: Option<PomodoroMode>)
        ensures
            final(self)@ == timer_ticked(old(self)@),
            completed == (if tick_completes(old(self)@.pomodoro) {
                Some(old(self)@.pomodoro.mode)
            } else {
                None::<PomodoroMode>
            }),
    {
        proof {
            use_type_invariant(&*self);
        }
        let (pomodoro, completed) = advance_pomodoro(self.state.pomodoro);
        self.state.pomodoro = pomodoro;
        self.state.countdown = advance_countdown(self.state.countdown);
        completed
    }

    /// Replaces the settings as a whole and recomputes the current session's
    /// total; an idle session is reloaded, a running or waiting one is only
    /// clamped down.
    pub fn update_settings(&mut self, settings: PomodoroSettings)
        ensures
            final(self)@ == (TimerSnapshot {
                pomodoro: settings_updated(old(self)@.pomodoro, settings),
                ..old(self)@
            }),
    {
        proof {
            use_type_invariant(&*self);
        }
        let mut pomodoro = self.state.pomodoro;
        pomodoro.settings = settings;
        let total_seconds = minutes_to_seconds(duration_for_mode(pomodoro.mode, &settings));
        pomodoro.total_seconds = total_seconds;
        if !pomodoro.running && !pomodoro.awaiting_next_session {
            pomodoro.remaining_seconds = total_seconds;
        } else if pomodoro.remaining_seconds > total_seconds {
            pomodoro.remaining_seconds = total_seconds;
        }
        self.state.pomodoro = pomodoro;
    }

    /// Starts (or resumes) a work session.
    pub fn start_pomodoro(&mut self)
        ensures
            final(self)@ == (TimerSnapshot {
                pomodoro: pomodoro_started(old(self)@.pomodoro),
                ..old(self)@
            }),
    {
        proof {
            use_type_invariant(&*self);
        }
        let mut pomodoro = self.state.pomodoro;
        pomodoro.mode = PomodoroMode::Work;
        pomodoro.total_seconds = minutes_to_seconds(
            duration_for_mode(pomodoro.mode, &pomodoro.settings),
        );
        if pomodoro.remaining_seconds == 0 {
            pomodoro.remaining_seconds = pomodoro.total_seconds;
        }
        pomodoro.awaiting_next_session = false;
        pomodoro.auto_start_remaining = 0;
        pomodoro.running = true;
        self.state.pomodoro = pomodoro;
    }

    /// Starts a short break at its full length; a break asked for by hand is
    /// always a short one.
    pub fn start_break(&mut self)
        ensures
            final(self)@ == (TimerSnapshot {
                pomodoro: session_started(old(self)@.pomodoro, PomodoroMode::ShortBreak),
                ..old(self)@
            }),
    {
        proof {
            use_type_invariant(&*self);
        }
        self.state.pomodoro = fresh_session(self.state.pomodoro, PomodoroMode::ShortBreak);
    }

    /// Abandons a break and starts a work session at its full length.
    pub fn skip_break(&mut self)
        ensures
            final(self)@ == (TimerSnapshot {
                pomodoro: session_started(old(self)@.pomodoro, PomodoroMode::Work),
                ..old(self)@
            }),
    {
        proof {
            use_type_invariant(&*self);
        }
        self.state.pomodoro = fresh_session(self.state.pomodoro, PomodoroMode::Work);
    }

    /// Stops the Pomodoro and cancels a pending auto-start.
    pub fn pause_pomodoro(&mut self)
        ensures
            final(self)@ == (TimerSnapshot {
                pomodoro: pomodoro_paused(old(self)@.pomodoro),
                ..old(self)@
            }),
    {
        proof {
            use_type_invariant(&*self);
        }
        let mut pomodoro = self.state.pomodoro;
        pomodoro.running = false;
        pomodoro.awaiting_next_session = false;
        pomodoro.auto_start_remaining = 0;
        self.state.pomodoro = pomodoro;
    }

    /// Stops the Pomodoro and reloads the current kind of session at its full
    /// length.
    pub fn reset_pomodoro(&mut self)
        ensures
            final(self)@ == (TimerSnapshot {
                pomodoro: pomodoro_reset(old(self)@.pomodoro),
                ..old(self)@
            }),
    {
        proof {
            use_type_invariant(&*self);
        }
        let mut pomodoro = self.state.pomodoro;
        pomodoro.running = false;
        pomodoro.awaiting_next_session = false;
        pomodoro.auto_start_remaining = 0;
        pomodoro.total_seconds = minutes_to_seconds(
            duration_for_mode(pomodoro.mode, &pomodoro.settings),
        );
        pomodoro.remaining_seconds = pomodoro.total_seconds;
        self.state.pomodoro = pomodoro;
    }

    /// Starts the countdown, from its full duration if it had run out.
    pub fn start_countdown(&mut self)
        ensures
            final(self)@ == (TimerSnapshot {
                countdown: countdown_started(old(self)@.countdown),
                ..old(self)@
            }),
    {
        proof {
            use_type_invariant(&*self);
        }
        let mut countdown = self.state.countdown;
        if countdown.remaining_seconds == 0 {
            countdown.remaining_seconds = minutes_to_seconds(countdown.duration_minutes);
        }
        countdown.running = true;
        self.state.countdown = countdown;
    }

    /// Stops the countdown and keeps what is left.
    pub fn pause_countdown(&mut self)
        ensures
            final(self)@ == (TimerSnapshot {
                countdown: countdown_paused(old(self)@.countdown),
                ..old(self)@
            }),
    {
        proof {
            use_type_invariant(&*self);
        }
        self.state.countdown.running = false;
    }

    /// Stops the countdown and reloads its full duration.
    pub fn reset_countdown(&mut self)
        ensures
            final(self)@ == (TimerSnapshot {
                countdown: countdown_reset(old(self)@.countdown),
                ..old(self)@
            }),
    {
        proof {
            use_type_invariant(&*self);
        }
        let mut countdown = self.state.countdown;
        countdown.running = false;
        countdown.remaining_seconds = minutes_to_seconds(countdown.duration_minutes);
        self.state.countdown = countdown;
    }

    /// Sets the countdown's duration; this always stops it and reloads it.
    pub fn set_countdown_duration(&mut self, minutes: u32)
        ensures
            final(self)@ == (TimerSnapshot {
                countdown: countdown_with_duration(old(self)@.countdown, minutes),
                ..old(self)@
            }),
    {
        proof {
            use_type_invariant(&*self);
        }
        let mut countdown = self.state.countdown;
        countdown.duration_minutes = minutes;
        countdown.remaining_seconds = minutes_to_seconds(minutes);
        countdown.running = false;
        self.state.countdown = countdown;
    }

    /// Picks the focus sound; the timers are left as they are.
    pub fn set_focus_sound(&mut self, sound: FocusSound)
        ensures
            final(self)@ == (TimerSnapshot { focus_sound: sound, ..old(self)@ }),
    {
        proof {
            use_type_invariant(&*self);
        }
        self.state.focus_sound = sound;
    }
}

} // verus!
