//! Properties of the timer engine's transitions, stated over the spec
//! functions that the engine's own contracts use.

use vstd::prelude::*;

use crate::timer::{
    completed_session, countdown_paused, countdown_reset, minutes_for_mode, pomodoro_ticked,
    seconds_of,
    tick_completes, timer_ticked, timer_ticked_n, PomodoroMode, PomodoroSnapshot, TimerSnapshot,
};

verus! {

/// While the Pomodoro runs, each tick takes exactly one second off what is
/// left and nothing else changes, so `n` ticks take off exactly `n` seconds
/// as long as fewer than `remaining_seconds` are delivered; the tick that
/// brings the count to zero ends the session instead.
pub proof fn lemma_ticks_while_running(s: TimerSnapshot, n: nat)
    requires
        s.pomodoro.running,
        n <= s.pomodoro.remaining_seconds,
    ensures
        n < s.pomodoro.remaining_seconds ==> timer_ticked_n(s, n).pomodoro == (PomodoroSnapshot {
            remaining_seconds: (s.pomodoro.remaining_seconds - n) as u32,
            ..s.pomodoro
        }),
        n == s.pomodoro.remaining_seconds && n > 0 ==> timer_ticked_n(s, n).pomodoro
            == completed_session(s.pomodoro),
    decreases n,
{
    if n > 0 {
        let t = timer_ticked(s);
        if s.pomodoro.remaining_seconds > 1 {
            lemma_ticks_while_running(t, (n - 1) as nat);
        } else {
            assert(timer_ticked_n(t, 0) == t);
        }
    }
}

/// The tick on which a running session reaches zero stops it, starts the
/// auto-start delay, counts the session, and picks the next kind of session
/// by the transition table, loaded at its full length.
pub proof fn lemma_completion(s: TimerSnapshot)
    requires
        s.pomodoro.running,
        s.pomodoro.remaining_seconds <= 1,
        s.pomodoro.total_sessions_completed < u32::MAX,
        s.pomodoro.cycle_work_sessions < u32::MAX,
        s.pomodoro.total_work_sessions < u32::MAX,
    ensures
        ({
            let p = s.pomodoro;
            let t = timer_ticked(s).pomodoro;
            &&& tick_completes(p)
            &&& !t.running
            &&& t.awaiting_next_session
            &&& t.auto_start_remaining == 5
            &&& t.total_sessions_completed == p.total_sessions_completed + 1
            &&& t.total_seconds == seconds_of(minutes_for_mode(t.mode, p.settings))
            &&& t.remaining_seconds == t.total_seconds
            &&& p.mode == PomodoroMode::Work ==> {
                &&& t.cycle_work_sessions == p.cycle_work_sessions + 1
                &&& t.total_work_sessions == p.total_work_sessions + 1
                &&& t.mode == (if p.settings.auto_long_break && p.cycle_work_sessions + 1
                    >= p.settings.sessions_before_long_break {
                    PomodoroMode::LongBreak
                } else {
                    PomodoroMode::ShortBreak
                })
            }
            &&& p.mode == PomodoroMode::ShortBreak ==> {
                &&& t.mode == PomodoroMode::Work
                &&& t.cycle_work_sessions == p.cycle_work_sessions
            }
            &&& p.mode == PomodoroMode::LongBreak ==> {
                &&& t.mode == PomodoroMode::Work
                &&& t.cycle_work_sessions == 0
            }
        }),
{
}

/// While waiting for the next session, each tick takes one second off the
/// auto-start delay; when it runs out the next session starts running.
proof fn lemma_waiting_ticks(s: TimerSnapshot, k: nat)
    requires
        s.pomodoro.awaiting_next_session,
        !s.pomodoro.running,
        k <= s.pomodoro.auto_start_remaining,
        s.pomodoro.auto_start_remaining > 0,
    ensures
        k < s.pomodoro.auto_start_remaining ==> timer_ticked_n(s, k).pomodoro == (PomodoroSnapshot {
            auto_start_remaining: (s.pomodoro.auto_start_remaining - k) as u32,
            ..s.pomodoro
        }),
        k == s.pomodoro.auto_start_remaining ==> timer_ticked_n(s, k).pomodoro == (PomodoroSnapshot {
            auto_start_remaining: 0,
            awaiting_next_session: false,
            running: true,
            ..s.pomodoro
        }),
    decreases k,
{
    if k > 0 {
        let t = timer_ticked(s);
        if s.pomodoro.auto_start_remaining > 1 {
            lemma_waiting_ticks(t, (k - 1) as nat);
        } else {
            assert(timer_ticked_n(t, 0) == t);
        }
    }
}

/// After a session ends, the next one starts on its own after exactly five
/// ticks with no command in between, at its full length: the first four
/// ticks leave it waiting, the fifth sets it running.
pub proof fn lemma_auto_start(s: TimerSnapshot)
    requires
        s.pomodoro.running,
        s.pomodoro.remaining_seconds <= 1,
    ensures
        ({
            let c = timer_ticked(s);
            let started = timer_ticked_n(c, 5).pomodoro;
            &&& forall|k: nat|
                #![trigger timer_ticked_n(c, k)]
                k < 5 ==> {
                    &&& timer_ticked_n(c, k).pomodoro.awaiting_next_session
                    &&& !timer_ticked_n(c, k).pomodoro.running
                }
            &&& !started.awaiting_next_session
            &&& started.running
            &&& started.mode == c.pomodoro.mode
            &&& started.remaining_seconds == started.total_seconds
            &&& started.total_seconds == seconds_of(minutes_for_mode(started.mode, started.settings))
        }),
{
    let c = timer_ticked(s);
    assert forall|k: nat| #![trigger timer_ticked_n(c, k)] k < 5 implies {
        &&& timer_ticked_n(c, k).pomodoro.awaiting_next_session
        &&& !timer_ticked_n(c, k).pomodoro.running
    } by {
        lemma_waiting_ticks(c, k);
    }
    lemma_waiting_ticks(c, 5);
}

/// With a long break after every four work sessions: each completed work
/// session adds one to the cycle, the fourth one (the cycle reaching four)
/// leads into a long break and the earlier ones into short breaks, a short
/// break leaves the cycle as it is, and the end of the long break starts a
/// new cycle at zero.
pub proof fn lemma_long_break_threshold(s: TimerSnapshot)
    requires
        s.pomodoro.settings.sessions_before_long_break == 4,
        s.pomodoro.settings.auto_long_break,
        s.pomodoro.running,
        s.pomodoro.remaining_seconds <= 1,
        s.pomodoro.cycle_work_sessions < u32::MAX,
    ensures
        ({
            let p = s.pomodoro;
            let t = timer_ticked(s).pomodoro;
            &&& p.mode == PomodoroMode::Work ==> t.cycle_work_sessions == p.cycle_work_sessions + 1
            &&& p.mode == PomodoroMode::Work && p.cycle_work_sessions < 3 ==> t.mode
                == PomodoroMode::ShortBreak
            &&& p.mode == PomodoroMode::Work && p.cycle_work_sessions == 3 ==> t.mode
                == PomodoroMode::LongBreak
            &&& p.mode == PomodoroMode::ShortBreak ==> t.mode == PomodoroMode::Work
                && t.cycle_work_sessions == p.cycle_work_sessions
            &&& p.mode == PomodoroMode::LongBreak ==> t.mode == PomodoroMode::Work
                && t.cycle_work_sessions == 0
        }),
{
}

/// A tick that does not end the session leaves the kind of session, the
/// counters and the settings as they are, so only completions move the cycle.
pub proof fn lemma_tick_keeps_cycle(p: PomodoroSnapshot)
    requires
        !tick_completes(p),
    ensures
        pomodoro_ticked(p).mode == p.mode,
        pomodoro_ticked(p).cycle_work_sessions == p.cycle_work_sessions,
        pomodoro_ticked(p).total_work_sessions == p.total_work_sessions,
        pomodoro_ticked(p).total_sessions_completed == p.total_sessions_completed,
        pomodoro_ticked(p).settings == p.settings,
{
}

/// The sessions of one full cycle with a long break after every four work
/// sessions: from a work session at the start of a cycle, the completions
/// alternate work and short breaks, the fourth work session leads into the
/// long break, and the end of the long break starts the next cycle at zero.
pub proof fn lemma_full_cycle(p: PomodoroSnapshot)
    requires
        p.mode == PomodoroMode::Work,
        p.cycle_work_sessions == 0,
        p.settings.sessions_before_long_break == 4,
        p.settings.auto_long_break,
    ensures
        ({
            let c1 = completed_session(p);
            let c2 = completed_session(c1);
            let c3 = completed_session(c2);
            let c4 = completed_session(c3);
            let c5 = completed_session(c4);
            let c6 = completed_session(c5);
            let c7 = completed_session(c6);
            let c8 = completed_session(c7);
            &&& c1.mode == PomodoroMode::ShortBreak && c1.cycle_work_sessions == 1
            &&& c2.mode == PomodoroMode::Work && c2.cycle_work_sessions == 1
            &&& c3.mode == PomodoroMode::ShortBreak && c3.cycle_work_sessions == 2
            &&& c4.mode == PomodoroMode::Work && c4.cycle_work_sessions == 2
            &&& c5.mode == PomodoroMode::ShortBreak && c5.cycle_work_sessions == 3
            &&& c6.mode == PomodoroMode::Work && c6.cycle_work_sessions == 3
            &&& c7.mode == PomodoroMode::LongBreak && c7.cycle_work_sessions == 4
            &&& c8.mode == PomodoroMode::Work && c8.cycle_work_sessions == 0
        }),
{
}

/// Resetting the countdown, pausing it and resetting it again leaves the
/// state the first reset gave.
pub proof fn lemma_countdown_reset_pause_reset(s: TimerSnapshot)
    ensures
        ({
            let first = TimerSnapshot { countdown: countdown_reset(s.countdown), ..s };
            let paused = TimerSnapshot { countdown: countdown_paused(first.countdown), ..first };
            TimerSnapshot { countdown: countdown_reset(paused.countdown), ..paused } == first
        }),
{
}

} // verus!
