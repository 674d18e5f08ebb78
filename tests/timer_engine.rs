use pomodoro_timer::timer::{
    duration_for_mode, minutes_to_seconds, FocusSound, PomodoroMode, PomodoroSettings,
    TimerEngine, AUTO_START_DELAY_SECONDS,
};

fn settings(work: u32, short: u32, long: u32, every: u32, auto_long: bool) -> PomodoroSettings {
    PomodoroSettings {
        work_minutes: work,
        short_break_minutes: short,
        long_break_minutes: long,
        sessions_before_long_break: every,
        auto_long_break: auto_long,
        pause_music_on_break: false,
    }
}

fn tick_n(engine: &mut TimerEngine, n: u32) -> Vec<PomodoroMode> {
    let mut completed = Vec::new();
    for _ in 0..n {
        if let Some(mode) = engine.tick() {
            completed.push(mode);
        }
    }
    completed
}

#[test]
fn initial_state_has_defaults() {
    let engine = TimerEngine::new();
    let s = engine.snapshot();
    assert_eq!(s.pomodoro.mode, PomodoroMode::Work);
    assert!(!s.pomodoro.running);
    assert_eq!(s.pomodoro.remaining_seconds, 1500);
    assert_eq!(s.pomodoro.total_seconds, 1500);
    assert!(!s.pomodoro.awaiting_next_session);
    assert_eq!(s.pomodoro.auto_start_remaining, 0);
    assert_eq!(s.pomodoro.settings, settings(25, 5, 15, 4, true));
    assert_eq!(s.countdown.duration_minutes, 25);
    assert_eq!(s.countdown.remaining_seconds, 1500);
    assert!(!s.countdown.running);
    assert_eq!(s.focus_sound, FocusSound::Off);
}

#[test]
fn minutes_convert_to_seconds_and_saturate() {
    assert_eq!(minutes_to_seconds(0), 0);
    assert_eq!(minutes_to_seconds(25), 1500);
    assert_eq!(minutes_to_seconds(u32::MAX / 60), (u32::MAX / 60) * 60);
    assert_eq!(minutes_to_seconds(u32::MAX / 60 + 1), u32::MAX);
    assert_eq!(minutes_to_seconds(u32::MAX), u32::MAX);
}

#[test]
fn duration_follows_mode() {
    let s = settings(50, 10, 30, 4, true);
    assert_eq!(duration_for_mode(PomodoroMode::Work, &s), 50);
    assert_eq!(duration_for_mode(PomodoroMode::ShortBreak, &s), 10);
    assert_eq!(duration_for_mode(PomodoroMode::LongBreak, &s), 30);
}

#[test]
fn idle_ticks_change_nothing() {
    let mut engine = TimerEngine::new();
    let before = engine.snapshot();
    assert!(tick_n(&mut engine, 10).is_empty());
    assert_eq!(engine.snapshot(), before);
}

#[test]
fn running_ticks_count_down_by_exactly_n() {
    let mut engine = TimerEngine::new();
    engine.start_pomodoro();
    assert!(tick_n(&mut engine, 100).is_empty());
    let s = engine.snapshot();
    assert_eq!(s.pomodoro.remaining_seconds, 1400);
    assert!(s.pomodoro.running);
    assert_eq!(s.pomodoro.mode, PomodoroMode::Work);
    assert!(tick_n(&mut engine, 1399).is_empty());
    assert_eq!(engine.snapshot().pomodoro.remaining_seconds, 1);
}

#[test]
fn completion_within_the_tick_that_reaches_zero() {
    let mut engine = TimerEngine::new();
    engine.update_settings(settings(1, 2, 3, 4, true));
    engine.start_pomodoro();
    assert!(tick_n(&mut engine, 59).is_empty());
    assert_eq!(engine.tick(), Some(PomodoroMode::Work));
    let p = engine.snapshot().pomodoro;
    assert!(!p.running);
    assert!(p.awaiting_next_session);
    assert_eq!(p.auto_start_remaining, AUTO_START_DELAY_SECONDS);
    assert_eq!(p.auto_start_remaining, 5);
    assert_eq!(p.total_sessions_completed, 1);
    assert_eq!(p.total_work_sessions, 1);
    assert_eq!(p.cycle_work_sessions, 1);
    assert_eq!(p.mode, PomodoroMode::ShortBreak);
    assert_eq!(p.total_seconds, 120);
    assert_eq!(p.remaining_seconds, 120);
}

#[test]
fn next_session_starts_after_exactly_five_ticks() {
    let mut engine = TimerEngine::new();
    engine.update_settings(settings(1, 2, 3, 4, true));
    engine.start_pomodoro();
    tick_n(&mut engine, 60);
    for left in (1..5).rev() {
        engine.tick();
        let p = engine.snapshot().pomodoro;
        assert!(p.awaiting_next_session);
        assert!(!p.running);
        assert_eq!(p.auto_start_remaining, left);
    }
    engine.tick();
    let p = engine.snapshot().pomodoro;
    assert!(!p.awaiting_next_session);
    assert!(p.running);
    assert_eq!(p.auto_start_remaining, 0);
    assert_eq!(p.mode, PomodoroMode::ShortBreak);
    assert_eq!(p.remaining_seconds, p.total_seconds);
    assert_eq!(p.remaining_seconds, 120);
}

#[test]
fn fourth_work_session_leads_to_long_break() {
    let mut engine = TimerEngine::new();
    engine.update_settings(settings(1, 1, 2, 4, true));
    engine.start_pomodoro();
    let mut completed = Vec::new();
    let mut modes_after = Vec::new();
    let mut cycles_after = Vec::new();
    while completed.len() < 8 {
        if let Some(mode) = engine.tick() {
            completed.push(mode);
            let p = engine.snapshot().pomodoro;
            modes_after.push(p.mode);
            cycles_after.push(p.cycle_work_sessions);
        }
    }
    let (work, short, long) = (PomodoroMode::Work, PomodoroMode::ShortBreak, PomodoroMode::LongBreak);
    assert_eq!(
        completed,
        vec![work, short, work, short, work, short, work, long]
    );
    assert_eq!(
        modes_after,
        vec![short, work, short, work, short, work, long, work]
    );
    assert_eq!(cycles_after, vec![1, 1, 2, 2, 3, 3, 4, 0]);
    let p = engine.snapshot().pomodoro;
    assert_eq!(p.total_work_sessions, 4);
    assert_eq!(p.total_sessions_completed, 8);
}

#[test]
fn no_long_break_when_turned_off() {
    let mut engine = TimerEngine::new();
    engine.update_settings(settings(1, 1, 2, 1, false));
    engine.start_pomodoro();
    tick_n(&mut engine, 60);
    assert_eq!(engine.snapshot().pomodoro.mode, PomodoroMode::ShortBreak);
}

#[test]
fn zero_length_session_completes_on_next_tick() {
    let mut engine = TimerEngine::new();
    engine.update_settings(settings(0, 5, 15, 4, true));
    engine.start_pomodoro();
    let p = engine.snapshot().pomodoro;
    assert!(p.running);
    assert_eq!(p.remaining_seconds, 0);
    assert_eq!(engine.tick(), Some(PomodoroMode::Work));
    assert_eq!(engine.snapshot().pomodoro.mode, PomodoroMode::ShortBreak);
}

#[test]
fn countdown_reset_pause_reset_is_the_first_reset() {
    let mut engine = TimerEngine::new();
    engine.set_countdown_duration(3);
    engine.start_countdown();
    tick_n(&mut engine, 10);
    engine.reset_countdown();
    let first = engine.snapshot();
    engine.pause_countdown();
    engine.reset_countdown();
    assert_eq!(engine.snapshot(), first);
    assert_eq!(first.countdown.remaining_seconds, 180);
    assert!(!first.countdown.running);
}

#[test]
fn settings_shrink_clamps_running_session() {
    let mut engine = TimerEngine::new();
    engine.start_pomodoro();
    assert_eq!(engine.snapshot().pomodoro.remaining_seconds, 1500);
    engine.update_settings(settings(10, 5, 15, 4, true));
    let p = engine.snapshot().pomodoro;
    assert_eq!(p.total_seconds, 600);
    assert_eq!(p.remaining_seconds, 600);
    assert!(p.running);
}

#[test]
fn settings_grow_keeps_running_session() {
    let mut engine = TimerEngine::new();
    engine.start_pomodoro();
    engine.update_settings(settings(30, 5, 15, 4, true));
    let p = engine.snapshot().pomodoro;
    assert_eq!(p.total_seconds, 1800);
    assert_eq!(p.remaining_seconds, 1500);
}

#[test]
fn settings_update_reloads_idle_session() {
    let mut engine = TimerEngine::new();
    engine.update_settings(settings(30, 5, 15, 4, true));
    let p = engine.snapshot().pomodoro;
    assert_eq!(p.total_seconds, 1800);
    assert_eq!(p.remaining_seconds, 1800);
}

#[test]
fn settings_update_clamps_waiting_session() {
    let mut engine = TimerEngine::new();
    engine.update_settings(settings(1, 2, 3, 4, true));
    engine.start_pomodoro();
    tick_n(&mut engine, 60);
    engine.update_settings(settings(1, 1, 3, 4, true));
    let p = engine.snapshot().pomodoro;
    assert!(p.awaiting_next_session);
    assert_eq!(p.total_seconds, 60);
    assert_eq!(p.remaining_seconds, 60);
}

#[test]
fn start_pomodoro_resumes_or_reloads() {
    let mut engine = TimerEngine::new();
    engine.start_pomodoro();
    tick_n(&mut engine, 30);
    engine.pause_pomodoro();
    engine.start_pomodoro();
    assert_eq!(engine.snapshot().pomodoro.remaining_seconds, 1470);
    let mut engine = TimerEngine::new();
    engine.update_settings(settings(25, 0, 15, 4, true));
    engine.start_break();
    engine.pause_pomodoro();
    assert_eq!(engine.snapshot().pomodoro.remaining_seconds, 0);
    engine.start_pomodoro();
    let p = engine.snapshot().pomodoro;
    assert_eq!(p.remaining_seconds, 1500);
    assert_eq!(p.total_seconds, 1500);
}

#[test]
fn start_pomodoro_cancels_auto_start() {
    let mut engine = TimerEngine::new();
    engine.update_settings(settings(1, 2, 3, 4, true));
    engine.start_pomodoro();
    tick_n(&mut engine, 62);
    engine.start_pomodoro();
    let p = engine.snapshot().pomodoro;
    assert_eq!(p.mode, PomodoroMode::Work);
    assert!(p.running);
    assert!(!p.awaiting_next_session);
    assert_eq!(p.auto_start_remaining, 0);
    assert_eq!(p.total_seconds, 60);
    assert_eq!(p.remaining_seconds, 120);
}

#[test]
fn start_break_is_always_short() {
    let mut engine = TimerEngine::new();
    engine.start_break();
    let p = engine.snapshot().pomodoro;
    assert_eq!(p.mode, PomodoroMode::ShortBreak);
    assert_eq!(p.total_seconds, 300);
    assert_eq!(p.remaining_seconds, 300);
    assert!(p.running);
}

#[test]
fn skip_break_starts_full_work_session() {
    let mut engine = TimerEngine::new();
    engine.start_break();
    tick_n(&mut engine, 10);
    engine.skip_break();
    let p = engine.snapshot().pomodoro;
    assert_eq!(p.mode, PomodoroMode::Work);
    assert_eq!(p.remaining_seconds, 1500);
    assert!(p.running);
}

#[test]
fn pause_cancels_pending_auto_start() {
    let mut engine = TimerEngine::new();
    engine.update_settings(settings(1, 2, 3, 4, true));
    engine.start_pomodoro();
    tick_n(&mut engine, 61);
    engine.pause_pomodoro();
    let p = engine.snapshot().pomodoro;
    assert!(!p.running);
    assert!(!p.awaiting_next_session);
    assert_eq!(p.auto_start_remaining, 0);
    tick_n(&mut engine, 10);
    assert!(!engine.snapshot().pomodoro.running);
}

#[test]
fn reset_reloads_current_mode() {
    let mut engine = TimerEngine::new();
    engine.start_break();
    tick_n(&mut engine, 10);
    engine.reset_pomodoro();
    let p = engine.snapshot().pomodoro;
    assert_eq!(p.mode, PomodoroMode::ShortBreak);
    assert!(!p.running);
    assert_eq!(p.remaining_seconds, 300);
    assert_eq!(p.total_seconds, 300);
}

#[test]
fn countdown_runs_out_and_restarts_from_full() {
    let mut engine = TimerEngine::new();
    engine.set_countdown_duration(1);
    engine.start_countdown();
    tick_n(&mut engine, 59);
    let c = engine.snapshot().countdown;
    assert_eq!(c.remaining_seconds, 1);
    assert!(c.running);
    engine.tick();
    let c = engine.snapshot().countdown;
    assert_eq!(c.remaining_seconds, 0);
    assert!(!c.running);
    engine.start_countdown();
    assert_eq!(engine.snapshot().countdown.remaining_seconds, 60);
}

#[test]
fn countdown_pause_keeps_remaining() {
    let mut engine = TimerEngine::new();
    engine.start_countdown();
    tick_n(&mut engine, 5);
    engine.pause_countdown();
    tick_n(&mut engine, 5);
    let c = engine.snapshot().countdown;
    assert_eq!(c.remaining_seconds, 1495);
    assert!(!c.running);
    engine.start_countdown();
    assert_eq!(engine.snapshot().countdown.remaining_seconds, 1495);
}

#[test]
fn setting_countdown_duration_stops_it() {
    let mut engine = TimerEngine::new();
    engine.start_countdown();
    tick_n(&mut engine, 5);
    engine.set_countdown_duration(10);
    let c = engine.snapshot().countdown;
    assert_eq!(c.duration_minutes, 10);
    assert_eq!(c.remaining_seconds, 600);
    assert!(!c.running);
}

#[test]
fn focus_sound_leaves_timers_alone() {
    let mut engine = TimerEngine::new();
    engine.start_pomodoro();
    let before = engine.snapshot();
    engine.set_focus_sound(FocusSound::Rain);
    let after = engine.snapshot();
    assert_eq!(after.focus_sound, FocusSound::Rain);
    assert_eq!(after.pomodoro, before.pomodoro);
    assert_eq!(after.countdown, before.countdown);
}

#[test]
fn both_timers_advance_on_one_tick() {
    let mut engine = TimerEngine::new();
    engine.start_pomodoro();
    engine.start_countdown();
    engine.tick();
    let s = engine.snapshot();
    assert_eq!(s.pomodoro.remaining_seconds, 1499);
    assert_eq!(s.countdown.remaining_seconds, 1499);
}
