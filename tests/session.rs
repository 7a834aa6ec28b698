use global_pomodoro::config::{Phase, PomodoroStateConfig, ValidationError};
use global_pomodoro::pomodoro::{next_phase, tick, DriverState, Effects, PomodoroHandle};

fn short_session() -> PomodoroStateConfig {
    PomodoroStateConfig {
        work_duration: 5,
        break_duration: 3,
        long_break_duration: 4,
        time_left: 5,
        ..PomodoroStateConfig::new()
    }
}

#[test]
fn new_config_has_defaults() {
    let c = PomodoroStateConfig::new();
    assert_eq!(c.work_duration, 1500);
    assert_eq!(c.break_duration, 300);
    assert_eq!(c.long_break_duration, 600);
    assert_eq!(c.cycles, 4);
    assert_eq!(c.long_break_interval, 2);
    assert_eq!(c.current_cycle, 0);
    assert_eq!(c.time_left, 1500);
    assert_eq!(c.current_phase, Phase::Work);
    assert!(c.is_running);
    assert!(c.is_valid());
}

#[test]
fn validity_rejects_zero_settings_and_overlong_time() {
    let mut c = PomodoroStateConfig::new();
    c.work_duration = 0;
    assert!(!c.is_valid());
    let mut c = PomodoroStateConfig::new();
    c.long_break_interval = 0;
    assert!(!c.is_valid());
    let mut c = PomodoroStateConfig::new();
    c.time_left = 601;
    c.work_duration = 600;
    assert!(!c.is_valid());
    let mut c = PomodoroStateConfig::new();
    c.current_phase = Phase::Idle;
    assert!(!c.is_valid());
    c.is_running = false;
    assert!(c.is_valid());
    let mut c = PomodoroStateConfig::new();
    c.current_cycle = 4;
    assert!(!c.is_valid());
    c.current_phase = Phase::ShortBreak;
    assert!(c.is_valid());
}

#[test]
fn max_and_phase_durations() {
    let c = short_session();
    assert_eq!(c.max_duration_exec(), 5);
    assert_eq!(c.phase_duration(Phase::ShortBreak), 3);
    assert_eq!(c.phase_duration(Phase::LongBreak), 4);
    assert_eq!(c.phase_duration(Phase::Idle), 0);
}

#[test]
fn load_or_create_cases() {
    assert_eq!(
        PomodoroStateConfig::load_or_create(None),
        Ok((PomodoroStateConfig::new(), true))
    );
    let c = short_session();
    assert_eq!(PomodoroStateConfig::load_or_create(Some(c)), Ok((c, false)));
    let mut bad = c;
    bad.cycles = 0;
    assert_eq!(PomodoroStateConfig::load_or_create(Some(bad)), Err(ValidationError {}));
}

#[test]
fn reset_mut_and_reset() {
    let mut c = short_session();
    c.current_cycle = 2;
    c.current_phase = Phase::LongBreak;
    c.time_left = 1;
    c.reset_mut();
    assert_eq!(c.current_cycle, 0);
    assert_eq!(c.current_phase, Phase::Work);
    assert_eq!(c.time_left, 5);
    assert!(!c.is_running);
    assert_eq!(c.break_duration, 3);
    c.reset();
    assert_eq!(c, PomodoroStateConfig::new());
}

#[test]
fn work_completion_counts_cycles() {
    // cycles 4, long breaks every 2nd cycle
    let mut c = PomodoroStateConfig::new();
    assert_eq!(next_phase(&mut c), Phase::ShortBreak);
    assert_eq!(c.current_cycle, 1);
    c.current_phase = Phase::ShortBreak;
    assert_eq!(next_phase(&mut c), Phase::Work);
    assert_eq!(c.current_cycle, 1);
    c.current_phase = Phase::Work;
    assert_eq!(next_phase(&mut c), Phase::LongBreak);
    assert_eq!(c.current_cycle, 2);
    c.current_phase = Phase::Work;
    assert_eq!(next_phase(&mut c), Phase::ShortBreak);
    assert_eq!(c.current_cycle, 3);
    c.current_phase = Phase::Work;
    assert_eq!(next_phase(&mut c), Phase::Idle);
    assert_eq!(c.current_cycle, 4);
}

#[test]
fn idle_stays_idle() {
    let mut c = PomodoroStateConfig::new();
    c.current_phase = Phase::Idle;
    c.is_running = false;
    c.current_cycle = 4;
    assert_eq!(next_phase(&mut c), Phase::Idle);
    assert_eq!(c.current_cycle, 4);
    let before = c;
    assert_eq!(tick(&mut c), None);
    assert_eq!(c, before);
}

#[test]
fn break_after_last_cycle_goes_idle() {
    let mut c = PomodoroStateConfig::new();
    c.current_phase = Phase::LongBreak;
    c.current_cycle = 4;
    assert_eq!(next_phase(&mut c), Phase::Idle);
}

#[test]
fn boundary_cycle_sequence() {
    let mut c = PomodoroStateConfig::new();
    c.time_left = 1;
    let mut seen = vec![];
    for _ in 0..8 {
        let entered = tick(&mut c);
        if c.current_phase != Phase::Idle {
            c.time_left = 1;
        }
        seen.push((entered, c.current_cycle));
    }
    assert_eq!(seen[0], (Some(Phase::ShortBreak), 1));
    assert_eq!(seen[2], (Some(Phase::LongBreak), 2));
    assert_eq!(seen[6], (Some(Phase::Idle), 4));
    assert_eq!(c.current_phase, Phase::Idle);
    assert!(!c.is_running);
}

#[test]
fn tick_counts_down_then_advances() {
    let mut c = short_session();
    assert_eq!(tick(&mut c), None);
    assert_eq!(c.time_left, 4);
    c.time_left = 1;
    assert_eq!(tick(&mut c), Some(Phase::ShortBreak));
    assert_eq!(c.time_left, 0);
    assert_eq!(c.current_phase, Phase::ShortBreak);
    assert_eq!(c.current_cycle, 1);
}

#[test]
fn fresh_start_five_ticks_reaches_short_break() {
    let mut c = short_session();
    let mut h = PomodoroHandle::new();
    let e = h.start(&mut c);
    assert!(e.spawn_driver);
    assert_eq!(e.announce, Some(Phase::Work));
    assert_eq!(h.driver, DriverState::Running);
    for k in 0..4u32 {
        let s = h.step(&mut c);
        assert!(s.persist && s.keep_running);
        assert_eq!(s.announce, None);
        assert_eq!(c.time_left, 4 - k);
        assert_eq!(c.current_phase, Phase::Work);
    }
    let s = h.step(&mut c);
    assert_eq!(s.announce, Some(Phase::ShortBreak));
    assert!(s.keep_running);
    assert_eq!(c.current_phase, Phase::ShortBreak);
    assert_eq!(c.time_left, 3);
    assert_eq!(c.current_cycle, 1);
}

#[test]
fn start_twice_spawns_one_driver() {
    let mut c = short_session();
    let mut h = PomodoroHandle::new();
    let first = h.start(&mut c);
    let second = h.start(&mut c);
    assert!(first.spawn_driver);
    assert!(!second.spawn_driver);
    assert_eq!(second, Effects { persist: false, spawn_driver: false, announce: None });
    let before = c.time_left;
    h.step(&mut c);
    assert_eq!(c.time_left, before - 1);
}

#[test]
fn start_on_idle_does_nothing() {
    let mut c = PomodoroStateConfig::new();
    c.current_phase = Phase::Idle;
    c.is_running = false;
    let mut h = PomodoroHandle::new();
    let e = h.start(&mut c);
    assert!(!e.spawn_driver && !e.persist);
    assert_eq!(h.driver, DriverState::Stopped);
    assert!(!c.is_running);
}

#[test]
fn start_seeds_exhausted_phase() {
    let mut c = short_session();
    c.current_phase = Phase::LongBreak;
    c.current_cycle = 2;
    c.time_left = 0;
    c.is_running = false;
    let mut h = PomodoroHandle::new();
    let e = h.start(&mut c);
    assert!(e.persist && e.spawn_driver);
    assert_eq!(c.time_left, 4);
    assert!(c.is_running);
}

#[test]
fn pause_twice_is_pause_once() {
    let mut c = short_session();
    let mut h = PomodoroHandle::new();
    h.start(&mut c);
    h.step(&mut c);
    let first = h.pause(&mut c);
    let after_first = c;
    let second = h.pause(&mut c);
    assert_eq!(c, after_first);
    assert!(!c.is_running);
    assert_eq!(c.time_left, 4);
    assert_eq!(first, Effects { persist: true, spawn_driver: false, announce: None });
    assert_eq!(second, first);
}

#[test]
fn paused_driver_stops_and_resume_respawns() {
    let mut c = short_session();
    let mut h = PomodoroHandle::new();
    h.start(&mut c);
    h.pause(&mut c);
    let s = h.step(&mut c);
    assert!(!s.keep_running && !s.persist);
    assert_eq!(h.driver, DriverState::Stopped);
    assert_eq!(c.time_left, 5);
    let e = h.resume(&mut c);
    assert!(e.spawn_driver);
    assert!(c.is_running);
    let again = h.resume(&mut c);
    assert!(!again.spawn_driver);
}

#[test]
fn resume_before_driver_notices_pause_keeps_one_driver() {
    let mut c = short_session();
    let mut h = PomodoroHandle::new();
    h.start(&mut c);
    h.pause(&mut c);
    let e = h.resume(&mut c);
    assert!(!e.spawn_driver);
    assert!(c.is_running);
    let s = h.step(&mut c);
    assert!(s.keep_running);
    assert_eq!(c.time_left, 4);
}

#[test]
fn last_work_phase_ends_idle_and_stops() {
    let mut c = short_session();
    c.current_cycle = 3;
    c.time_left = 1;
    let mut h = PomodoroHandle::new();
    h.start(&mut c);
    let s = h.step(&mut c);
    assert_eq!(s.announce, Some(Phase::Idle));
    assert!(!s.keep_running);
    assert_eq!(h.driver, DriverState::Stopped);
    assert_eq!(c.current_phase, Phase::Idle);
    assert!(!c.is_running);
    assert_eq!(c.current_cycle, 4);
}

#[test]
fn handle_resets() {
    let mut c = short_session();
    c.current_cycle = 2;
    c.current_phase = Phase::LongBreak;
    let mut h = PomodoroHandle::new();
    let e = h.reset_progress(&mut c);
    assert!(e.persist);
    assert_eq!((c.current_cycle, c.current_phase, c.time_left, c.is_running), (0, Phase::Work, 5, false));
    let e = h.reset(&mut c);
    assert!(e.persist);
    assert_eq!(c, PomodoroStateConfig::new());
}

#[test]
fn one_second_phase_saves_exhausted_state_first() {
    let mut c = short_session();
    c.work_duration = 1;
    c.time_left = 1;
    let mut h = PomodoroHandle::new();
    h.start(&mut c);
    let s = h.step(&mut c);
    let first = s.exhausted.expect("the exhausted state is handed back");
    assert_eq!(first.time_left, 0);
    assert_eq!(first.current_phase, Phase::ShortBreak);
    assert_eq!(first.current_cycle, 1);
    assert!(s.persist);
    assert_eq!(c.time_left, 3);
    assert_eq!(c.current_phase, Phase::ShortBreak);
}

#[test]
fn ordinary_steps_hand_back_no_exhausted_state() {
    let mut c = short_session();
    let mut h = PomodoroHandle::new();
    h.start(&mut c);
    assert_eq!(h.step(&mut c).exhausted, None);
}
