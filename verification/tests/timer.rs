use tomatui::config::OnEnd;
use tomatui::duration::Duration;
use tomatui::timer::{Phase, Timer, TimerConfig};

fn test_config() -> TimerConfig {
    TimerConfig {
        work_secs: 1500,
        break_secs: 300,
        long_break_secs: 900,
        sessions: 4,
        on_end: OnEnd::Start,
    }
}

#[test]
fn test_advance_work_to_break() {
    let mut timer = Timer::new(test_config());
    assert_eq!(timer.phase, Phase::Work);
    assert_eq!(timer.current_session, 1);

    timer.advance_phase();
    assert_eq!(timer.phase, Phase::Break);
    assert_eq!(timer.remaining, Duration::from_secs(300));
}

#[test]
fn test_advance_break_to_work_increments_session() {
    let mut timer = Timer::new(test_config());
    timer.advance_phase(); // Work -> Break
    timer.advance_phase(); // Break -> Work (session 2)
    assert_eq!(timer.phase, Phase::Work);
    assert_eq!(timer.current_session, 2);
}

#[test]
fn test_advance_last_session_to_long_break() {
    let mut timer = Timer::new(test_config());
    for _ in 0..3 {
        timer.advance_phase(); // Work -> Break
        timer.advance_phase(); // Break -> Work
    }
    assert_eq!(timer.current_session, 4);
    assert_eq!(timer.phase, Phase::Work);

    timer.advance_phase(); // Work -> LongBreak (session 4)
    assert_eq!(timer.phase, Phase::LongBreak);
    assert_eq!(timer.remaining, Duration::from_secs(900));
}

#[test]
fn test_advance_long_break_resets_session() {
    let mut timer = Timer::new(test_config());
    for _ in 0..3 {
        timer.advance_phase();
        timer.advance_phase();
    }
    timer.advance_phase(); // -> LongBreak
    timer.advance_phase(); // -> Work (session 1)
    assert_eq!(timer.phase, Phase::Work);
    assert_eq!(timer.current_session, 1);
}

#[test]
fn test_single_session_uses_long_break_and_resets_session() {
    let mut config = test_config();
    config.sessions = 1;
    let mut timer = Timer::new(config);

    timer.advance_phase();
    assert_eq!(timer.phase, Phase::LongBreak);
    assert_eq!(timer.current_session, 1);

    timer.advance_phase();
    assert_eq!(timer.phase, Phase::Work);
    assert_eq!(timer.current_session, 1);
}

#[test]
fn test_pause_excludes_paused_time_after_resume() {
    let mut timer = Timer::new(test_config());
    timer.toggle_pause();
    let paused_at = timer.last_tick;

    assert!(!timer.tick_at(paused_at + std::time::Duration::from_secs(10)));
    assert_eq!(timer.remaining, Duration::from_secs(1500));

    timer.toggle_pause();
    let resumed_at = timer.last_tick;
    assert!(!timer.tick_at(resumed_at + std::time::Duration::from_secs(1)));
    assert_eq!(timer.remaining, Duration::from_secs(1499));
}

#[test]
fn test_tick_completes_at_the_deadline() {
    let mut timer = Timer::new(test_config());
    timer.remaining = Duration::from_secs(2);
    let started_at = timer.last_tick;

    assert!(timer.tick_at(started_at + std::time::Duration::from_secs(2)));
    assert!(timer.remaining.is_zero());
}

#[test]
fn test_skip_completes_while_paused_and_preserves_pause() {
    let mut timer = Timer::new(test_config());
    timer.toggle_pause();
    timer.skip();

    assert!(timer.tick());
    timer.advance_phase();

    assert_eq!(timer.phase, Phase::Break);
    assert!(timer.paused);
    assert!(!timer.skipped);
}

#[test]
fn test_zero_remaining_completes_while_paused_without_skip() {
    let mut timer = Timer::new(test_config());
    timer.toggle_pause();
    timer.remaining = Duration::zero();

    assert!(timer.tick());
    assert!(!timer.skipped);
}

#[test]
fn test_skip_break_advances_session() {
    let mut timer = Timer::new(test_config());
    timer.advance_phase();
    timer.skip();

    assert!(timer.tick());
    timer.advance_phase();

    assert_eq!(timer.phase, Phase::Work);
    assert_eq!(timer.current_session, 2);
}

#[test]
fn test_skip_long_break_resets_session() {
    let mut timer = Timer::new(test_config());
    timer.current_session = timer.config.sessions;
    timer.advance_phase();
    timer.skip();

    assert!(timer.tick());
    timer.advance_phase();

    assert_eq!(timer.phase, Phase::Work);
    assert_eq!(timer.current_session, 1);
}

#[test]
fn test_remaining_display_format() {
    let mut timer = Timer::new(test_config());
    timer.remaining = Duration::from_secs(1500);
    assert_eq!(timer.remaining_display(), "25:00");

    timer.remaining = Duration::from_secs(65);
    assert_eq!(timer.remaining_display(), "01:05");

    timer.remaining = Duration::from_secs(0);
    assert_eq!(timer.remaining_display(), "00:00");

    timer.remaining = Duration::from_millis(1);
    assert_eq!(timer.remaining_display(), "00:01");

    timer.remaining = Duration::from_millis(1001);
    assert_eq!(timer.remaining_display(), "00:02");
}

#[test]
fn test_skip_sets_skipped_flag() {
    let mut timer = Timer::new(test_config());
    assert!(!timer.skipped);
    timer.skip();
    assert!(timer.skipped);
    assert!(timer.remaining.is_zero());
}

#[test]
fn test_advance_phase_resets_skipped() {
    let mut timer = Timer::new(test_config());
    timer.skip();
    assert!(timer.skipped);
    timer.advance_phase();
    assert!(!timer.skipped);
}

#[test]
fn test_switch_to_work_resets_skipped() {
    let mut timer = Timer::new(test_config());
    timer.skip();
    assert!(timer.skipped);
    timer.switch_to_work();
    assert!(!timer.skipped);
}

#[test]
fn test_switch_to_work_from_break_increments_session() {
    let mut timer = Timer::new(test_config());
    timer.advance_phase();

    timer.switch_to_work();

    assert_eq!(timer.phase, Phase::Work);
    assert_eq!(timer.current_session, 2);
    assert_eq!(timer.remaining, Duration::from_secs(1500));
}

#[test]
fn test_switch_to_work_from_long_break_resets_session() {
    let mut timer = Timer::new(test_config());
    timer.current_session = timer.config.sessions;
    timer.advance_phase();

    timer.switch_to_work();

    assert_eq!(timer.phase, Phase::Work);
    assert_eq!(timer.current_session, 1);
    assert_eq!(timer.remaining, Duration::from_secs(1500));
}

#[test]
fn test_switch_to_work_from_work_keeps_session() {
    let mut timer = Timer::new(test_config());
    timer.current_session = 3;
    timer.remaining = Duration::from_secs(1);

    timer.switch_to_work();

    assert_eq!(timer.phase, Phase::Work);
    assert_eq!(timer.current_session, 3);
    assert_eq!(timer.remaining, Duration::from_secs(1500));
}

#[test]
fn test_switch_to_break_resets_skipped() {
    let mut timer = Timer::new(test_config());
    timer.skip();
    assert!(timer.skipped);
    timer.switch_to_break();
    assert!(!timer.skipped);
}

#[test]
fn test_switch_to_break_at_last_session_uses_long_break() {
    let mut timer = Timer::new(test_config());
    timer.current_session = timer.config.sessions;

    timer.switch_to_break();

    assert_eq!(timer.phase, Phase::LongBreak);
    assert_eq!(timer.remaining, Duration::from_secs(900));
}

#[test]
fn phase_labels_name_each_phase() {
    assert_eq!(Phase::Work.label(), "Work");
    assert_eq!(Phase::Break.label(), "Break");
    assert_eq!(Phase::LongBreak.label(), "Long Break");
}

#[test]
fn full_cycle_returns_to_first_work_session() {
    let mut timer = Timer::new(test_config());
    for _ in 0..(2 * timer.config.sessions) {
        timer.advance_phase();
    }
    assert_eq!(timer.phase, Phase::Work);
    assert_eq!(timer.current_session, 1);
    assert_eq!(timer.remaining, Duration::from_secs(1500));
    assert_eq!(timer.total, Duration::from_secs(1500));
}

#[test]
fn elapsed_time_counts_down_and_adds_up() {
    let mut timer = Timer::new(test_config());
    assert!(!timer.apply_elapsed(Duration::from_millis(1500)));
    assert!(!timer.apply_elapsed(Duration::from_millis(2500)));
    assert_eq!(timer.remaining, Duration::from_secs(1496));
    assert_eq!(timer.display_seconds(), 1496);
    assert!(!timer.apply_elapsed(Duration::from_millis(500)));
    assert_eq!(timer.display_seconds(), 1496);
    assert_eq!(timer.remaining_display(), "24:56");
    assert!(timer.apply_elapsed(Duration::from_secs(5000)));
    assert!(timer.remaining.is_zero());
}

#[test]
fn paused_timer_ignores_elapsed_time() {
    let mut timer = Timer::new(test_config());
    timer.toggle_pause();
    assert!(!timer.apply_elapsed(Duration::from_secs(5000)));
    assert_eq!(timer.remaining, Duration::from_secs(1500));
    timer.toggle_pause();
    assert!(!timer.paused);
}

#[test]
fn add_minute_extends_remaining_and_total() {
    let mut timer = Timer::new(test_config());
    assert!(timer.add_minute());
    assert_eq!(timer.remaining, Duration::from_secs(1560));
    assert_eq!(timer.total, Duration::from_secs(1560));
}

#[test]
fn add_minute_refuses_overflow_and_changes_nothing() {
    let mut timer = Timer::new(test_config());
    timer.total = Duration::new(u64::MAX - 30, 0);
    assert!(!timer.add_minute());
    assert_eq!(timer.remaining, Duration::from_secs(1500));
    assert_eq!(timer.total, Duration::new(u64::MAX - 30, 0));
}

#[test]
fn display_seconds_saturate_at_the_largest_value() {
    let mut timer = Timer::new(test_config());
    timer.remaining = Duration::new(u64::MAX, 5);
    assert_eq!(timer.display_seconds(), u64::MAX);
}

#[test]
fn long_countdown_shows_more_than_two_minute_digits() {
    let mut timer = Timer::new(test_config());
    timer.remaining = Duration::from_secs(6000);
    assert_eq!(timer.remaining_display(), "100:00");
}

#[test]
fn clock_ticks_measure_real_time() {
    let mut timer = Timer::new(test_config());
    let start = timer.last_tick;
    assert!(!timer.tick_at(start + std::time::Duration::from_millis(250)));
    assert_eq!(timer.remaining, Duration::from_millis(1_499_750));
    assert_eq!(timer.last_tick, start + std::time::Duration::from_millis(250));
}

#[test]
fn every_move_of_the_cycle_lands_where_expected() {
    let mut timer = Timer::new(test_config());
    let expected = [
        (Phase::Break, 1, 300),
        (Phase::Work, 2, 1500),
        (Phase::Break, 2, 300),
        (Phase::Work, 3, 1500),
        (Phase::Break, 3, 300),
        (Phase::Work, 4, 1500),
        (Phase::LongBreak, 4, 900),
        (Phase::Work, 1, 1500),
    ];
    for (phase, session, secs) in expected {
        timer.advance_phase();
        assert_eq!(timer.phase, phase);
        assert_eq!(timer.current_session, session);
        assert_eq!(timer.remaining, Duration::from_secs(secs));
    }
}

#[test]
fn phase_changes_measure_from_their_own_reading() {
    let start = std::time::Instant::now();
    let secs = std::time::Duration::from_secs;
    let mut timer = Timer::new_at(test_config(), start);
    assert_eq!(timer.last_tick, start);
    timer.advance_phase_at(start + secs(100));
    assert_eq!(timer.last_tick, start + secs(100));
    assert!(!timer.tick_at(start + secs(110)));
    assert_eq!(timer.remaining, Duration::from_secs(290));
    timer.toggle_pause_at(start + secs(120));
    assert!(!timer.tick_at(start + secs(200)));
    assert_eq!(timer.remaining, Duration::from_secs(290));
    timer.toggle_pause_at(start + secs(300));
    assert!(!timer.tick_at(start + secs(305)));
    assert_eq!(timer.remaining, Duration::from_secs(285));
    timer.switch_to_work_at(start + secs(400));
    assert_eq!(timer.last_tick, start + secs(400));
    assert_eq!(timer.phase, Phase::Work);
    timer.switch_to_break_at(start + secs(500));
    assert_eq!(timer.last_tick, start + secs(500));
    timer.skip();
    assert_eq!(timer.last_tick, start + secs(500));
}
