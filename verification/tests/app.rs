use tomatui::app::{App, KeyCode, KeyEvent, KeyEventKind};
use tomatui::config::OnEnd;
use tomatui::duration::Duration;
use tomatui::timer::{Phase, TimerConfig};

fn test_config() -> TimerConfig {
    TimerConfig {
        work_secs: 1500,
        break_secs: 300,
        long_break_secs: 900,
        sessions: 4,
        on_end: OnEnd::Start,
    }
}

fn test_app() -> App {
    App::with_cached_stats(test_config(), (0, 0))
}

#[test]
fn test_on_key_quit() {
    let mut app = test_app();
    app.on_key('q');
    assert!(app.should_quit);
}

#[test]
fn test_on_key_pause_toggle() {
    let mut app = test_app();
    assert!(!app.timer.paused);
    app.on_key('p');
    assert!(app.timer.paused);
    app.on_key(' ');
    assert!(!app.timer.paused);
}

#[test]
fn test_on_key_switch_work() {
    let mut app = test_app();
    app.on_key('b');
    assert!(app.timer.phase == Phase::Break || app.timer.phase == Phase::LongBreak);
    app.on_key('w');
    assert_eq!(app.timer.phase, Phase::Work);
}

#[test]
fn test_skip_sets_remaining_zero() {
    let mut app = test_app();
    app.on_key('s');
    assert!(app.timer.remaining.is_zero());
    assert!(app.timer.skipped);
}

#[test]
fn test_skip_does_not_record_pomodoro() {
    let mut app = test_app();
    let initial_pomos = app.cached_stats.0;
    app.on_key('s');
    // Simulate tick detecting phase complete
    assert!(app.tick_with(|_| panic!("skip must not record"), |_| {}));
    // cached_stats should not have incremented
    assert_eq!(app.cached_stats.0, initial_pomos);
}

#[test]
fn test_today_stats_uses_cache() {
    let mut app = test_app();
    let stats1 = app.today_stats(|| panic!("fresh statistics are cached"));
    let stats2 = app.today_stats(|| panic!("fresh statistics are cached"));
    assert_eq!(stats1, stats2);
}

#[test]
fn test_tick_returns_false_while_paused_without_display_change() {
    let mut app = test_app();
    app.timer.toggle_pause();

    assert!(!app.tick_with(|_| panic!("paused timer must not record"), |_| {}));
}

#[test]
fn ask_records_extended_work_once_and_waits_without_counting_wait_time() {
    let mut app = test_app();
    app.timer.config.on_end = OnEnd::Ask;
    app.on_key('+');
    app.timer.remaining = Duration::zero();
    let mut records = 0;
    let mut announcements = 0;
    assert!(app.tick_with(
        |minutes| {
            records += 1;
            assert_eq!(minutes, 26);
            Ok((1, minutes))
        },
        |_| announcements += 1
    ));
    assert!(app.waiting_for_next);
    assert_eq!(app.timer.phase, Phase::Work);
    assert!(!app.tick_with(
        |_| panic!("duplicate record"),
        |_| panic!("duplicate notification")
    ));
    for key in ['p', ' ', 'w', 'b', '+'] {
        app.on_key(key);
        assert!(app.waiting_for_next);
        assert!(app.timer.remaining.is_zero());
        assert!(!app.timer.paused);
    }
    app.on_key_event(KeyEvent::new(KeyCode::Enter, false));
    assert!(!app.waiting_for_next);
    assert_eq!(app.timer.phase, Phase::Break);
    assert_eq!(app.timer.remaining.as_secs(), 300);
    assert_eq!((records, announcements), (1, 1));
    assert_eq!(app.summary_text(), "Completed 1 focus session · 26 min");
}

#[test]
fn start_records_and_advances_while_quit_records_and_stops() {
    for mode in [OnEnd::Start, OnEnd::Quit] {
        let mut app = test_app();
        app.timer.config.on_end = mode;
        app.timer.remaining = Duration::zero();
        assert!(app.tick_with(|_| Ok((1, 25)), |_| {}));
        assert_eq!(app.should_quit, mode == OnEnd::Quit);
        assert_eq!(
            app.timer.phase,
            if mode == OnEnd::Start {
                Phase::Break
            } else {
                Phase::Work
            }
        );
        assert_eq!(app.completed_sessions, 1);
        if mode == OnEnd::Quit {
            assert!(!app.tick_with(|_| panic!("duplicate record"), |_| {}));
        }
    }
}

#[test]
fn skipped_phases_bypass_end_action_and_preserve_pause() {
    for mode in [OnEnd::Ask, OnEnd::Quit] {
        let mut app = test_app();
        app.timer.config.on_end = mode;
        app.on_key('p');
        app.on_key('s');
        app.tick_with(|_| panic!("skip must not record"), |_| {});
        assert_eq!(app.timer.phase, Phase::Break);
        assert!(app.timer.paused);
        assert!(!app.should_quit);
        assert!(!app.waiting_for_next);
        assert_eq!(app.completed_sessions, 0);
    }
}

#[test]
fn break_completion_waits_without_recording_and_s_continues() {
    let mut app = test_app();
    app.timer.config.on_end = OnEnd::Ask;
    app.on_key('b');
    app.timer.remaining = Duration::zero();
    app.tick_with(|_| panic!("break must not record"), |_| {});
    assert!(app.waiting_for_next);
    app.on_key('s');
    assert_eq!(app.timer.phase, Phase::Work);
    assert_eq!(app.timer.current_session, 2);
    assert!(!app.waiting_for_next);
}

#[test]
fn persistence_failure_keeps_completion_and_exposes_unsaved_summary() {
    let mut app = test_app();
    app.timer.config.on_end = OnEnd::Ask;
    app.timer.remaining = Duration::zero();
    app.tick_with(|_| Err(std::io::Error::other("disk full").to_string()), |_| {});
    assert_eq!(app.completed_sessions, 1);
    assert!(app.status_message.as_ref().unwrap().contains("disk full"));
    assert!(app.summary_text().contains("1 not saved to statistics"));
    assert_eq!(app.cached_stats, (0, 0));
}

#[test]
fn shared_key_events_support_quit_extension_and_ignore_releases() {
    for key in [
        KeyEvent::new(KeyCode::Esc, false),
        KeyEvent::new(KeyCode::Char('c'), true),
    ] {
        let mut app = test_app();
        app.waiting_for_next = true;
        app.on_key_event(key);
        assert!(app.should_quit);
    }
    let mut app = test_app();
    app.on_key_event(KeyEvent::new(KeyCode::Up, false));
    assert_eq!(app.timer.remaining.as_secs(), 1560);
    let mut key = KeyEvent::new(KeyCode::Char('p'), false);
    key.kind = KeyEventKind::Release;
    app.on_key_event(key);
    assert!(!app.timer.paused);
}

#[test]
fn announcements_name_what_ended() {
    let mut app = test_app();
    app.timer.remaining = Duration::zero();
    let mut heard = String::new();
    app.tick_with(|m| Ok((1, m)), |message| heard = message.to_string());
    assert_eq!(heard, "Work session complete! Time for a break.");
    assert_eq!(app.cached_stats, (1, 25));

    app.timer.remaining = Duration::zero();
    let mut heard = String::new();
    app.tick_with(|_| panic!("breaks are not recorded"), |message| heard = message.to_string());
    assert_eq!(heard, "Break is over! Time to work.");

    app.on_key('s');
    let mut heard = String::new();
    app.tick_with(|_| panic!("skips are not recorded"), |message| heard = message.to_string());
    assert_eq!(heard, "Work session skipped.");
}

#[test]
fn failed_store_reports_the_error() {
    let mut app = test_app();
    app.timer.remaining = Duration::zero();
    app.tick_with(|_| Err("disk full".to_string()), |_| {});
    assert_eq!(app.status_message.as_deref(), Some("Statistics not saved: disk full"));
    assert_eq!(app.unsaved_sessions, 1);
    assert_eq!(
        app.summary_text(),
        "Completed 1 focus session · 25 min · 1 not saved to statistics"
    );
}

#[test]
fn summary_counts_sessions_in_plural() {
    let mut app = test_app();
    assert_eq!(app.summary_text(), "Completed 0 focus sessions · 0 min");
    app.completed_sessions = 12;
    app.completed_minutes = 300;
    assert_eq!(app.summary_text(), "Completed 12 focus sessions · 300 min");
}

#[test]
fn keys_report_whether_they_were_acted_on() {
    let mut app = test_app();
    assert!(!app.on_key('x'));
    assert!(app.on_key('p'));
    assert!(app.on_key('+'));
    assert!(!app.on_key_event(KeyEvent::new(KeyCode::Other, false)));
    assert!(app.on_key('q'));
    assert!(!app.on_key('p'));
    assert!(app.timer.paused);
}

#[test]
fn quitting_stops_the_clock_step() {
    let mut app = test_app();
    app.on_key('q');
    app.timer.remaining = Duration::zero();
    assert!(!app.tick_with(|_| panic!("quit app must not record"), |_| panic!("quiet")));
    assert_eq!(app.completed_sessions, 0);
}

#[test]
fn poll_waits_until_the_shown_second_changes() {
    let mut app = test_app();
    assert_eq!(app.poll_timeout_after(Duration::zero()), Duration::from_secs(1));
    assert_eq!(
        app.poll_timeout_after(Duration::from_millis(300)),
        Duration::from_millis(700)
    );
    assert_eq!(
        app.poll_timeout_after(Duration::from_secs(2000)),
        Duration::zero()
    );
    app.on_key('p');
    assert_eq!(
        app.poll_timeout_after(Duration::from_millis(300)),
        Duration::from_secs(30)
    );
    app.on_key('p');
    app.on_key('s');
    assert_eq!(app.poll_timeout_after(Duration::zero()), Duration::zero());
    assert!(app.poll_timeout().as_secs() <= 1);
}

#[test]
fn quit_keys_change_nothing_once_quitting() {
    for key in [
        KeyEvent::new(KeyCode::Esc, false),
        KeyEvent::new(KeyCode::Char('c'), true),
    ] {
        let mut app = test_app();
        assert!(app.on_key_event(key));
        assert!(app.should_quit);
        assert!(!app.on_key_event(key));
        assert!(app.should_quit);
    }
}

#[test]
fn cached_statistics_are_read_anew_after_thirty_seconds() {
    let start = std::time::Instant::now();
    let secs = std::time::Duration::from_secs;
    let mut app = App::with_cached_stats_at(test_config(), (2, 50), start);
    assert_eq!(app.stats_updated_at, start);
    assert_eq!(app.today_stats_after(0, start, || panic!("fresh statistics are cached")), (2, 50));
    assert_eq!(app.today_stats_at(start + secs(29), || panic!("fresh statistics are cached")), (2, 50));
    assert_eq!(app.stats_updated_at, start);
    assert_eq!(app.today_stats_at(start + secs(30), || (3, 75)), (3, 75));
    assert_eq!(app.cached_stats, (3, 75));
    assert_eq!(app.stats_updated_at, start + secs(30));
    assert_eq!(app.today_stats_at(start + secs(59), || panic!("the cache was just set")), (3, 75));
    assert_eq!(app.today_stats_after(30, start + secs(90), || (4, 100)), (4, 100));
    assert_eq!(app.stats_updated_at, start + secs(90));
}

#[test]
fn a_stored_work_phase_restarts_the_cache_age() {
    let start = std::time::Instant::now();
    let secs = std::time::Duration::from_secs;
    let mut app = App::with_cached_stats_at(test_config(), (0, 0), start);
    assert!(app.tick_with_at(start + secs(1500), |m| Ok((1, m)), |_| {}));
    assert_eq!(app.stats_updated_at, start + secs(1500));
    assert_eq!(app.timer.last_tick, start + secs(1500));
    assert_eq!(app.today_stats_at(start + secs(1520), || panic!("just stored")), (1, 25));

    let mut app = App::with_cached_stats_at(test_config(), (0, 0), start);
    app.tick_with_at(start + secs(1500), |_| Err("disk full".to_string()), |_| {});
    assert_eq!(app.stats_updated_at, start);
}

#[test]
fn pausing_and_moving_on_restart_the_measured_time() {
    let start = std::time::Instant::now();
    let secs = std::time::Duration::from_secs;
    let mut app = App::with_cached_stats_at(test_config(), (0, 0), start);
    assert!(app.on_key_at('p', start + secs(10)));
    assert_eq!(app.timer.last_tick, start + secs(10));
    app.tick_with_at(start + secs(400), |_| panic!("paused"), |_| panic!("paused"));
    assert_eq!(app.timer.remaining.as_secs(), 1500);
    assert!(app.on_key_at('p', start + secs(500)));
    app.tick_with_at(start + secs(501), |_| panic!("running"), |_| panic!("running"));
    assert_eq!(app.timer.remaining.as_secs(), 1499);
    assert!(app.on_key_at('+', start + secs(600)));
    assert_eq!(app.timer.last_tick, start + secs(501));

    let mut config = test_config();
    config.on_end = OnEnd::Ask;
    let mut app = App::with_cached_stats_at(config, (0, 0), start);
    app.tick_with_at(start + secs(1500), |m| Ok((1, m)), |_| {});
    assert!(app.waiting_for_next);
    assert_eq!(app.timer.last_tick, start + secs(1500));
    app.tick_with_at(start + secs(2000), |_| panic!("waiting"), |_| panic!("waiting"));
    assert_eq!(app.timer.last_tick, start + secs(1500));
    assert!(app.on_key_event_at(KeyEvent::new(KeyCode::Enter, false), start + secs(3000)));
    assert_eq!(app.timer.last_tick, start + secs(3000));
    app.tick_with_at(start + secs(3001), |_| panic!("break"), |_| panic!("break"));
    assert_eq!(app.timer.remaining.as_secs(), 299);
}

#[test]
fn a_clock_reading_past_the_deadline_completes_work() {
    let mut app = test_app();
    let start = app.timer.last_tick;
    let mut minutes = 0;
    let mut heard = String::new();
    assert!(app.tick_with_at(
        start + std::time::Duration::from_secs(1499),
        |_| panic!("not yet over"),
        |_| panic!("not yet over"),
    ));
    assert_eq!(app.timer.remaining.as_secs(), 1);
    assert_eq!(app.timer.phase, Phase::Work);
    let start = app.timer.last_tick;
    assert!(app.tick_with_at(
        start + std::time::Duration::from_secs(1),
        |m| {
            minutes = m;
            Ok((1, m))
        },
        |message| heard = message.to_string(),
    ));
    assert_eq!(minutes, 25);
    assert_eq!(heard, "Work session complete! Time for a break.");
    assert_eq!(app.timer.phase, Phase::Break);
    assert_eq!(app.completed_sessions, 1);
}

#[test]
fn a_new_application_reads_todays_statistics_once() {
    let app = App::new(test_config(), || (4, 100));
    assert_eq!(app.cached_stats, (4, 100));
    assert_eq!(app.summary_text(), "Completed 0 focus sessions · 0 min");
    assert!(!app.should_quit && !app.waiting_for_next);
}
