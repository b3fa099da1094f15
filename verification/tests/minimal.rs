use ratatui::text::Span;
use tomatui::app::App;
use tomatui::config::OnEnd;
use tomatui::minimal::{is_control, line_for_width, phase_color_code};
use tomatui::timer::{Phase, TimerConfig};

fn app() -> App {
    App::with_cached_stats(
        TimerConfig {
            work_secs: 1500,
            break_secs: 300,
            long_break_secs: 900,
            sessions: 4,
            on_end: OnEnd::Start,
        },
        (0, 0),
    )
}

#[test]
fn line_never_wraps_even_in_a_one_column_pane() {
    let mut app = app();
    for waiting in [false, true] {
        app.waiting_for_next = waiting;
        for width in 0..120 {
            let line = line_for_width(&app, width, 0);
            assert!(Span::raw(line).width() <= usize::from(width.saturating_sub(1)));
        }
    }
    assert!(line_for_width(&app, 80, 0).contains("Enter/s next"));
}

#[test]
fn errors_with_wide_characters_fit_without_control_sequences() {
    let mut app = app();
    app.status_message = Some("保存失敗\nTry again".into());
    let line = line_for_width(&app, 28, 0);
    assert!(Span::raw(&line).width() <= 27);
    assert!(!line.contains('\n'));
}

#[test]
fn wide_terminal_shows_bar_session_and_controls() {
    let app = app();
    let line = line_for_width(&app, 100, 4);
    assert_eq!(
        line,
        "25:00 Work  ████░░░░░░░░░░░░  1/4  p pause  + 1m  q quit"
    );
    let narrow = line_for_width(&app, 40, 4);
    assert_eq!(narrow, "25:00 Work  p pause  q quit");
    let tiny = line_for_width(&app, 6, 4);
    assert_eq!(tiny, "25:00");
}

#[test]
fn paused_line_names_the_state() {
    let mut app = app();
    app.on_key('p');
    assert_eq!(line_for_width(&app, 30, 0), "25:00 Work paused  p pause  q");
}

#[test]
fn phases_have_their_colours() {
    assert_eq!(phase_color_code(Phase::Work), "\x1b[31m");
    assert_eq!(phase_color_code(Phase::Break), "\x1b[32m");
    assert_eq!(phase_color_code(Phase::LongBreak), "\x1b[34m");
    assert!(is_control('\n') && is_control('\u{85}') && !is_control('a') && !is_control('\u{a0}'));
}
