use std::time::Instant;
use vstd::prelude::*;

use crate::clock::{instant_now, instant_span, span_nanos, time_between};
use crate::config::{OnEnd, SECONDS_PER_MINUTE};
use crate::duration::{Duration, NANOS_PER_SEC};
use crate::text::{decimal, decimal_text};
use crate::timer::{Phase, Timer, TimerConfig, TimerView};

verus! {

/// The key that quits.
pub const QUIT_KEY: char = 'q';

/// The key that pauses and resumes.
pub const PAUSE_KEY: char = 'p';

/// The other key that pauses and resumes.
pub const SPACE_KEY: char = ' ';

/// The key that skips a phase, or moves on from a finished one.
pub const SKIP_KEY: char = 's';

/// The key that switches to work.
pub const WORK_KEY: char = 'w';

/// The key that switches to a break.
pub const BREAK_KEY: char = 'b';

/// The key that adds one minute.
pub const EXTEND_KEY: char = '+';

/// The character that the Enter key stands for.
pub const ENTER_KEY: char = '\n';

/// How long the cached statistics of today stay fresh, in seconds.
pub const STATS_CACHE_SECS: u64 = 30;

/// How long an idle display waits for input before looking again, in seconds.
pub const IDLE_WAIT_SECS: u64 = 30;

/// Announced when a work phase runs out.
pub const WORK_COMPLETE_MESSAGE: &'static str = "Work session complete! Time for a break.";

/// Announced when a work phase is skipped.
pub const WORK_SKIPPED_MESSAGE: &'static str = "Work session skipped.";

/// Announced when a break ends.
pub const BREAK_COMPLETE_MESSAGE: &'static str = "Break is over! Time to work.";

/// The keys that the timer tells apart.
#[derive(Debug, Clone, Copy, PartialEq, Eq, Structural)]
pub enum KeyCode {
    Char(char),
    Enter,
    Esc,
    Up,
    Other,
}

/// Whether a key went down, repeats, or came up.
#[derive(Debug, Clone, Copy, PartialEq, Eq, Structural)]
pub enum KeyEventKind {
    Press,
    Repeat,
    Release,
}

/// A key as the terminal reports it: which key, whether Control was held, and what
/// happened to it.
#[derive(Debug, Clone, Copy, PartialEq, Eq, Structural)]
pub struct KeyEvent {
    pub code: KeyCode,
    pub control: bool,
    pub kind: KeyEventKind,
}

impl KeyEvent {
    /// A key press.
    pub fn new(code: KeyCode, control: bool) -> (k: KeyEvent)
        ensures
            k == (KeyEvent { code, control, kind: KeyEventKind::Press }),
    {
        KeyEvent { code, control, kind: KeyEventKind::Press }
    }
}

/// `a + b`, or `u32::MAX` where that does not fit.
pub open spec fn saturated_u32(a: u32, b: nat) -> u32 {
    if a + b > u32::MAX {
        u32::MAX
    } else {
        (a + b) as u32
    }
}

/// `a + b`, or `u64::MAX` where that does not fit.
pub open spec fn saturated_u64(a: u64, b: nat) -> u64 {
    if a + b > u64::MAX {
        u64::MAX
    } else {
        (a + b) as u64
    }
}

impl TimerView {
    /// Whether the phase that just ended is work that ran out, which is recorded.
    pub open spec fn records_work(self) -> bool {
        self.phase == Phase::Work && !self.skipped
    }

    /// The planned minutes of the phase, added minutes included.
    pub open spec fn work_minutes(self) -> u64 {
        (self.total / NANOS_PER_SEC as nat / SECONDS_PER_MINUTE as nat) as u64
    }
}

/// The running application apart from its clock readings.
pub ghost struct AppView {
    pub timer: TimerView,
    pub should_quit: bool,
    pub waiting_for_next: bool,
    pub status_message: Option<Seq<char>>,
    pub completed_sessions: u32,
    pub completed_minutes: u64,
    pub unsaved_sessions: u32,
    pub cached_stats: (u32, u64),
}

/// The view of what the statistics store answered to a recorded work phase.
pub open spec fn answer_view(answer: Result<(u32, u64), String>) -> Result<(u32, u64), Seq<char>> {
    match answer {
        Ok(day) => Ok(day),
        Err(e) => Err(e@),
    }
}

impl AppView {
    /// Whether a key reaches a move to the next phase.
    pub open spec fn key_advances(self, key: char) -> bool {
        &&& !self.should_quit
        &&& key != QUIT_KEY
        &&& if self.waiting_for_next {
            key == ENTER_KEY || key == SKIP_KEY
        } else {
            key == WORK_KEY
        }
    }

    /// The application after a key: nothing changes once quitting; `q` quits; while a
    /// finished phase waits, only Enter and `s` (moving on) count; otherwise `p` and
    /// space pause or resume, `s` skips, `w` and `b` switch, `+` adds a minute.
    pub open spec fn after_key(self, key: char) -> AppView {
        if self.should_quit {
            self
        } else if key == QUIT_KEY {
            AppView { should_quit: true, ..self }
        } else if self.waiting_for_next {
            if key == ENTER_KEY || key == SKIP_KEY {
                AppView { waiting_for_next: false, timer: self.timer.advanced(), ..self }
            } else {
                self
            }
        } else if key == PAUSE_KEY || key == SPACE_KEY {
            AppView { timer: self.timer.toggled(), ..self }
        } else if key == SKIP_KEY {
            AppView { timer: self.timer.skipped_phase(), ..self }
        } else if key == WORK_KEY {
            AppView { timer: self.timer.switched_to_work(), ..self }
        } else if key == BREAK_KEY {
            AppView { timer: self.timer.switched_to_break(), ..self }
        } else if key == EXTEND_KEY && self.timer.can_extend() {
            AppView { timer: self.timer.extended(), ..self }
        } else {
            self
        }
    }

    /// Whether a key is acted on rather than ignored.
    pub open spec fn key_acted_on(self, key: char) -> bool {
        if self.should_quit {
            false
        } else if key == QUIT_KEY {
            true
        } else if self.waiting_for_next {
            key == ENTER_KEY || key == SKIP_KEY
        } else if key == EXTEND_KEY {
            self.timer.can_extend()
        } else {
            key == PAUSE_KEY || key == SPACE_KEY || key == SKIP_KEY || key == WORK_KEY || key
                == BREAK_KEY
        }
    }

    /// The character that a key event stands for in `after_key`, if any.
    pub open spec fn key_char(key: KeyEvent) -> Option<char> {
        match key.code {
            KeyCode::Enter => Some(ENTER_KEY),
            KeyCode::Up => Some(EXTEND_KEY),
            KeyCode::Char(c) => Some(c),
            _ => None,
        }
    }

    /// Whether a key event quits directly: Escape, or Control with `c`.
    pub open spec fn quits_directly(key: KeyEvent) -> bool {
        key.code == KeyCode::Esc || (key.control && key.code == KeyCode::Char('c'))
    }

    /// The application after a key event: only presses count; Escape and Control-C
    /// quit in every state; Enter, Up and characters act as `after_key`.
    pub open spec fn after_key_event(self, key: KeyEvent) -> AppView {
        if key.kind != KeyEventKind::Press {
            self
        } else if AppView::quits_directly(key) {
            AppView { should_quit: true, ..self }
        } else {
            match AppView::key_char(key) {
                Some(c) => self.after_key(c),
                None => self,
            }
        }
    }

    /// Whether a key event is acted on rather than ignored.
    pub open spec fn key_event_acted_on(self, key: KeyEvent) -> bool {
        if key.kind != KeyEventKind::Press {
            false
        } else if AppView::quits_directly(key) {
            !self.should_quit
        } else {
            match AppView::key_char(key) {
                Some(c) => self.key_acted_on(c),
                None => false,
            }
        }
    }

    /// The counters after a work phase ran out and the statistics store answered:
    /// the session and its minutes count either way; a stored day replaces the
    /// cached statistics, a failure counts as unsaved and is reported.
    pub open spec fn recorded(self, minutes: u64, answer: Result<(u32, u64), Seq<char>>) -> AppView {
        let counted = AppView {
            completed_sessions: saturated_u32(self.completed_sessions, 1),
            completed_minutes: saturated_u64(self.completed_minutes, minutes as nat),
            ..self
        };
        match answer {
            Ok(day) => AppView { cached_stats: day, ..counted },
            Err(e) => AppView {
                unsaved_sessions: saturated_u32(self.unsaved_sessions, 1),
                status_message: Some("Statistics not saved: "@ + e),
                ..counted
            },
        }
    }

    /// What follows a phase that ended: a skipped one moves on; one that ran out
    /// waits, moves on or quits, as the settings say.
    pub open spec fn ended(self) -> AppView {
        if self.timer.skipped {
            AppView { timer: self.timer.advanced(), ..self }
        } else {
            match self.timer.config.on_end {
                OnEnd::Ask => AppView { waiting_for_next: true, ..self },
                OnEnd::Start => AppView { timer: self.timer.advanced(), ..self },
                OnEnd::Quit => AppView { should_quit: true, ..self },
            }
        }
    }

    /// Whether a tick that ends the phase may move on to the next one.
    pub open spec fn tick_may_advance(self) -> bool {
        &&& !self.waiting_for_next
        &&& !self.should_quit
        &&& (self.timer.skipped || self.timer.config.on_end == OnEnd::Start)
    }

    /// Whether a key makes the timer measure its time from the moment of the key on:
    /// pausing or resuming, switching, and moving on from a finished phase do; quitting,
    /// skipping, adding a minute and ignored keys do not.
    pub open spec fn key_restarts_clock(self, key: char) -> bool {
        &&& !self.should_quit
        &&& key != QUIT_KEY
        &&& if self.waiting_for_next {
            key == ENTER_KEY || key == SKIP_KEY
        } else {
            key == PAUSE_KEY || key == SPACE_KEY || key == WORK_KEY || key == BREAK_KEY
        }
    }

    /// Whether a key event makes the timer measure its time from the moment of the
    /// event on: a press that stands for such a key.
    pub open spec fn key_event_restarts_clock(self, key: KeyEvent) -> bool {
        &&& key.kind == KeyEventKind::Press
        &&& !AppView::quits_directly(key)
        &&& match AppView::key_char(key) {
            Some(c) => self.key_restarts_clock(c),
            None => false,
        }
    }

    /// Whether a clock step `elapsed` nanoseconds after the last reading makes the
    /// timer measure from this step on: a running phase is measured up to it, and a
    /// phase that moves on starts from it. A phase that stays over while waiting, or an
    /// application that quits, keeps its last reading.
    pub open spec fn tick_restarts_clock(self, elapsed: nat) -> bool {
        &&& !self.waiting_for_next
        &&& !self.should_quit
        &&& (!self.timer.finished() || self.timer.tick_completes(elapsed) && (
        self.timer.ticked(elapsed).skipped || self.timer.config.on_end == OnEnd::Start))
    }

    /// Whether a clock step `elapsed` nanoseconds after the last reading stores a work
    /// phase that ran out, the store answering `answer`, which refreshes the cached
    /// statistics.
    pub open spec fn tick_stores(self, elapsed: nat, answer: Result<(u32, u64), String>) -> bool {
        &&& !self.waiting_for_next
        &&& !self.should_quit
        &&& self.timer.tick_completes(elapsed)
        &&& self.timer.ticked(elapsed).records_work()
        &&& answer is Ok
    }

    /// The wait for input until the shown time changes, in nanoseconds, `since`
    /// nanoseconds after the last clock reading: idle while paused or waiting, none
    /// once the phase is over, else up to the next whole second of the countdown.
    pub open spec fn wait_after(self, since: nat) -> nat {
        if self.timer.paused || self.waiting_for_next {
            IDLE_WAIT_SECS as nat * NANOS_PER_SEC as nat
        } else if self.timer.finished() || since >= self.timer.remaining {
            0
        } else {
            let left = (self.timer.remaining - since) as nat;
            if left % NANOS_PER_SEC as nat > 0 {
                left % NANOS_PER_SEC as nat
            } else {
                NANOS_PER_SEC as nat
            }
        }
    }

    /// The notice announced when a phase ends as `t` shows it.
    pub open spec fn notice(t: TimerView) -> &'static str {
        if t.records_work() {
            WORK_COMPLETE_MESSAGE
        } else if t.phase == Phase::Work {
            WORK_SKIPPED_MESSAGE
        } else {
            BREAK_COMPLETE_MESSAGE
        }
    }

    /// What a clock step does when `elapsed` nanoseconds passed since the last reading:
    /// nothing while quitting or waiting; otherwise the timer is ticked, and the
    /// display redraws when the shown seconds change. Where the phase ends, `announce`
    /// is given the notice of what ended; work that ran out is handed with its planned
    /// minutes to `record`, whose answer is taken in; then the step that the settings
    /// call for is taken.
    pub open spec fn ticked_as<R, A>(
        self,
        after: AppView,
        elapsed: nat,
        redraw: bool,
        record: R,
        announce: A,
    ) -> bool where R: FnOnce(u64) -> Result<(u32, u64), String>, A: FnOnce(&str) {
        exists|answer: Result<(u32, u64), String>|
            #[trigger] self.ticked_answering(after, elapsed, redraw, record, announce, answer)
    }

    /// `ticked_as`, where the statistics store, if asked, answered `answer`.
    pub open spec fn ticked_answering<R, A>(
        self,
        after: AppView,
        elapsed: nat,
        redraw: bool,
        record: R,
        announce: A,
        answer: Result<(u32, u64), String>,
    ) -> bool where R: FnOnce(u64) -> Result<(u32, u64), String>, A: FnOnce(&str) {
        let t = self.timer.ticked(elapsed);
        let clocked = AppView { timer: t, ..self };
        if self.waiting_for_next || self.should_quit {
            after == self && !redraw
        } else if !self.timer.tick_completes(elapsed) {
            after == clocked && redraw == (t.shown_seconds() != self.timer.shown_seconds())
        } else {
            &&& redraw
            &&& call_ensures(announce, (AppView::notice(t),), ())
            &&& if t.records_work() {
                call_ensures(record, (t.work_minutes(),), answer) && after == clocked.recorded(
                    t.work_minutes(),
                    answer_view(answer),
                ).ended()
            } else {
                after == clocked.ended()
            }
        }
    }

    /// The summary printed on exit.
    pub open spec fn summary(self) -> Seq<char> {
        let noun = if self.completed_sessions == 1 {
            "session"@
        } else {
            "sessions"@
        };
        let base = "Completed "@ + decimal(self.completed_sessions as nat) + " focus "@ + noun
            + " · "@ + decimal(self.completed_minutes as nat) + " min"@;
        if self.unsaved_sessions > 0 {
            base + " · "@ + decimal(self.unsaved_sessions as nat)
                + " not saved to statistics"@
        } else {
            base
        }
    }
}


/// The summary reports the sessions whose store failed, and only them: with none
/// it is the summary of completed work alone; with some, that summary followed by
/// their count, whatever else was completed.
pub proof fn lemma_summary_reports_unsaved(v: AppView)
    ensures
        v.unsaved_sessions == 0 ==> v.summary() == (AppView { unsaved_sessions: 0, ..v }).summary(),
        v.unsaved_sessions > 0 ==> v.summary() == (AppView { unsaved_sessions: 0, ..v }).summary()
            + " · "@ + decimal(v.unsaved_sessions as nat) + " not saved to statistics"@,
{
}

/// Each failed store adds one to the count that the summary reports as not saved.
pub proof fn lemma_failed_store_is_reported(v: AppView, minutes: u64, error: Seq<char>)
    requires
        v.unsaved_sessions < u32::MAX,
    ensures
        ({
            let after = v.recorded(minutes, Err(error));
            after.summary() == (AppView { unsaved_sessions: 0, ..after }).summary() + " · "@
                + decimal((v.unsaved_sessions + 1) as nat) + " not saved to statistics"@
        }),
{
    lemma_summary_reports_unsaved(v.recorded(minutes, Err(error)));
}

/// Once quitting, neither keys nor key events change anything.
pub proof fn lemma_quitting_is_final(v: AppView, key: char, event: KeyEvent)
    requires
        v.should_quit,
    ensures
        v.after_key(key) == v,
        !v.key_acted_on(key),
        v.after_key_event(event).should_quit,
        v.after_key_event(event).timer == v.timer,
{
}

/// `q`, Escape and Control-C quit, whether a finished phase waits or not; released keys
/// are ignored.
pub proof fn lemma_quit_keys_quit(v: AppView)
    ensures
        v.after_key(QUIT_KEY).should_quit,
        v.after_key_event(KeyEvent { code: KeyCode::Esc, control: false, kind: KeyEventKind::Press }).should_quit,
        v.after_key_event(
            KeyEvent { code: KeyCode::Char('c'), control: true, kind: KeyEventKind::Press },
        ).should_quit,
        forall|key: KeyEvent|
            key.kind == KeyEventKind::Release ==> #[trigger] v.after_key_event(key) == v,
{
}

/// While a finished phase waits, only Enter and `s` move on (and `q` quits); pausing,
/// adding a minute and switching phases are ignored.
pub proof fn lemma_waiting_ignores_other_keys(v: AppView, key: char)
    requires
        v.waiting_for_next,
        !v.should_quit,
        key != QUIT_KEY,
    ensures
        key == ENTER_KEY || key == SKIP_KEY ==> v.after_key(key) == (AppView {
            waiting_for_next: false,
            timer: v.timer.advanced(),
            ..v
        }),
        !(key == ENTER_KEY || key == SKIP_KEY) ==> v.after_key(key) == v,
{
}

/// A phase that ran out with `ask` waits at zero for a key, and one with `quit` quits;
/// either way the timer stays where it ended, and a tick does nothing more until a
/// key moves on.
pub proof fn lemma_ended_phase_waits_or_quits(v: AppView)
    requires
        !v.timer.skipped,
        v.timer.config.on_end != OnEnd::Start,
    ensures
        v.ended().timer == v.timer,
        v.timer.config.on_end == OnEnd::Ask ==> v.ended().waiting_for_next,
        v.timer.config.on_end == OnEnd::Quit ==> v.ended().should_quit,
        v.ended().waiting_for_next || v.ended().should_quit,
{
}

/// A skipped phase moves straight on, whatever the settings say, keeping the pause.
pub proof fn lemma_skip_bypasses_end_action(v: AppView)
    requires
        v.timer.skipped,
    ensures
        v.ended() == (AppView { timer: v.timer.advanced(), ..v }),
        v.ended().timer.paused == v.timer.paused,
        !v.ended().waiting_for_next || v.waiting_for_next,
        !v.ended().should_quit || v.should_quit,
{
}

/// Skipped work is never recorded: after `s`, whatever time passes, the phase that
/// ends is not recorded.
pub proof fn lemma_skipped_work_is_not_recorded(v: AppView, elapsed: nat)
    requires
        !v.should_quit,
        !v.waiting_for_next,
    ensures
        v.after_key(SKIP_KEY).timer.tick_completes(elapsed),
        !v.after_key(SKIP_KEY).timer.ticked(elapsed).records_work(),
{
}

/// Work that ran out counts in the run's summary whether or not the store kept it;
/// a failure is counted as unsaved and reported.
pub proof fn lemma_failed_store_still_counts(v: AppView, minutes: u64, error: Seq<char>)
    requires
        v.completed_sessions < u32::MAX,
        v.unsaved_sessions < u32::MAX,
    ensures
        v.recorded(minutes, Err(error)).completed_sessions == v.completed_sessions + 1,
        v.recorded(minutes, Err(error)).unsaved_sessions == v.unsaved_sessions + 1,
        v.recorded(minutes, Err(error)).status_message == Some("Statistics not saved: "@ + error),
        v.recorded(minutes, Err(error)).cached_stats == v.cached_stats,
{
}

/// A minute added to a phase counts in the minutes recorded for it.
pub proof fn lemma_added_minute_is_recorded(t: TimerView)
    requires
        t.can_extend(),
    ensures
        t.extended().work_minutes() == t.work_minutes() + 1,
{
    let total = t.total;
    assert((total + 60 * 1_000_000_000) / 1_000_000_000 / 60 == total / 1_000_000_000 / 60 + 1)
        by (nonlinear_arith)
        requires
            total >= 0,
    ;
    assert(t.work_minutes() < u64::MAX) by (nonlinear_arith)
        requires
            total + 60 * 1_000_000_000 <= u64::MAX as nat * 1_000_000_000 + 999_999_999,
            t.work_minutes() == total / 1_000_000_000 / 60,
    ;
}


/// A key or key event that is not acted on changes nothing, so it needs no redraw.
pub proof fn lemma_ignored_keys_change_nothing(v: AppView, key: char, event: KeyEvent)
    ensures
        !v.key_acted_on(key) ==> v.after_key(key) == v,
        !v.key_event_acted_on(event) ==> v.after_key_event(event) == v,
{
}

/// The running timer application: the timer, whether it quits or waits after a
/// finished phase, the message about a failure to store statistics, the work
/// completed in this run, and today's statistics as last read.
pub struct App {
    pub timer: Timer,
    pub should_quit: bool,
    pub waiting_for_next: bool,
    pub status_message: Option<String>,
    pub completed_sessions: u32,
    pub completed_minutes: u64,
    pub unsaved_sessions: u32,
    pub cached_stats: (u32, u64),
    /// The clock reading at which `cached_stats` was last refreshed.
    pub stats_updated_at: Instant,
}

impl View for App {
    type V = AppView;

    open spec fn view(&self) -> AppView {
        AppView {
            timer: self.timer@,
            should_quit: self.should_quit,
            waiting_for_next: self.waiting_for_next,
            status_message: match self.status_message {
                Some(s) => Some(s@),
                None => None,
            },
            completed_sessions: self.completed_sessions,
            completed_minutes: self.completed_minutes,
            unsaved_sessions: self.unsaved_sessions,
            cached_stats: self.cached_stats,
        }
    }
}

impl App {
    /// A fresh application with today's statistics as read at the clock reading
    /// `now`, from which the timer measures too.
    pub fn with_cached_stats_at(config: TimerConfig, cached_stats: (u32, u64), now: Instant) -> (app: App)
        ensures
            app@ == (AppView {
                timer: TimerView::initial(config),
                should_quit: false,
                waiting_for_next: false,
                status_message: None,
                completed_sessions: 0,
                completed_minutes: 0,
                unsaved_sessions: 0,
                cached_stats,
            }),
            app.timer.last_tick == now,
            app.stats_updated_at == now,
    {
        App {
            timer: Timer::new_at(config, now),
            should_quit: false,
            waiting_for_next: false,
            status_message: None,
            completed_sessions: 0,
            completed_minutes: 0,
            unsaved_sessions: 0,
            cached_stats,
            stats_updated_at: now,
        }
    }

    /// A fresh application with today's statistics as read at start, at a fresh
    /// reading of the clock.
    pub fn with_cached_stats(config: TimerConfig, cached_stats: (u32, u64)) -> (app: App)
        ensures
            app@ == (AppView {
                timer: TimerView::initial(config),
                should_quit: false,
                waiting_for_next: false,
                status_message: None,
                completed_sessions: 0,
                completed_minutes: 0,
                unsaved_sessions: 0,
                cached_stats,
            }),
    {
        App::with_cached_stats_at(config, cached_stats, instant_now())
    }

    /// A fresh application with today's statistics as `fetch` reads them at start.
    pub fn new<F>(config: TimerConfig, fetch: F) -> (app: App) where
        F: FnOnce() -> (u32, u64),

        requires
            call_requires(fetch, ()),
        ensures
            call_ensures(fetch, (), app.cached_stats),
            app@ == (AppView {
                timer: TimerView::initial(config),
                should_quit: false,
                waiting_for_next: false,
                status_message: None,
                completed_sessions: 0,
                completed_minutes: 0,
                unsaved_sessions: 0,
                cached_stats: app.cached_stats,
            }),
    {
        let cached_stats = fetch();
        App::with_cached_stats(config, cached_stats)
    }

    /// Counts a work phase that ran out and takes in what the statistics store
    /// answered to recording it at the clock reading `now`.
    fn note_recorded(&mut self, minutes: u64, answer: Result<(u32, u64), String>, now: Instant)
        ensures
            final(self)@ == old(self)@.recorded(minutes, answer_view(answer)),
            final(self).timer.last_tick == old(self).timer.last_tick,
            final(self).stats_updated_at == if answer is Ok {
                now
            } else {
                old(self).stats_updated_at
            },
    {
        self.completed_sessions = self.completed_sessions.saturating_add(1);
        self.completed_minutes = self.completed_minutes.saturating_add(minutes);
        match answer {
            Ok(today) => {
                self.cached_stats = today;
                self.stats_updated_at = now;
            },
            Err(error) => {
                self.unsaved_sessions = self.unsaved_sessions.saturating_add(1);
                let mut message = String::from_str("Statistics not saved: ");
                message.append(error.as_str());
                self.status_message = Some(message);
            },
        }
    }

    /// Takes the step that follows a phase that ended, at the clock reading `now`.
    fn end_phase(&mut self, now: Instant)
        requires
            old(self)@.timer.skipped || old(self)@.timer.config.on_end == OnEnd::Start
                ==> old(self)@.timer.can_advance(),
        ensures
            final(self)@ == old(self)@.ended(),
            final(self).timer.last_tick == if old(self)@.timer.skipped
                || old(self)@.timer.config.on_end == OnEnd::Start {
                now
            } else {
                old(self).timer.last_tick
            },
            final(self).stats_updated_at == old(self).stats_updated_at,
    {
        if self.timer.skipped {
            self.timer.advance_phase_at(now);
        } else {
            match self.timer.config.on_end {
                OnEnd::Ask => self.waiting_for_next = true,
                OnEnd::Start => self.timer.advance_phase_at(now),
                OnEnd::Quit => self.should_quit = true,
            }
        }
    }

    /// Advances the clock to the reading `now`, and where the phase ended: asks
    /// `record` to store a work phase that ran out (with its planned minutes), tells
    /// `announce` what ended, and takes the step that the settings call for. Nothing
    /// happens while quitting or while a finished phase waits. Returns whether the
    /// display needs redrawing: see `AppView::ticked_as`, with the time from the last
    /// reading to `now`. What the store answers is outside the application's hands.
    pub fn tick_with_at<R, A>(&mut self, now: Instant, record: R, announce: A) -> (redraw: bool) where
        R: FnOnce(u64) -> Result<(u32, u64), String>,
        A: FnOnce(&str),

        requires
            forall|minutes: u64| call_requires(record, (minutes,)),
            forall|message: &str| call_requires(announce, (message,)),
            old(self)@.tick_may_advance() ==> old(self)@.timer.can_advance(),
        ensures
            old(self)@.ticked_as(
                final(self)@,
                span_nanos(instant_span(now, old(self).timer.last_tick)),
                redraw,
                record,
                announce,
            ),
            exists|answer: Result<(u32, u64), String>|
                {
                    &&& #[trigger] old(self)@.ticked_answering(
                        final(self)@,
                        span_nanos(instant_span(now, old(self).timer.last_tick)),
                        redraw,
                        record,
                        announce,
                        answer,
                    )
                    &&& final(self).stats_updated_at == if old(self)@.tick_stores(
                        span_nanos(instant_span(now, old(self).timer.last_tick)),
                        answer,
                    ) {
                        now
                    } else {
                        old(self).stats_updated_at
                    }
                },
            final(self).timer.last_tick == if old(self)@.tick_restarts_clock(
                span_nanos(instant_span(now, old(self).timer.last_tick)),
            ) {
                now
            } else {
                old(self).timer.last_tick
            },
    {
        let ghost elapsed = span_nanos(instant_span(now, self.timer.last_tick));
        if self.waiting_for_next || self.should_quit {
            assert(self@.ticked_answering(self@, elapsed, false, record, announce, arbitrary()));
            return false;
        }
        let ghost before = self@;
        let previous = self.timer.display_seconds();
        let done = self.timer.tick_at(now);
        let ghost clocked = AppView { timer: before.timer.ticked(elapsed), ..before };
        assert(self@ == clocked);
        if !done {
            let shown = self.timer.display_seconds();
            let redraw = shown != previous;
            assert(before.ticked_answering(self@, elapsed, redraw, record, announce, arbitrary()));
            return redraw;
        }
        let skipped = self.timer.skipped;
        let ghost mut answered: Option<Result<(u32, u64), String>> = None;
        let message = if self.timer.phase == Phase::Work && !skipped {
            let work_minutes = self.timer.total.as_secs() / SECONDS_PER_MINUTE;
            let answer = record(work_minutes);
            proof {
                answered = Some(answer);
            }
            self.note_recorded(work_minutes, answer, now);
            WORK_COMPLETE_MESSAGE
        } else if self.timer.phase == Phase::Work {
            WORK_SKIPPED_MESSAGE
        } else {
            BREAK_COMPLETE_MESSAGE
        };
        let ghost settled = self@;
        assert(message == AppView::notice(before.timer.ticked(elapsed)));
        announce(message);
        assert(self@ == settled);
        self.end_phase(now);
        proof {
            let t = before.timer.ticked(elapsed);
            if t.records_work() {
                let answer = answered->0;
                assert(call_ensures(record, (t.work_minutes(),), answer));
                assert(self@ == clocked.recorded(t.work_minutes(), answer_view(answer)).ended());
                assert(before.ticked_answering(self@, elapsed, true, record, announce, answer));
            } else {
                let answer: Result<(u32, u64), String> = arbitrary();
                assert(self@ == clocked.ended());
                assert(before.ticked_answering(self@, elapsed, true, record, announce, answer));
            }
        }
        true
    }

    /// `tick_with_at` with a fresh reading of the clock; how much time passed since
    /// the last reading depends on when the call is made.
    pub fn tick_with<R, A>(&mut self, record: R, announce: A) -> (redraw: bool) where
        R: FnOnce(u64) -> Result<(u32, u64), String>,
        A: FnOnce(&str),

        requires
            forall|minutes: u64| call_requires(record, (minutes,)),
            forall|message: &str| call_requires(announce, (message,)),
            old(self)@.tick_may_advance() ==> old(self)@.timer.can_advance(),
        ensures
            exists|elapsed: nat|
                #[trigger] old(self)@.ticked_as(final(self)@, elapsed, redraw, record, announce),
            exists|now: Instant|
                {
                    let elapsed = span_nanos(#[trigger] instant_span(now, old(self).timer.last_tick));
                    &&& old(self)@.ticked_as(final(self)@, elapsed, redraw, record, announce)
                    &&& final(self).timer.last_tick == if old(self)@.tick_restarts_clock(elapsed) {
                        now
                    } else {
                        old(self).timer.last_tick
                    }
                },
    {
        let now = instant_now();
        let ghost elapsed = span_nanos(instant_span(now, self.timer.last_tick));
        let redraw = self.tick_with_at(now, record, announce);
        assert(old(self)@.ticked_as(final(self)@, elapsed, redraw, record, announce));
        redraw
    }

    /// Acts on a key pressed at the clock reading `now`: see `AppView::after_key`.
    /// Where the key pauses, resumes, switches or moves on, the timer measures from
    /// `now` on. Returns whether the key was acted on.
    pub fn on_key_at(&mut self, key: char, now: Instant) -> (acted: bool)
        requires
            old(self)@.key_advances(key) ==> old(self)@.timer.can_advance(),
        ensures
            final(self)@ == old(self)@.after_key(key),
            acted == old(self)@.key_acted_on(key),
            final(self).timer.last_tick == if old(self)@.key_restarts_clock(key) {
                now
            } else {
                old(self).timer.last_tick
            },
            final(self).stats_updated_at == old(self).stats_updated_at,
    {
        if self.should_quit {
            return false;
        }
        if key == QUIT_KEY {
            self.should_quit = true;
            return true;
        }
        if self.waiting_for_next {
            if key == ENTER_KEY || key == SKIP_KEY {
                self.waiting_for_next = false;
                self.timer.advance_phase_at(now);
                return true;
            }
            return false;
        }
        if key == PAUSE_KEY || key == SPACE_KEY {
            self.timer.toggle_pause_at(now);
            true
        } else if key == SKIP_KEY {
            self.timer.skip();
            true
        } else if key == WORK_KEY {
            self.timer.switch_to_work_at(now);
            true
        } else if key == BREAK_KEY {
            self.timer.switch_to_break_at(now);
            true
        } else if key == EXTEND_KEY {
            self.timer.add_minute()
        } else {
            false
        }
    }

    /// Acts on a key: `on_key_at` at a fresh reading of the clock.
    pub fn on_key(&mut self, key: char) -> (acted: bool)
        requires
            old(self)@.key_advances(key) ==> old(self)@.timer.can_advance(),
        ensures
            final(self)@ == old(self)@.after_key(key),
            acted == old(self)@.key_acted_on(key),
            !old(self)@.key_restarts_clock(key) ==> final(self).timer.last_tick
                == old(self).timer.last_tick,
            final(self).stats_updated_at == old(self).stats_updated_at,
    {
        self.on_key_at(key, instant_now())
    }

    /// Acts on a key event at the clock reading `now`: see
    /// `AppView::after_key_event`; the timer measures from `now` on where the event
    /// pauses, resumes, switches or moves on. Returns whether the event was acted on.
    pub fn on_key_event_at(&mut self, key: KeyEvent, now: Instant) -> (acted: bool)
        requires
            (key.kind == KeyEventKind::Press && !AppView::quits_directly(key)
                && AppView::key_char(key) is Some) ==> (old(self)@.key_advances(
                AppView::key_char(key)->0,
            ) ==> old(self)@.timer.can_advance()),
        ensures
            final(self)@ == old(self)@.after_key_event(key),
            acted == old(self)@.key_event_acted_on(key),
            final(self).timer.last_tick == if old(self)@.key_event_restarts_clock(key) {
                now
            } else {
                old(self).timer.last_tick
            },
            final(self).stats_updated_at == old(self).stats_updated_at,
    {
        if key.kind != KeyEventKind::Press {
            return false;
        }
        if key.code == KeyCode::Esc || (key.control && key.code == KeyCode::Char('c')) {
            let acted = !self.should_quit;
            self.should_quit = true;
            return acted;
        }
        match key.code {
            KeyCode::Esc => false,
            KeyCode::Enter => self.on_key_at(ENTER_KEY, now),
            KeyCode::Up => self.on_key_at(EXTEND_KEY, now),
            KeyCode::Char(c) => self.on_key_at(c, now),
            KeyCode::Other => false,
        }
    }

    /// Acts on a key event: `on_key_event_at` at a fresh reading of the clock.
    pub fn on_key_event(&mut self, key: KeyEvent) -> (acted: bool)
        requires
            (key.kind == KeyEventKind::Press && !AppView::quits_directly(key)
                && AppView::key_char(key) is Some) ==> (old(self)@.key_advances(
                AppView::key_char(key)->0,
            ) ==> old(self)@.timer.can_advance()),
        ensures
            final(self)@ == old(self)@.after_key_event(key),
            acted == old(self)@.key_event_acted_on(key),
            !old(self)@.key_event_restarts_clock(key) ==> final(self).timer.last_tick
                == old(self).timer.last_tick,
            final(self).stats_updated_at == old(self).stats_updated_at,
    {
        self.on_key_event_at(key, instant_now())
    }

    /// What was completed in this run, for the summary on exit.
    pub fn summary_text(&self) -> (s: String)
        ensures
            s@ == self@.summary(),
    {
        let sessions = self.completed_sessions;
        let mut summary = String::from_str("Completed ");
        let count = decimal_text(sessions as u64);
        summary.append(count.as_str());
        summary.append(" focus ");
        if sessions == 1 {
            summary.append("session");
        } else {
            summary.append("sessions");
        }
        summary.append(" · ");
        let minutes = decimal_text(self.completed_minutes);
        summary.append(minutes.as_str());
        summary.append(" min");
        if self.unsaved_sessions > 0 {
            summary.append(" · ");
            let unsaved = decimal_text(self.unsaved_sessions as u64);
            summary.append(unsaved.as_str());
            summary.append(" not saved to statistics");
        }
        summary
    }

    /// Today's statistics when the cache is `age_secs` seconds old at the clock
    /// reading `now`: the cached ones while younger than `STATS_CACHE_SECS`, else the
    /// ones that `fetch` reads anew, which replace the cache and restart its age at
    /// `now`.
    pub fn today_stats_after<F>(&mut self, age_secs: u64, now: Instant, fetch: F) -> (today: (u32, u64)) where
        F: FnOnce() -> (u32, u64),

        requires
            call_requires(fetch, ()),
        ensures
            age_secs < STATS_CACHE_SECS ==> today == old(self).cached_stats && final(self)@
                == old(self)@ && final(self).stats_updated_at == old(self).stats_updated_at,
            age_secs >= STATS_CACHE_SECS ==> call_ensures(fetch, (), today) && final(self)@ == (
            AppView { cached_stats: today, ..old(self)@ }) && final(self).stats_updated_at == now,
            today == final(self).cached_stats,
            final(self).timer.last_tick == old(self).timer.last_tick,
    {
        if age_secs >= STATS_CACHE_SECS {
            self.cached_stats = fetch();
            self.stats_updated_at = now;
        }
        self.cached_stats
    }

    /// Today's statistics at the clock reading `now`: `today_stats_after` with the
    /// whole seconds from the last refresh of the cache to `now`.
    pub fn today_stats_at<F>(&mut self, now: Instant, fetch: F) -> (today: (u32, u64)) where
        F: FnOnce() -> (u32, u64),

        requires
            call_requires(fetch, ()),
        ensures
            ({
                let age = instant_span(now, old(self).stats_updated_at).0;
                &&& age < STATS_CACHE_SECS ==> today == old(self).cached_stats && final(self)@
                    == old(self)@ && final(self).stats_updated_at == old(self).stats_updated_at
                &&& age >= STATS_CACHE_SECS ==> call_ensures(fetch, (), today) && final(self)@
                    == (AppView { cached_stats: today, ..old(self)@ })
                    && final(self).stats_updated_at == now
            }),
            today == final(self).cached_stats,
            final(self).timer.last_tick == old(self).timer.last_tick,
    {
        let (age_secs, _) = time_between(&now, &self.stats_updated_at);
        self.today_stats_after(age_secs, now, fetch)
    }

    /// Today's statistics: `today_stats_at` at a fresh reading of the clock.
    pub fn today_stats<F>(&mut self, fetch: F) -> (today: (u32, u64)) where
        F: FnOnce() -> (u32, u64),

        requires
            call_requires(fetch, ()),
        ensures
            exists|now: Instant|
                {
                    let age = #[trigger] instant_span(now, old(self).stats_updated_at).0;
                    &&& age < STATS_CACHE_SECS ==> today == old(self).cached_stats
                        && final(self)@ == old(self)@
                    &&& age >= STATS_CACHE_SECS ==> call_ensures(fetch, (), today)
                        && final(self)@ == (AppView { cached_stats: today, ..old(self)@ })
                },
            today == final(self).cached_stats,
            final(self).timer.last_tick == old(self).timer.last_tick,
            exists|now: Instant|
                {
                    let age = #[trigger] instant_span(now, old(self).stats_updated_at).0;
                    final(self).stats_updated_at == if age >= STATS_CACHE_SECS {
                        now
                    } else {
                        old(self).stats_updated_at
                    }
                },
    {
        let now = instant_now();
        self.today_stats_at(now, fetch)
    }

    /// How long to wait for input until the shown time changes, `since` after the
    /// last clock reading: see `AppView::wait_after`.
    pub fn poll_timeout_after(&self, since: Duration) -> (wait: Duration)
        ensures
            wait@ == self@.wait_after(since@),
    {
        if self.timer.paused || self.waiting_for_next {
            return Duration::from_secs(IDLE_WAIT_SECS);
        }
        if self.timer.skipped || self.timer.remaining.is_zero() || since.at_least(
            &self.timer.remaining,
        ) {
            return Duration::zero();
        }
        let left = self.timer.remaining.saturating_sub(since);
        let part = left.subsec_nanos();
        if part > 0 {
            Duration::new(0, part)
        } else {
            Duration::from_secs(1)
        }
    }

    /// How long to wait for input until the shown time changes, measured against the
    /// clock: `poll_timeout_after` with the time since the last clock reading.
    pub fn poll_timeout(&self) -> (wait: Duration)
        ensures
            exists|since: nat| wait@ == #[trigger] self@.wait_after(since),
    {
        let (secs, nanos) = time_between(&instant_now(), &self.timer.last_tick);
        let since = Duration::new(secs, nanos);
        self.poll_timeout_after(since)
    }
}

} // verus!
