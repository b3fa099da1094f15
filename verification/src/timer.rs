use std::time::Instant;
use vstd::prelude::*;

use crate::clock::{instant_now, instant_span, span_nanos, time_between};
use crate::config::OnEnd;
use crate::duration::{max_nanos, Duration, NANOS_PER_SEC};
use crate::text::{two_digit_text, two_digits};

verus! {

/// Nanoseconds in one minute.
pub open spec fn minute_nanos() -> nat {
    60 * NANOS_PER_SEC as nat
}

/// The three phases of the focus cycle.
#[derive(Debug, Clone, Copy, PartialEq, Eq, Structural)]
pub enum Phase {
    Work,
    Break,
    LongBreak,
}

impl Phase {
    /// The name under which the phase is shown.
    pub open spec fn label_text(self) -> Seq<char> {
        match self {
            Phase::Work => "Work"@,
            Phase::Break => "Break"@,
            Phase::LongBreak => "Long Break"@,
        }
    }

    /// The name under which the phase is shown.
    pub fn label(&self) -> (s: &str)
        ensures
            s@ == self.label_text(),
    {
        match self {
            Phase::Work => "Work",
            Phase::Break => "Break",
            Phase::LongBreak => "Long Break",
        }
    }
}

/// The lengths of the three phases in seconds, the number of work sessions before a
/// long break, and what follows a phase that ran out.
#[derive(Debug, Clone, Copy, PartialEq, Eq, Structural)]
pub struct TimerConfig {
    pub work_secs: u64,
    pub break_secs: u64,
    pub long_break_secs: u64,
    pub sessions: u32,
    pub on_end: OnEnd,
}

impl TimerConfig {
    /// The configured length of `phase`, in seconds.
    pub open spec fn phase_secs(self, phase: Phase) -> nat {
        match phase {
            Phase::Work => self.work_secs as nat,
            Phase::Break => self.break_secs as nat,
            Phase::LongBreak => self.long_break_secs as nat,
        }
    }
}

/// What a timer is, apart from the clock reading it last measured from.
/// Spans are in nanoseconds.
pub ghost struct TimerView {
    pub config: TimerConfig,
    pub phase: Phase,
    pub current_session: u32,
    pub remaining: nat,
    pub total: nat,
    pub paused: bool,
    pub skipped: bool,
}

impl TimerView {
    /// A fresh timer: the first work session, running, with the whole work phase ahead.
    pub open spec fn initial(config: TimerConfig) -> TimerView {
        TimerView {
            config,
            phase: Phase::Work,
            current_session: 1,
            remaining: config.work_secs as nat * NANOS_PER_SEC as nat,
            total: config.work_secs as nat * NANOS_PER_SEC as nat,
            paused: false,
            skipped: false,
        }
    }

    /// `phase` of session `session` begins with its whole configured length ahead;
    /// pausing is kept and a skip is forgotten.
    pub open spec fn started(self, phase: Phase, session: u32) -> TimerView {
        TimerView {
            phase,
            current_session: session,
            remaining: self.config.phase_secs(phase) * NANOS_PER_SEC as nat,
            total: self.config.phase_secs(phase) * NANOS_PER_SEC as nat,
            skipped: false,
            ..self
        }
    }

    /// The break that follows the current work session: the long one once the
    /// configured number of sessions is reached.
    pub open spec fn break_phase(self) -> Phase {
        if self.current_session >= self.config.sessions {
            Phase::LongBreak
        } else {
            Phase::Break
        }
    }

    /// Moving on to the next phase: work is followed by its break; a break by the next
    /// work session; a long break by work in session 1.
    pub open spec fn advanced(self) -> TimerView {
        match self.phase {
            Phase::Work => self.started(self.break_phase(), self.current_session),
            Phase::Break => self.started(Phase::Work, (self.current_session + 1) as u32),
            Phase::LongBreak => self.started(Phase::Work, 1),
        }
    }

    /// Whether moving on to the next phase fits the session counter.
    pub open spec fn can_advance(self) -> bool {
        self.phase == Phase::Break ==> self.current_session < u32::MAX
    }

    /// The `w` key: from a break, move on to work as `advanced` does; during work,
    /// restart the work phase.
    pub open spec fn switched_to_work(self) -> TimerView {
        if self.phase != Phase::Work {
            self.advanced()
        } else {
            self.started(Phase::Work, self.current_session)
        }
    }

    /// The `b` key: start the break that the current session calls for.
    pub open spec fn switched_to_break(self) -> TimerView {
        self.started(self.break_phase(), self.current_session)
    }

    /// Pausing or resuming.
    pub open spec fn toggled(self) -> TimerView {
        TimerView { paused: !self.paused, ..self }
    }

    /// Ending the phase early: nothing remains, and the phase counts as skipped.
    pub open spec fn skipped_phase(self) -> TimerView {
        TimerView { skipped: true, remaining: 0, ..self }
    }

    /// Whether one more minute fits both the remaining and the total span.
    pub open spec fn can_extend(self) -> bool {
        &&& self.remaining + minute_nanos() <= max_nanos()
        &&& self.total + minute_nanos() <= max_nanos()
    }

    /// One more minute on the remaining and on the total span.
    pub open spec fn extended(self) -> TimerView {
        TimerView {
            remaining: self.remaining + minute_nanos(),
            total: self.total + minute_nanos(),
            ..self
        }
    }

    /// Whether the phase is over whatever time passes: it was skipped or has run out.
    pub open spec fn finished(self) -> bool {
        self.skipped || self.remaining == 0
    }

    /// Whether a tick that finds `elapsed` nanoseconds gone ends the phase.
    pub open spec fn tick_completes(self, elapsed: nat) -> bool {
        self.finished() || (!self.paused && elapsed >= self.remaining)
    }

    /// The timer after a tick that finds `elapsed` nanoseconds gone since the last
    /// reading: a paused timer keeps its time, a running one loses `elapsed`, and an
    /// ended phase stays at zero.
    pub open spec fn ticked(self, elapsed: nat) -> TimerView {
        if self.tick_completes(elapsed) {
            TimerView { remaining: 0, ..self }
        } else if self.paused {
            self
        } else {
            TimerView { remaining: (self.remaining - elapsed) as nat, ..self }
        }
    }

    /// The seconds shown for the remaining time: partial seconds count as whole ones.
    pub open spec fn shown_seconds(self) -> nat {
        shown_seconds_of(self.remaining)
    }
}


impl TimerView {
    /// The timer after moving on `n` times.
    pub open spec fn advanced_times(self, n: nat) -> TimerView
        decreases n,
    {
        if n == 0 {
            self
        } else {
            self.advanced_times((n - 1) as nat).advanced()
        }
    }

    /// Where the session counter and the remaining time stand in any timer that
    /// started at the first work session: the session lies in `1..=sessions`, a short
    /// break comes before the last session, a long break after it, and the remaining
    /// time is at most the phase's total.
    pub open spec fn in_cycle(self) -> bool {
        &&& 1 <= self.current_session <= self.config.sessions
        &&& self.phase == Phase::Break ==> self.current_session < self.config.sessions
        &&& self.phase == Phase::LongBreak ==> self.current_session == self.config.sessions
        &&& self.remaining <= self.total
    }
}

/// A fresh timer is in its cycle once the configuration asks for at least one session.
pub proof fn lemma_initial_in_cycle(config: TimerConfig)
    requires
        config.sessions >= 1,
    ensures
        TimerView::initial(config).in_cycle(),
{
}

/// Every operation keeps a timer in its cycle: moving on, switching to work or to a
/// break, pausing, skipping, adding a minute and ticking. A timer in its cycle can
/// always move on.
pub proof fn lemma_operations_stay_in_cycle(v: TimerView, elapsed: nat)
    requires
        v.in_cycle(),
    ensures
        v.can_advance(),
        v.advanced().in_cycle(),
        v.switched_to_work().in_cycle(),
        v.switched_to_break().in_cycle(),
        v.toggled().in_cycle(),
        v.skipped_phase().in_cycle(),
        v.can_extend() ==> v.extended().in_cycle(),
        v.ticked(elapsed).in_cycle(),
{
}

/// Work in some session followed by `2 * j` moves, where `j` more sessions still fit
/// the session count, is the start of work `j` sessions later.
proof fn lemma_work_sessions_follow(v: TimerView, j: nat)
    requires
        v.phase == Phase::Work,
        1 <= v.current_session,
        v.current_session + j <= v.config.sessions,
    ensures
        v.advanced_times(2 * j) == if j == 0 {
            v
        } else {
            v.started(Phase::Work, (v.current_session + j) as u32)
        },
    decreases j,
{
    if j > 0 {
        lemma_work_sessions_follow(v, (j - 1) as nat);
        let w = v.advanced_times(2 * (j - 1) as nat);
        assert(v.advanced_times(2 * j) == w.advanced().advanced()) by {
            assert(2 * j == (2 * (j - 1) as nat + 1) + 1);
            reveal_with_fuel(TimerView::advanced_times, 3);
        }
    }
}

/// The cycle comes round: a timer at work in session 1 is, after as many work phases and
/// breaks as the configured sessions, at the start of work in session 1 again.
pub proof fn lemma_cycle_returns_to_start(v: TimerView)
    requires
        v.phase == Phase::Work,
        v.current_session == 1,
        v.config.sessions >= 1,
    ensures
        v.advanced_times(2 * v.config.sessions as nat) == v.started(Phase::Work, 1),
{
    let n = v.config.sessions as nat;
    let last = 2 * (n - 1) as nat;
    assert(2 * n == (last + 1) + 1);
    assert(v.advanced_times(2 * n) == v.advanced_times(last).advanced().advanced()) by {
        reveal_with_fuel(TimerView::advanced_times, 3);
    }
    lemma_work_sessions_follow(v, (n - 1) as nat);
}

/// Where the cycle stands after `k` moves from the first work session, for every `k`
/// up to a full cycle of `sessions` work sessions: after an odd number of moves, the
/// break of work session `(k + 1) / 2` (the long one after the last session); after an
/// even number, work session `k / 2 + 1`; after the full cycle, work session 1 again.
/// Each phase begins with its whole configured length ahead.
pub proof fn lemma_cycle_positions(v: TimerView, k: nat)
    requires
        v.phase == Phase::Work,
        v.current_session == 1,
        v.config.sessions >= 1,
        1 <= k <= 2 * v.config.sessions,
    ensures
        k == 2 * v.config.sessions ==> v.advanced_times(k) == v.started(Phase::Work, 1),
        k == 2 * v.config.sessions - 1 ==> v.advanced_times(k) == v.started(
            Phase::LongBreak,
            v.config.sessions,
        ),
        k % 2 == 1 && k < 2 * v.config.sessions - 1 ==> v.advanced_times(k) == v.started(
            Phase::Break,
            ((k + 1) / 2) as u32,
        ),
        k % 2 == 0 && k < 2 * v.config.sessions ==> v.advanced_times(k) == v.started(
            Phase::Work,
            (k / 2 + 1) as u32,
        ),
{
    let n = v.config.sessions as nat;
    if k == 2 * n {
        lemma_cycle_returns_to_start(v);
    } else if k % 2 == 0 {
        let j = k / 2;
        assert(2 * j == k);
        lemma_work_sessions_follow(v, j);
    } else {
        let j = ((k - 1) / 2) as nat;
        assert(2 * j + 1 == k);
        lemma_work_sessions_follow(v, j);
        assert(v.advanced_times(k) == v.advanced_times(2 * j).advanced()) by {
            reveal_with_fuel(TimerView::advanced_times, 2);
        }
    }
}

/// A paused timer keeps its time whatever passes, until it is resumed; pausing twice
/// changes nothing.
pub proof fn lemma_pause_holds_time(v: TimerView, elapsed: nat)
    requires
        v.paused,
        !v.finished(),
    ensures
        v.ticked(elapsed) == v,
        !v.tick_completes(elapsed),
        v.toggled().toggled() == v,
{
}

/// A skipped phase ends at the next tick whatever passed, keeps its pause, and leads
/// on to the same phase as running it out would.
pub proof fn lemma_skip_ends_phase(v: TimerView, elapsed: nat)
    ensures
        v.skipped_phase().tick_completes(elapsed),
        v.skipped_phase().ticked(elapsed).paused == v.paused,
        v.skipped_phase().ticked(elapsed).advanced() == v.advanced(),
        v.ticked(v.remaining).advanced() == v.advanced(),
{
}

/// Time measured in two ticks counts as much as the same time measured in one.
pub proof fn lemma_elapsed_adds_up(v: TimerView, first: nat, second: nat)
    requires
        !v.paused,
    ensures
        v.ticked(first).ticked(second) == v.ticked(first + second),
        v.ticked(first).tick_completes(second) == v.tick_completes(first + second),
{
}

/// A running timer ends exactly when the time that passed reaches the time remaining.
pub proof fn lemma_running_timer_ends_at_deadline(v: TimerView, elapsed: nat)
    requires
        !v.paused,
        !v.skipped,
    ensures
        v.tick_completes(elapsed) <==> elapsed >= v.remaining,
        v.ticked(elapsed).remaining == if elapsed >= v.remaining {
            0
        } else {
            (v.remaining - elapsed) as nat
        },
{
}

/// The seconds shown for `remaining` nanoseconds, rounded up and capped at `u64::MAX`.
pub open spec fn shown_seconds_of(remaining: nat) -> nat {
    let whole = remaining / NANOS_PER_SEC as nat;
    let up = if remaining % NANOS_PER_SEC as nat > 0 {
        whole + 1
    } else {
        whole
    };
    if up > u64::MAX {
        u64::MAX as nat
    } else {
        up
    }
}

/// `seconds` as minutes and seconds, each with at least two digits: `MM:SS`.
pub open spec fn clock_text(seconds: nat) -> Seq<char> {
    two_digits(seconds / 60) + ":"@ + two_digits(seconds % 60)
}

/// The countdown of one phase of the focus cycle.
pub struct Timer {
    pub config: TimerConfig,
    pub phase: Phase,
    pub current_session: u32,
    pub remaining: Duration,
    pub total: Duration,
    pub paused: bool,
    pub skipped: bool,
    /// The clock reading that the remaining time was last measured at.
    pub last_tick: Instant,
}

impl View for Timer {
    type V = TimerView;

    open spec fn view(&self) -> TimerView {
        TimerView {
            config: self.config,
            phase: self.phase,
            current_session: self.current_session,
            remaining: self.remaining@,
            total: self.total@,
            paused: self.paused,
            skipped: self.skipped,
        }
    }
}

impl Timer {
    /// A timer at the start of the first work session, measuring from the clock
    /// reading `now`.
    pub fn new_at(config: TimerConfig, now: Instant) -> (t: Timer)
        ensures
            t@ == TimerView::initial(config),
            t.last_tick == now,
    {
        let duration = Duration::from_secs(config.work_secs);
        Timer {
            config,
            phase: Phase::Work,
            current_session: 1,
            remaining: duration,
            total: duration,
            paused: false,
            skipped: false,
            last_tick: now,
        }
    }

    /// A timer at the start of the first work session, measuring from a fresh reading
    /// of the clock.
    pub fn new(config: TimerConfig) -> (t: Timer)
        ensures
            t@ == TimerView::initial(config),
    {
        Timer::new_at(config, instant_now())
    }

    /// Applies `elapsed` to the countdown, as `tick` does with the time measured since
    /// the last reading. Returns whether the phase is over.
    pub fn apply_elapsed(&mut self, elapsed: Duration) -> (done: bool)
        ensures
            final(self)@ == old(self)@.ticked(elapsed@),
            done == old(self)@.tick_completes(elapsed@),
            final(self).last_tick == old(self).last_tick,
    {
        if self.skipped || self.remaining.is_zero() {
            self.remaining = Duration::zero();
            return true;
        }
        if self.paused {
            return false;
        }
        if elapsed.at_least(&self.remaining) {
            self.remaining = Duration::zero();
            return true;
        }
        self.remaining = self.remaining.saturating_sub(elapsed);
        false
    }

    /// Measures the time from the last reading to the clock reading `now` and applies
    /// it; a phase that is already over stays at zero without measuring. Returns
    /// whether the phase is over.
    pub fn tick_at(&mut self, now: Instant) -> (done: bool)
        ensures
            final(self)@ == old(self)@.ticked(span_nanos(instant_span(now, old(self).last_tick))),
            done == old(self)@.tick_completes(span_nanos(instant_span(now, old(self).last_tick))),
            final(self).last_tick == if old(self)@.finished() {
                old(self).last_tick
            } else {
                now
            },
    {
        if self.skipped || self.remaining.is_zero() {
            return self.apply_elapsed(Duration::zero());
        }
        let (secs, nanos) = time_between(&now, &self.last_tick);
        self.last_tick = now;
        let elapsed = Duration::new(secs, nanos);
        self.apply_elapsed(elapsed)
    }

    /// Measures the time since the last reading against the clock and applies it.
    /// Returns whether the phase is over.
    pub fn tick(&mut self) -> (done: bool)
        ensures
            exists|elapsed: nat|
                final(self)@ == old(self)@.ticked(elapsed) && done == old(self)@.tick_completes(
                    elapsed,
                ),
            exists|now: Instant|
                {
                    let elapsed = span_nanos(#[trigger] instant_span(now, old(self).last_tick));
                    &&& final(self)@ == old(self)@.ticked(elapsed)
                    &&& done == old(self)@.tick_completes(elapsed)
                    &&& final(self).last_tick == if old(self)@.finished() {
                        old(self).last_tick
                    } else {
                        now
                    }
                },
    {
        self.tick_at(instant_now())
    }

    /// Moves on to the next phase of the cycle; its time is measured from the clock
    /// reading `now`, so no time before it counts against the new phase.
    pub fn advance_phase_at(&mut self, now: Instant)
        requires
            old(self)@.can_advance(),
        ensures
            final(self)@ == old(self)@.advanced(),
            final(self).last_tick == now,
    {
        match self.phase {
            Phase::Work => {
                if self.current_session >= self.config.sessions {
                    self.phase = Phase::LongBreak;
                    self.remaining = Duration::from_secs(self.config.long_break_secs);
                    self.total = self.remaining;
                } else {
                    self.phase = Phase::Break;
                    self.remaining = Duration::from_secs(self.config.break_secs);
                    self.total = self.remaining;
                }
            },
            Phase::Break => {
                self.current_session = self.current_session + 1;
                self.phase = Phase::Work;
                self.remaining = Duration::from_secs(self.config.work_secs);
                self.total = self.remaining;
            },
            Phase::LongBreak => {
                self.current_session = 1;
                self.phase = Phase::Work;
                self.remaining = Duration::from_secs(self.config.work_secs);
                self.total = self.remaining;
            },
        }
        self.skipped = false;
        self.last_tick = now;
    }

    /// Moves on to the next phase of the cycle, measuring from a fresh reading of the
    /// clock.
    pub fn advance_phase(&mut self)
        requires
            old(self)@.can_advance(),
        ensures
            final(self)@ == old(self)@.advanced(),
    {
        self.advance_phase_at(instant_now())
    }

    /// Pauses a running timer or resumes a paused one; time is measured from the clock
    /// reading `now` on, so the time spent paused never counts.
    pub fn toggle_pause_at(&mut self, now: Instant)
        ensures
            final(self)@ == old(self)@.toggled(),
            final(self).last_tick == now,
    {
        self.paused = !self.paused;
        self.last_tick = now;
    }

    /// Pauses a running timer or resumes a paused one, measuring from a fresh reading
    /// of the clock.
    pub fn toggle_pause(&mut self)
        ensures
            final(self)@ == old(self)@.toggled(),
    {
        self.toggle_pause_at(instant_now())
    }

    /// Ends the current phase early.
    pub fn skip(&mut self)
        ensures
            final(self)@ == old(self)@.skipped_phase(),
            final(self).last_tick == old(self).last_tick,
    {
        self.skipped = true;
        self.remaining = Duration::zero();
    }

    /// Switches to work: from a break, as `advance_phase_at` does; during work, the
    /// work phase starts over. Time is measured from the clock reading `now`.
    pub fn switch_to_work_at(&mut self, now: Instant)
        requires
            old(self)@.can_advance(),
        ensures
            final(self)@ == old(self)@.switched_to_work(),
            final(self).last_tick == now,
    {
        if self.phase != Phase::Work {
            self.advance_phase_at(now);
            return ;
        }
        self.phase = Phase::Work;
        self.remaining = Duration::from_secs(self.config.work_secs);
        self.total = self.remaining;
        self.skipped = false;
        self.last_tick = now;
    }

    /// Switches to work, measuring from a fresh reading of the clock.
    pub fn switch_to_work(&mut self)
        requires
            old(self)@.can_advance(),
        ensures
            final(self)@ == old(self)@.switched_to_work(),
    {
        self.switch_to_work_at(instant_now())
    }

    /// Switches to the break that the current session calls for, from the start; time
    /// is measured from the clock reading `now`.
    pub fn switch_to_break_at(&mut self, now: Instant)
        ensures
            final(self)@ == old(self)@.switched_to_break(),
            final(self).last_tick == now,
    {
        if self.current_session >= self.config.sessions {
            self.phase = Phase::LongBreak;
            self.remaining = Duration::from_secs(self.config.long_break_secs);
        } else {
            self.phase = Phase::Break;
            self.remaining = Duration::from_secs(self.config.break_secs);
        }
        self.total = self.remaining;
        self.skipped = false;
        self.last_tick = now;
    }

    /// Switches to the break that the current session calls for, measuring from a
    /// fresh reading of the clock.
    pub fn switch_to_break(&mut self)
        ensures
            final(self)@ == old(self)@.switched_to_break(),
    {
        self.switch_to_break_at(instant_now())
    }

    /// Adds one minute to the remaining and the total span of the current phase, where
    /// both fit; otherwise changes nothing. Returns whether the minute was added.
    pub fn add_minute(&mut self) -> (added: bool)
        ensures
            added == old(self)@.can_extend(),
            final(self).last_tick == old(self).last_tick,
            final(self)@ == if added {
                old(self)@.extended()
            } else {
                old(self)@
            },
    {
        let minute = Duration::from_secs(60);
        match (self.remaining.checked_add(minute), self.total.checked_add(minute)) {
            (Some(remaining), Some(total)) => {
                self.remaining = remaining;
                self.total = total;
                true
            },
            _ => false,
        }
    }

    /// The seconds shown for the remaining time: partial seconds count as whole ones.
    pub fn display_seconds(&self) -> (s: u64)
        ensures
            s == self@.shown_seconds(),
    {
        let partial_second: u64 = if self.remaining.subsec_nanos() > 0 {
            1
        } else {
            0
        };
        self.remaining.as_secs().saturating_add(partial_second)
    }

    /// The remaining time as `MM:SS`.
    pub fn remaining_display(&self) -> (s: String)
        ensures
            s@ == clock_text(self@.shown_seconds()),
    {
        let secs = self.display_seconds();
        let mut s = two_digit_text(secs / 60);
        s.append(":");
        let seconds = two_digit_text(secs % 60);
        s.append(seconds.as_str());
        s
    }
}

} // verus!
