use vstd::prelude::*;

use crate::app::{App, AppView};
use crate::text::{decimal, decimal_text};
use crate::timer::{clock_text, Phase};

verus! {

/// The cells of the progress bar on the one-line display.
pub const MINI_BAR_WIDTH: usize = 16;

/// A filled cell of a bar.
pub const FULL_BLOCK: &'static str = "\u{2588}";

/// An empty cell of a bar.
pub const LIGHT_SHADE: &'static str = "\u{2591}";

/// The terminal colour of each phase, as an ANSI escape sequence.
pub open spec fn phase_color_text(phase: Phase) -> Seq<char> {
    match phase {
        Phase::Work => "\x1b[31m"@,
        Phase::Break => "\x1b[32m"@,
        Phase::LongBreak => "\x1b[34m"@,
    }
}

/// The terminal colour of each phase: red for work, green for a break, blue for a
/// long break.
pub fn phase_color_code(phase: Phase) -> (code: &'static str)
    ensures
        code@ == phase_color_text(phase),
{
    match phase {
        Phase::Work => "\x1b[31m",
        Phase::Break => "\x1b[32m",
        Phase::LongBreak => "\x1b[34m",
    }
}

/// The columns that `text` takes in a terminal, as ratatui's `Span::width` measures it.
pub uninterp spec fn display_width(text: Seq<char>) -> nat;

/// Calls ratatui's `Span::width` on `text`: the columns the text takes in a terminal,
/// which ratatui takes from the unicode-width crate. That measure is a function of
/// the text alone; what it is for each text is not stated here.
#[verifier::external_body]
fn text_width(text: &str) -> (w: usize)
    ensures
        w == display_width(text@),
{
    ratatui::text::Span::raw(text).width()
}

/// Calls `char::to_string`, which writes the character itself.
#[verifier::external_body]
fn char_text(c: char) -> (s: String)
    ensures
        s@ == seq![c],
{
    c.to_string()
}

/// Whether `c` is a control character: the Unicode general category Cc, which is
/// U+0000 to U+001F and U+007F to U+009F.
pub open spec fn is_control_char(c: char) -> bool {
    (c as u32) <= 0x1f || (0x7f <= (c as u32) && (c as u32) <= 0x9f)
}

/// Whether `c` is a control character, as `char::is_control` says.
pub fn is_control(c: char) -> (b: bool)
    ensures
        b == is_control_char(c),
{
    let code = c as u32;
    code <= 0x1f || (0x7f <= code && code <= 0x9f)
}

/// The columns of one character.
pub open spec fn char_width(c: char) -> nat {
    display_width(seq![c])
}

/// The columns of a text counted character by character.
pub open spec fn width_sum(text: Seq<char>) -> nat
    decreases text.len(),
{
    if text.len() == 0 {
        0
    } else {
        char_width(text[0]) + width_sum(text.drop_first())
    }
}

/// `text` without control characters, cut before the first character that would
/// take the columns counted so far past `budget`.
pub open spec fn fitted(text: Seq<char>, budget: nat) -> Seq<char>
    decreases text.len(),
{
    if text.len() == 0 {
        Seq::empty()
    } else if is_control_char(text[0]) {
        fitted(text.drop_first(), budget)
    } else if char_width(text[0]) <= budget {
        seq![text[0]] + fitted(text.drop_first(), (budget - char_width(text[0])) as nat)
    } else {
        Seq::empty()
    }
}

/// `n` copies of the one-character text `cell`.
pub open spec fn repeated(cell: Seq<char>, n: nat) -> Seq<char>
    decreases n,
{
    if n == 0 {
        Seq::empty()
    } else {
        repeated(cell, (n - 1) as nat) + cell
    }
}

impl AppView {
    /// The state word of the one-line display.
    pub open spec fn state_word(self) -> Seq<char> {
        if self.waiting_for_next {
            "complete"@
        } else if self.timer.paused {
            "paused"@
        } else {
            Seq::empty()
        }
    }

    /// The time, the phase and the state word, separated by spaces.
    pub open spec fn line_head(self) -> Seq<char> {
        let head = clock_text(self.timer.shown_seconds()) + " "@ + self.timer.phase.label_text();
        if self.state_word().len() > 0 {
            head + " "@ + self.state_word()
        } else {
            head
        }
    }

    /// The progress bar of `filled` cells, the session and the controls.
    pub open spec fn line_details(self, filled: nat) -> Seq<char> {
        "  "@ + repeated(FULL_BLOCK@, filled) + repeated(
            LIGHT_SHADE@,
            (MINI_BAR_WIDTH - filled) as nat,
        ) + "  "@ + decimal(self.timer.current_session as nat) + "/"@ + decimal(
            self.timer.config.sessions as nat,
        ) + "  p pause  + 1m  q quit"@
    }

    /// The one-line display before it is fitted to the terminal: the head, then the
    /// status message, or the controls of a finished phase, or the bar and controls
    /// where they fit within `limit` columns and the short controls where not.
    pub open spec fn full_line(self, limit: nat, filled: nat) -> Seq<char> {
        let head = self.line_head();
        match self.status_message {
            Some(message) => head + " | "@ + message,
            None => if self.waiting_for_next {
                head + " | Enter/s next  q quit"@
            } else if display_width(head) + display_width(self.line_details(filled)) <= limit {
                head + self.line_details(filled)
            } else {
                head + "  p pause  q quit"@
            },
        }
    }
}

/// The one-line display for a terminal `width` columns wide, leaving the last column
/// free so that the line never wraps: `full_line` fitted to `width - 1` columns.
/// `filled` is the number of bar cells that the progress fills.
pub fn line_for_width(app: &App, width: u16, filled: usize) -> (line: String)
    requires
        filled <= MINI_BAR_WIDTH,
    ensures
        line@ == fitted(
            app@.full_line(if width > 0 { (width - 1) as nat } else { 0 }, filled as nat),
            if width > 0 { (width - 1) as nat } else { 0 },
        ),
{
    let limit: usize = if width > 0 { (width - 1) as usize } else { 0 };
    let mut line = app.timer.remaining_display();
    line.append(" ");
    line.append(app.timer.phase.label());
    if app.waiting_for_next {
        line.append(" ");
        line.append("complete");
    } else if app.timer.paused {
        line.append(" ");
        line.append("paused");
    }
    proof {
        reveal_strlit("complete");
        reveal_strlit("paused");
    }
    assert(line@ == app@.line_head());
    match &app.status_message {
        Some(message) => {
            line.append(" | ");
            line.append(message.as_str());
        },
        None => {
            if app.waiting_for_next {
                line.append(" | Enter/s next  q quit");
            } else {
                let details = mini_details(app, filled);
                let head_width = text_width(line.as_str());
                let details_width = text_width(details.as_str());
                if head_width <= limit && details_width <= limit - head_width {
                    line.append(details.as_str());
                } else {
                    line.append("  p pause  q quit");
                }
            }
        },
    }
    fit_to_width(line.as_str(), limit)
}

fn mini_details(app: &App, filled: usize) -> (s: String)
    requires
        filled <= MINI_BAR_WIDTH,
    ensures
        s@ == app@.line_details(filled as nat),
{
    let mut s = String::from_str("  ");
    let mut i: usize = 0;
    while i < filled
        invariant
            i <= filled <= MINI_BAR_WIDTH,
            s@ == "  "@ + repeated(FULL_BLOCK@, i as nat),
        decreases filled - i,
    {
        s.append(FULL_BLOCK);
        i = i + 1;
    }
    let mut j: usize = 0;
    while j < MINI_BAR_WIDTH - filled
        invariant
            j <= MINI_BAR_WIDTH - filled,
            filled <= MINI_BAR_WIDTH,
            s@ == "  "@ + repeated(FULL_BLOCK@, filled as nat) + repeated(LIGHT_SHADE@, j as nat),
        decreases MINI_BAR_WIDTH - filled - j,
    {
        s.append(LIGHT_SHADE);
        j = j + 1;
    }
    s.append("  ");
    let session = decimal_text(app.timer.current_session as u64);
    s.append(session.as_str());
    s.append("/");
    let sessions = decimal_text(app.timer.config.sessions as u64);
    s.append(sessions.as_str());
    s.append("  p pause  + 1m  q quit");
    s
}

/// `text` fitted to `limit` columns: see `fitted`.
fn fit_to_width(text: &str, limit: usize) -> (fit: String)
    ensures
        fit@ == fitted(text@, limit as nat),
{
    let len = text.unicode_len();
    let mut fit = String::new();
    let mut used: usize = 0;
    let mut i: usize = 0;
    assert(text@.subrange(0, len as int) == text@);
    assert(Seq::<char>::empty() + fitted(text@, limit as nat) == fitted(text@, limit as nat));
    while i < len
        invariant
            i <= len == text@.len(),
            used <= limit,
            fit@ + fitted(text@.subrange(i as int, len as int), (limit - used) as nat) == fitted(
                text@,
                limit as nat,
            ),
        decreases len - i,
    {
        let ghost rest = text@.subrange(i as int, len as int);
        assert(rest.drop_first() == text@.subrange(i + 1, len as int));
        let c = text.get_char(i);
        assert(rest[0] == c);
        if !is_control(c) {
            let cell = char_text(c);
            let w = text_width(cell.as_str());
            if w > limit - used {
                assert(fitted(rest, (limit - used) as nat) == Seq::<char>::empty());
                assert(fit@ + Seq::<char>::empty() == fit@);
                return fit;
            }
            used = used + w;
            fit.append(cell.as_str());
            assert(fit@ + fitted(rest.drop_first(), (limit - used) as nat) == fitted(
                text@,
                limit as nat,
            ));
        }
        i = i + 1;
    }
    assert(text@.subrange(len as int, len as int) == Seq::<char>::empty());
    assert(fit@ + Seq::<char>::empty() == fit@);
    fit
}

/// A fitted line never needs more than its budget of columns, counted character by
/// character, and holds no control characters.
pub proof fn lemma_fitted_fits(text: Seq<char>, budget: nat)
    ensures
        width_sum(fitted(text, budget)) <= budget,
        forall|i: int|
            0 <= i < fitted(text, budget).len() ==> !is_control_char(
                #[trigger] fitted(text, budget)[i],
            ),
    decreases text.len(),
{
    if text.len() > 0 {
        if is_control_char(text[0]) {
            lemma_fitted_fits(text.drop_first(), budget);
        } else if char_width(text[0]) <= budget {
            let rest_budget = (budget - char_width(text[0])) as nat;
            lemma_fitted_fits(text.drop_first(), rest_budget);
            let f = fitted(text, budget);
            assert(f.drop_first() == fitted(text.drop_first(), rest_budget));
            assert forall|i: int| 0 <= i < f.len() implies !is_control_char(#[trigger] f[i]) by {
                if i > 0 {
                    assert(f[i] == f.drop_first()[i - 1]);
                }
            }
        }
    }
}

} // verus!
