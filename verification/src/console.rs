//! Shared terminal console: a fixed-height scrolling log region with a
//! status banner below it. The row bookkeeping and line formatting are
//! verified; the terminal writes themselves go through small trusted
//! wrappers around crossterm.

use vstd::prelude::*;

use crate::strutil::{is_ws, is_ws_char, lemma_trim_end_at, push_char, to_chars, trim_end_spec};

use crossterm::cursor::{MoveTo, RestorePosition, SavePosition};
use crossterm::style::{Color, Print, ResetColor, SetBackgroundColor, SetForegroundColor};
use crossterm::terminal::{Clear, ClearType, DisableLineWrap, EnableLineWrap};
use crossterm::QueueableCommand;
use std::io::Write;

verus! {

/// Relies on crossterm's `enable_raw_mode`, `DisableLineWrap`, `Clear` and
/// `MoveTo`: puts the terminal into raw mode, disables line wrap, clears the
/// screen and homes the cursor. Returns whether raw mode was enabled.
#[verifier::external_body]
fn term_init() -> bool {
    if crossterm::terminal::enable_raw_mode().is_err() {
        return false;
    }
    let mut out = std::io::stdout();
    let _ = out.queue(DisableLineWrap);
    let _ = out.queue(Clear(ClearType::All));
    let _ = out.queue(MoveTo(0, 0));
    let _ = out.flush();
    true
}

/// Relies on crossterm's `SavePosition`, `MoveTo`, `Clear`, color commands
/// and `Print`: paints the already-rendered banner text on the two rows
/// starting at `row`, then restores the cursor.
#[verifier::external_body]
fn term_banner(row: u16, text: &str) {
    let mut out = std::io::stdout();
    let _ = out.queue(SavePosition);
    let _ = out.queue(MoveTo(0, row));
    let _ = out.queue(Clear(ClearType::CurrentLine));
    let _ = out.queue(MoveTo(0, row.saturating_add(1)));
    let _ = out.queue(Clear(ClearType::CurrentLine));
    let _ = out.queue(SetBackgroundColor(Color::DarkRed));
    let _ = out.queue(SetForegroundColor(Color::White));
    let _ = out.queue(Print(text));
    let _ = out.queue(ResetColor);
    let _ = out.queue(RestorePosition);
}

/// Relies on crossterm's `MoveTo`, `Clear` and `Print`: writes `text` on
/// terminal row `row` after clearing it.
#[verifier::external_body]
fn term_log_line(row: u16, text: &str) {
    let mut out = std::io::stdout();
    let _ = out.queue(MoveTo(0, row));
    let _ = out.queue(Clear(ClearType::CurrentLine));
    let _ = out.queue(Print(text));
}

/// Relies on crossterm's `MoveTo` and `Clear`: clears terminal row `row`.
#[verifier::external_body]
fn term_clear_row(row: u16) {
    let mut out = std::io::stdout();
    let _ = out.queue(MoveTo(0, row));
    let _ = out.queue(Clear(ClearType::CurrentLine));
}

/// Relies on `std::io::Stdout::flush`: makes the queued terminal writes
/// visible as one unit.
#[verifier::external_body]
fn term_flush() {
    let _ = std::io::stdout().flush();
}

/// Relies on crossterm's `MoveTo`, `EnableLineWrap` and `disable_raw_mode`:
/// parks the cursor two rows below `row`, re-enables line wrap and leaves
/// raw mode.
#[verifier::external_body]
fn term_restore(row: u16) {
    let mut out = std::io::stdout();
    let _ = out.queue(MoveTo(0, row.saturating_add(2)));
    let _ = out.queue(EnableLineWrap);
    let _ = out.flush();
    let _ = crossterm::terminal::disable_raw_mode();
}

/// The name column of a rendered log line: padded with spaces to ten
/// columns, longer names kept whole.
pub open spec fn pad_name(n: Seq<char>) -> Seq<char> {
    if n.len() >= 10 {
        n
    } else {
        n + Seq::new((10 - n.len()) as nat, |i: int| ' ')
    }
}

/// The rendered form of the status banner: one leading space, then the text
/// padded with spaces to five hundred columns; longer text is kept whole.
pub open spec fn spec_banner_line(text: Seq<char>) -> Seq<char> {
    if text.len() >= 500 {
        seq![' '] + text
    } else {
        seq![' '] + text + Seq::new((500 - text.len()) as nat, |i: int| ' ')
    }
}

/// Renders the status banner text.
pub fn format_banner_line(text: &str) -> (r: String)
    ensures
        r@ == spec_banner_line(text@),
{
    let mut r = " ".to_owned();
    r.append(text);
    let n = text.unicode_len();
    let mut k: usize = n;
    proof {
        reveal_strlit(" ");
        assert(" "@ =~= seq![' ']);
        assert(r@ =~= seq![' '] + text@ + Seq::new(0 as nat, |i: int| ' '));
    }
    while k < 500
        invariant
            n == text@.len(),
            n <= k <= 500 || (n > 500 && k == n),
            r@ == seq![' '] + text@ + Seq::new((k - n) as nat, |i: int| ' '),
        decreases 500 - k,
    {
        push_char(&mut r, ' ');
        proof {
            assert(seq![' '] + text@ + Seq::new((k + 1 - n) as nat, |i: int| ' ') =~= (seq![' ']
                + text@ + Seq::new((k - n) as nat, |i: int| ' ')).push(' '));
        }
        k = k + 1;
    }
    proof {
        assert(seq![' '] + text@ + Seq::new(0 as nat, |i: int| ' ') =~= seq![' '] + text@);
        assert(r@ == spec_banner_line(text@));
    }
    r
}

/// The rendered form of one log line: the padded name, a separator, and the
/// line without its trailing whitespace.
pub open spec fn spec_report_line(name: Seq<char>, line: Seq<char>) -> Seq<char> {
    pad_name(name) + " | "@ + trim_end_spec(line)
}

/// Renders one log line for the console.
pub fn format_report_line(name: &str, line: &str) -> (r: String)
    ensures
        r@ == spec_report_line(name@, line@),
{
    let mut r = name.to_owned();
    let n = name.unicode_len();
    let mut k: usize = n;
    while k < 10
        invariant
            n == name@.len(),
            n <= k <= 10 || (n > 10 && k == n),
            r@ == name@ + Seq::new((k - n) as nat, |i: int| ' '),
        decreases 10 - k,
    {
        push_char(&mut r, ' ');
        proof {
            assert(name@ + Seq::new((k + 1 - n) as nat, |i: int| ' ') =~= (name@ + Seq::new(
                (k - n) as nat,
                |i: int| ' ',
            )).push(' '));
        }
        k = k + 1;
    }
    proof {
        assert(name@ + Seq::new(0 as nat, |i: int| ' ') =~= name@);
        assert(r@ == pad_name(name@));
    }
    r.append(" | ");
    let chars = to_chars(line);
    let m = chars.len();
    let mut b: usize = m;
    while b > 0 && is_ws(chars[b - 1])
        invariant
            m == line@.len(),
            chars@ == line@,
            b <= m,
            forall|q: int| b <= q < m ==> is_ws_char(line@[q]),
        decreases b,
    {
        b = b - 1;
    }
    proof {
        lemma_trim_end_at(line@, b as int);
    }
    let ghost base = r@;
    let mut i: usize = 0;
    while i < b
        invariant
            m == line@.len(),
            chars@ == line@,
            i <= b <= m,
            r@ == base + line@.subrange(0, i as int),
        decreases b - i,
    {
        push_char(&mut r, chars[i]);
        proof {
            assert(base + line@.subrange(0, i + 1) =~= (base + line@.subrange(0, i as int)).push(
                line@[i as int],
            ));
        }
        i = i + 1;
    }
    proof {
        assert(base + line@.subrange(0, 0) =~= base);
        assert(r@ == base + line@.subrange(0, b as int));
    }
    r
}

/// The console renderer: a scrolling log region of `size` rows, written
/// cyclically at `position`, with a status banner kept below the region.
pub struct ConsoleManager {
    /// Raw mode is currently held and must be given back on teardown.
    pub raw_mode: bool,
    /// Next log row to write, cycling through `0 .. size`.
    pub position: u16,
    /// Height of the scrolling log region; always positive.
    pub size: u16,
}

impl ConsoleManager {
    /// The console's row counter stays inside the log region.
    pub open spec fn wf(&self) -> bool {
        0 < self.size && self.position < self.size
    }

    /// Opens the console: takes the terminal into raw mode, clears it, and
    /// starts logging at the top row.
    pub fn start(size: u16) -> (r: ConsoleManager)
        requires
            size > 0,
        ensures
            r.wf(),
            r.size == size,
            r.position == 0,
    {
        let raw_mode = term_init();
        ConsoleManager { raw_mode, position: 0, size }
    }

    /// Writes one log line for `name` at the current row and advances the
    /// row cyclically.
    pub fn report(&mut self, name: &str, line: &str)
        requires
            old(self).wf(),
        ensures
            final(self).wf(),
            final(self).size == old(self).size,
            final(self).raw_mode == old(self).raw_mode,
            final(self).position == (old(self).position + 1) % (old(self).size as int),
    {
        let text = format_report_line(name, line);
        term_log_line(self.position, text.as_str());
        term_clear_row(self.position + 1);
        self.position = (self.position + 1) % self.size;
        term_flush();
    }

    /// Paints the status banner below the log region; the log row is
    /// untouched.
    pub fn status(&mut self, status: &str)
        requires
            old(self).wf(),
        ensures
            *final(self) == *old(self),
    {
        let line = format_banner_line(status);
        term_banner(self.size, line.as_str());
        term_flush();
    }

    /// Writes an optional status banner and a run of log lines for `name`
    /// as one flushed unit; the row advances once per log line.
    pub fn batch_report(&mut self, name: &str, status: Option<&String>, reports: &Vec<String>)
        requires
            old(self).wf(),
        ensures
            final(self).wf(),
            final(self).size == old(self).size,
            final(self).raw_mode == old(self).raw_mode,
            final(self).position == (old(self).position + reports@.len()) % (
            old(self).size as int),
    {
        match status {
            Some(status_line) => {
                let line = format_banner_line(status_line.as_str());
                term_banner(self.size, line.as_str());
            },
            None => {},
        }
        let n = reports.len();
        let mut i: usize = 0;
        proof {
            vstd::arithmetic::div_mod::lemma_small_mod(
                old(self).position as nat,
                old(self).size as nat,
            );
        }
        while i < n
            invariant
                n == reports@.len(),
                i <= n,
                self.wf(),
                self.size == old(self).size,
                self.raw_mode == old(self).raw_mode,
                self.position == (old(self).position + i) % (old(self).size as int),
            decreases n - i,
        {
            let text = format_report_line(name, reports[i].as_str());
            term_log_line(self.position, text.as_str());
            self.position = (self.position + 1) % self.size;
            proof {
                let s = old(self).size as int;
                let q = old(self).position as int;
                vstd::arithmetic::div_mod::lemma_add_mod_noop_right(1, q + i, s);
            }
            i = i + 1;
        }
        term_clear_row(self.position);
        term_flush();
    }

    /// Gives the terminal back if raw mode is still held; afterwards the
    /// console holds it no more. Safe to call again.
    pub fn close(&mut self)
        ensures
            !final(self).raw_mode,
            final(self).position == old(self).position,
            final(self).size == old(self).size,
    {
        if self.raw_mode {
            term_restore(self.size);
            self.raw_mode = false;
        }
    }
}

} // verus!
