//! Scan progress display: choosing the rendering mode and backend, and
//! the terminal control text of the block-redraw renderer.

use vstd::prelude::*;

pub mod checklist;
pub mod display;
pub mod escapes;
pub mod lines;

use crate::text::{decimal, push_decimal, push_str};

verus! {

/// Progress display mode selectable on the command line.
#[derive(Debug, Clone, Copy, PartialEq, Eq, Structural)]
pub enum ProgressMode {
    /// Block-redraw checklist with spinners (default for a terminal).
    Rich,
    /// Append-only lines with Unicode symbols.
    Plain,
    /// Numbered sequential lines, no ANSI (CI, piped output).
    Flat,
}

/// Resolved rendering mode.
#[derive(Debug, Clone, Copy, PartialEq, Eq, Structural)]
pub enum Mode {
    Rich,
    Plain,
    Flat,
}

/// How much detail the scan progress shows.
#[derive(Debug, Clone, Copy, PartialEq, Eq, Structural)]
pub enum Verbosity {
    /// No checklist; the completion block and warnings still print.
    Quiet,
    Normal,
    /// Sub-steps for all inspectors.
    Verbose,
}

/// The mode named by the progress environment variable: `plain`, `flat`,
/// anything else rich (its value already lowercased).
pub open spec fn env_mode(lower: Seq<char>) -> Mode {
    if lower == "plain"@ {
        Mode::Plain
    } else if lower == "flat"@ {
        Mode::Flat
    } else {
        Mode::Rich
    }
}

/// Mode resolution: the command-line flag first, then the environment
/// variable, then flat when stderr is not a terminal or the terminal is
/// dumb, rich otherwise.
pub open spec fn resolve_mode_spec(flag: Option<ProgressMode>, env_lower: Option<Seq<char>>, is_tty: bool, is_dumb: bool) -> Mode {
    match flag {
        Some(ProgressMode::Rich) => Mode::Rich,
        Some(ProgressMode::Plain) => Mode::Plain,
        Some(ProgressMode::Flat) => Mode::Flat,
        None => match env_lower {
            Some(v) => env_mode(v),
            None => if !is_tty || is_dumb { Mode::Flat } else { Mode::Rich },
        },
    }
}

/// Resolve the rendering mode from the command-line flag, the lowercased
/// value of the progress environment variable (if set), whether stderr is
/// a terminal, and whether the terminal is dumb.
pub fn resolve_mode(flag: Option<ProgressMode>, env_lower: Option<&str>, is_tty: bool, is_dumb: bool) -> (m: Mode)
    ensures
        m == resolve_mode_spec(flag, match env_lower { Some(s) => Some(s@), None => None }, is_tty, is_dumb),
{
    match flag {
        Some(ProgressMode::Rich) => Mode::Rich,
        Some(ProgressMode::Plain) => Mode::Plain,
        Some(ProgressMode::Flat) => Mode::Flat,
        None => match env_lower {
            Some(v) => {
                if crate::text::str_eq(v, "plain") {
                    Mode::Plain
                } else if crate::text::str_eq(v, "flat") {
                    Mode::Flat
                } else {
                    Mode::Rich
                }
            },
            None => if !is_tty || is_dumb { Mode::Flat } else { Mode::Rich },
        },
    }
}

/// The rendering backend a dispatcher drives.
#[derive(Debug, Clone, Copy, PartialEq, Eq, Structural)]
pub enum Backend {
    Rich,
    Plain,
    Flat,
    /// Quiet mode: every event is swallowed.
    Null,
}

/// Unified progress dispatcher: which backend renders the scan.
pub struct TerminalProgress {
    backend: Backend,
    use_color: bool,
    verbose: bool,
}

/// The backend for a mode and verbosity: none when quiet.
pub open spec fn backend_for(mode: Mode, verbosity: Verbosity) -> Backend {
    if verbosity == Verbosity::Quiet {
        Backend::Null
    } else {
        match mode {
            Mode::Rich => Backend::Rich,
            Mode::Plain => Backend::Plain,
            Mode::Flat => Backend::Flat,
        }
    }
}

impl TerminalProgress {
    /// Select the backend for `mode` and `verbosity`; quiet short-circuits
    /// to a backend that swallows all events.
    pub fn new(mode: Mode, use_color: bool, verbosity: Verbosity) -> (t: Self)
        ensures
            t.backend() == backend_for(mode, verbosity),
            t.use_color() == use_color,
            t.verbose() == (verbosity == Verbosity::Verbose),
    {
        let backend = if verbosity == Verbosity::Quiet {
            Backend::Null
        } else {
            match mode {
                Mode::Rich => Backend::Rich,
                Mode::Plain => Backend::Plain,
                Mode::Flat => Backend::Flat,
            }
        };
        TerminalProgress { backend, use_color, verbose: verbosity == Verbosity::Verbose }
    }

    pub closed spec fn backend(&self) -> Backend {
        self.backend
    }

    pub closed spec fn use_color(&self) -> bool {
        self.use_color
    }

    pub closed spec fn verbose(&self) -> bool {
        self.verbose
    }

    /// The backend in use.
    pub fn backend_kind(&self) -> (b: Backend)
        ensures
            b == self.backend(),
    {
        self.backend
    }

    /// Whether color is used.
    pub fn color(&self) -> (b: bool)
        ensures
            b == self.use_color(),
    {
        self.use_color
    }

    /// Whether sub-steps of every inspector are shown.
    pub fn is_verbose(&self) -> (b: bool)
        ensures
            b == self.verbose(),
    {
        self.verbose
    }

    /// Finalizing: only the rich backend has work to do (stop its tick
    /// thread and print the durable checklist); the others do nothing.
    /// Returns whether the rich renderer must be finalized.
    pub fn finalize(&self) -> (rich: bool)
        ensures
            rich == (self.backend() == Backend::Rich),
    {
        self.backend == Backend::Rich
    }

    /// Cancelling (interrupt): only the rich backend stops its tick thread,
    /// leaving the terminal as it is; the others do nothing. Returns
    /// whether the rich renderer must be cancelled.
    pub fn cancel(&self) -> (rich: bool)
        ensures
            rich == (self.backend() == Backend::Rich),
    {
        self.backend == Backend::Rich
    }
}

pub open spec fn reset_code() -> Seq<char> {
    "\x1b[0m"@
}

/// `symbol` wrapped in `code` and the reset sequence when color is on.
pub open spec fn colored_spec(symbol: Seq<char>, code: Seq<char>, use_color: bool) -> Seq<char> {
    if use_color { code + symbol + reset_code() } else { symbol }
}

/// Wrap `symbol` in an ANSI color code when color is enabled.
pub fn colored(symbol: &str, code: &str, use_color: bool) -> (s: String)
    ensures
        s@ == colored_spec(symbol@, code@, use_color),
{
    if use_color {
        let mut s = String::new();
        push_str(&mut s, code);
        push_str(&mut s, symbol);
        push_str(&mut s, "\x1b[0m");
        s
    } else {
        symbol.to_owned()
    }
}

/// `n` copies of `s`.
pub open spec fn repeat_seq(s: Seq<char>, n: nat) -> Seq<char>
    decreases n,
{
    if n == 0 { Seq::empty() } else { repeat_seq(s, (n - 1) as nat) + s }
}

/// Each line preceded by a line-clear and followed by a newline.
pub open spec fn cleared_lines(lines: Seq<Seq<char>>) -> Seq<char>
    decreases lines.len(),
{
    if lines.len() == 0 {
        Seq::empty()
    } else {
        cleared_lines(lines.drop_last()) + "\x1b[2K"@ + lines.last() + "\n"@
    }
}

/// Cursor up `n` lines.
pub open spec fn cursor_up(n: nat) -> Seq<char> {
    "\x1b["@ + decimal(n) + "A"@
}

/// What redrawing the checklist writes: back up over the previous block,
/// each line cleared and rewritten, and when the new block is shorter the
/// leftover lines cleared and the cursor moved back up over them.
pub open spec fn redraw_spec(lines: Seq<Seq<char>>, prev: nat) -> Seq<char> {
    (if prev > 0 { cursor_up(prev) } else { Seq::empty() }) + cleared_lines(lines)
        + (if lines.len() < prev {
            repeat_seq("\x1b[2K\n"@, (prev - lines.len()) as nat) + cursor_up((prev - lines.len()) as nat)
        } else {
            Seq::empty()
        })
}

/// What clearing `n` lines above the cursor writes.
pub open spec fn clear_block_spec(n: nat) -> Seq<char> {
    if n > 0 { cursor_up(n) + repeat_seq("\x1b[2K\n"@, n) + cursor_up(n) } else { Seq::empty() }
}

fn push_cursor_up(s: &mut String, n: usize)
    ensures
        final(s)@ == old(s)@ + cursor_up(n as nat),
{
    push_str(s, "\x1b[");
    push_decimal(s, n);
    push_str(s, "A");
}

fn push_repeated(s: &mut String, t: &str, n: usize)
    ensures
        final(s)@ == old(s)@ + repeat_seq(t@, n as nat),
{
    let mut k: usize = 0;
    while k < n
        invariant
            0 <= k <= n,
            s@ == old(s)@ + repeat_seq(t@, k as nat),
        decreases n - k,
    {
        push_str(s, t);
        assert(s@ =~= old(s)@ + repeat_seq(t@, (k + 1) as nat));
        k = k + 1;
    }
}

/// The text that redraws the checklist block in place.
pub fn redraw(lines: &[String], prev_lines: usize) -> (s: String)
    ensures
        s@ == redraw_spec(crate::text::string_views(lines@), prev_lines as nat),
{
    let ghost lv = crate::text::string_views(lines@);
    let mut s = String::new();
    if prev_lines > 0 {
        push_cursor_up(&mut s, prev_lines);
    }
    let ghost head = s@;
    let mut i: usize = 0;
    while i < lines.len()
        invariant
            0 <= i <= lines@.len(),
            lv == crate::text::string_views(lines@),
            s@ == head + cleared_lines(lv.take(i as int)),
        decreases lines@.len() - i,
    {
        push_str(&mut s, "\x1b[2K");
        push_str(&mut s, lines[i].as_str());
        push_str(&mut s, "\n");
        assert(lv.take(i + 1).drop_last() =~= lv.take(i as int));
        assert(s@ =~= head + cleared_lines(lv.take(i + 1)));
        i = i + 1;
    }
    assert(lv.take(lines@.len() as int) =~= lv);
    if lines.len() < prev_lines {
        let extra = prev_lines - lines.len();
        push_repeated(&mut s, "\x1b[2K\n", extra);
        push_cursor_up(&mut s, extra);
    }
    s
}

/// The text that clears `n` lines above the cursor and returns to where
/// the clearing started.
pub fn clear_block(n: usize) -> (s: String)
    ensures
        s@ == clear_block_spec(n as nat),
{
    let mut s = String::new();
    if n > 0 {
        push_cursor_up(&mut s, n);
        push_repeated(&mut s, "\x1b[2K\n", n);
        push_cursor_up(&mut s, n);
    }
    s
}

} // verus!
