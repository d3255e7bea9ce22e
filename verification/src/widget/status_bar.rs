//! The one-row status bar: decision counts, Containerfile delta, review
//! progress and key hints, or a transient flash message in their place.

use vstd::prelude::*;

use crate::text::{decimal, join_seq, join_strings, push_decimal, push_str, string_views, usize_to_string};
use crate::widget::{
    ops_view, plain, plain_style, rect_right, text_op, ColorTier, DrawOp, DrawOpView, Rect, Token,
};
use crate::pull_progress::{byte_len, byte_length};

verus! {

/// A transient message shown in the status bar until it expires.
#[derive(Debug, Clone, PartialEq, Eq)]
pub struct FlashMessage {
    pub text: String,
    /// When the message was raised, in milliseconds on the caller's clock.
    pub shown_at_ms: u64,
    /// How long the message stays, in seconds.
    pub ttl_secs: u64,
}

/// The message has outlived its time to live at `now_ms`.
pub open spec fn flash_expired(f: FlashMessage, now_ms: u64) -> bool {
    now_ms >= f.shown_at_ms + f.ttl_secs * 1000
}

impl FlashMessage {
    /// A message raised at `now_ms` that stays for `ttl_secs` seconds.
    pub fn new(text: String, ttl_secs: u64, now_ms: u64) -> (f: FlashMessage)
        ensures
            f.text@ == text@,
            f.ttl_secs == ttl_secs,
            f.shown_at_ms == now_ms,
    {
        FlashMessage { text, shown_at_ms: now_ms, ttl_secs }
    }

    /// Whether the message has expired at `now_ms`.
    pub fn is_expired(&self, now_ms: u64) -> (b: bool)
        ensures
            b == flash_expired(*self, now_ms),
    {
        let ttl_ms = (self.ttl_secs as u128) * 1000;
        (now_ms as u128) >= (self.shown_at_ms as u128) + ttl_ms
    }
}

/// Status bar widget, configured through builder methods.
pub struct StatusBarWidget<'a> {
    included: usize,
    excluded: usize,
    containerfile_delta: usize,
    reviewed: usize,
    total_reviewable: usize,
    flash: Option<&'a FlashMessage>,
    tier: ColorTier,
    is_decision_section: bool,
}

/// The abstract configuration of a status bar.
pub struct StatusBarView {
    pub included: usize,
    pub excluded: usize,
    pub containerfile_delta: usize,
    pub reviewed: usize,
    pub total_reviewable: usize,
    pub flash: Option<FlashMessage>,
    pub tier: ColorTier,
    pub is_decision_section: bool,
}

impl<'a> View for StatusBarWidget<'a> {
    type V = StatusBarView;

    closed spec fn view(&self) -> StatusBarView {
        StatusBarView {
            included: self.included,
            excluded: self.excluded,
            containerfile_delta: self.containerfile_delta,
            reviewed: self.reviewed,
            total_reviewable: self.total_reviewable,
            flash: match self.flash {
                Some(f) => Some(*f),
                None => None,
            },
            tier: self.tier,
            is_decision_section: self.is_decision_section,
        }
    }
}

impl<'a> StatusBarWidget<'a> {
    /// A status bar with zero counts, no flash, for a decision section.
    pub fn new(tier: ColorTier) -> (w: Self)
        ensures
            w@ == (StatusBarView {
                included: 0,
                excluded: 0,
                containerfile_delta: 0,
                reviewed: 0,
                total_reviewable: 0,
                flash: None,
                tier,
                is_decision_section: true,
            }),
    {
        StatusBarWidget {
            included: 0,
            excluded: 0,
            containerfile_delta: 0,
            reviewed: 0,
            total_reviewable: 0,
            flash: None,
            tier,
            is_decision_section: true,
        }
    }

    /// Sets the included and excluded counts.
    pub fn stats(self, included: usize, excluded: usize) -> (w: Self)
        ensures
            w@ == (StatusBarView { included, excluded, ..self@ }),
    {
        let mut s = self;
        s.included = included;
        s.excluded = excluded;
        s
    }

    /// Sets the number of pending Containerfile changes.
    pub fn containerfile_delta(self, delta: usize) -> (w: Self)
        ensures
            w@ == (StatusBarView { containerfile_delta: delta, ..self@ }),
    {
        let mut s = self;
        s.containerfile_delta = delta;
        s
    }

    /// Sets the review progress (`reviewed` of `total`).
    pub fn reviewed_progress(self, reviewed: usize, total: usize) -> (w: Self)
        ensures
            w@ == (StatusBarView { reviewed, total_reviewable: total, ..self@ }),
    {
        let mut s = self;
        s.reviewed = reviewed;
        s.total_reviewable = total;
        s
    }

    /// Sets the flash message, if any.
    pub fn flash(self, flash: Option<&'a FlashMessage>) -> (w: Self)
        ensures
            w@ == (StatusBarView {
                flash: match flash {
                    Some(f) => Some(*f),
                    None => None,
                },
                ..self@
            }),
    {
        let mut s = self;
        s.flash = flash;
        s
    }

    /// Sets whether the active section holds decisions (counts are shown
    /// only for decision sections).
    pub fn decision_section(self, is_decision: bool) -> (w: Self)
        ensures
            w@ == (StatusBarView { is_decision_section: is_decision, ..self@ }),
    {
        let mut s = self;
        s.is_decision_section = is_decision;
        s
    }
}

/// The segments of the status line, in order.
pub open spec fn status_parts(v: StatusBarView) -> Seq<Seq<char>> {
    (if v.is_decision_section {
        seq![decimal(v.included as nat) + " incl"@, decimal(v.excluded as nat) + " excl"@]
    } else {
        Seq::empty()
    }) + (if v.containerfile_delta > 0 {
        seq!["Containerfile: "@ + decimal(v.containerfile_delta as nat) + "\u{394}"@]
    } else {
        Seq::empty()
    }) + (if v.total_reviewable > 0 {
        seq![decimal(v.reviewed as nat) + "/"@ + decimal(v.total_reviewable as nat) + " reviewed"@]
    } else {
        Seq::empty()
    })
}

/// The status line: a space, then the segments joined by ` · `.
pub open spec fn status_text(v: StatusBarView) -> Seq<char> {
    " "@ + join_seq(status_parts(v), " \u{b7} "@)
}

/// The key hints shown at the right end of the bar.
pub open spec fn hints_text() -> Seq<char> {
    "q:quit  ?:help  /:search  ::cmd"@
}

/// Column where the key hints start: 32 columns left of the right edge.
pub open spec fn hints_x(area: Rect) -> int {
    if rect_right(area) >= 32 { rect_right(area) - 32 } else { 0 }
}

/// The drawing operations of the status bar at time `now_ms`.
pub open spec fn status_bar_ops(v: StatusBarView, area: Rect, now_ms: u64) -> Seq<DrawOpView> {
    if area.height == 0 {
        Seq::empty()
    } else if v.flash is Some && !flash_expired(v.flash->0, now_ms) {
        seq![text_op(area.x + 1, area.y as int, v.flash->0.text@, plain(Token::Warning))]
    } else {
        let status = status_text(v);
        seq![text_op(area.x as int, area.y as int, status, plain(Token::TextMuted))] + if hints_x(area) > area.x
            + byte_len(status) + 2 {
            seq![text_op(hints_x(area), area.y as int, hints_text(), plain(Token::TextMuted))]
        } else {
            Seq::empty()
        }
    }
}

/// The drawing stays within 16-bit cell coordinates.
pub open spec fn status_bar_fits(v: StatusBarView, area: Rect) -> bool {
    &&& area.x < u16::MAX
    &&& area.x + byte_len(status_text(v)) + 2 <= u16::MAX
}

impl<'a> StatusBarWidget<'a> {
    /// Lay out the bar in `area` at time `now_ms`: an unexpired flash
    /// message replaces everything; otherwise the status line is written at
    /// the left and the key hints at the right when they do not collide.
    pub fn layout(&self, area: Rect, now_ms: u64) -> (ops: Vec<DrawOp>)
        requires
            status_bar_fits(self@, area),
        ensures
            ops_view(ops@) == status_bar_ops(self@, area, now_ms),
    {
        let mut ops: Vec<DrawOp> = Vec::new();
        if area.height == 0 {
            assert(ops_view(ops@) =~= status_bar_ops(self@, area, now_ms));
            return ops;
        }
        match self.flash {
            Some(f) => {
                if !f.is_expired(now_ms) {
                    ops.push(DrawOp::Text { x: area.x + 1, y: area.y, text: f.text.clone(), style: plain_style(Token::Warning) });
                    assert(ops_view(ops@) =~= status_bar_ops(self@, area, now_ms));
                    return ops;
                }
            },
            None => {},
        }
        let status = self.status_line();
        let hints = "q:quit  ?:help  /:search  ::cmd";
        let right = area.right();
        let hx = right.saturating_sub(32);
        let slen = byte_length(status.as_str());
        let ghost st = status@;
        ops.push(DrawOp::Text { x: area.x, y: area.y, text: status, style: plain_style(Token::TextMuted) });
        if (hx as usize) > (area.x as usize) + slen + 2 {
            ops.push(DrawOp::Text { x: hx, y: area.y, text: hints.to_owned(), style: plain_style(Token::TextMuted) });
        }
        assert(ops_view(ops@) =~= status_bar_ops(self@, area, now_ms));
        ops
    }

    /// The status line text.
    pub fn status_line(&self) -> (s: String)
        ensures
            s@ == status_text(self@),
    {
        let ghost v = self@;
        let mut parts: Vec<String> = Vec::new();
        if self.is_decision_section {
            let mut a = usize_to_string(self.included);
            push_str(&mut a, " incl");
            let mut b = usize_to_string(self.excluded);
            push_str(&mut b, " excl");
            parts.push(a);
            parts.push(b);
        }
        let ghost p1 = string_views(parts@);
        if self.containerfile_delta > 0 {
            let mut c = String::new();
            push_str(&mut c, "Containerfile: ");
            push_decimal(&mut c, self.containerfile_delta);
            push_str(&mut c, "\u{394}");
            parts.push(c);
        }
        let ghost p2 = string_views(parts@);
        if self.total_reviewable > 0 {
            let mut d = usize_to_string(self.reviewed);
            push_str(&mut d, "/");
            push_decimal(&mut d, self.total_reviewable);
            push_str(&mut d, " reviewed");
            parts.push(d);
        }
        proof {
            assert(string_views(parts@) =~= status_parts(v));
        }
        let joined = join_strings(&parts, " \u{b7} ");
        let mut s = String::new();
        push_str(&mut s, " ");
        push_str(&mut s, joined.as_str());
        s
    }
}

} // verus!
