//! Terminal widgets of the single-host view. Each widget lays itself out
//! as a list of drawing operations (text at a cell, or an area to clear)
//! in semantic styles; the terminal front end paints them.

use vstd::prelude::*;

pub mod containerfile;
pub mod detail_view;
pub mod help_screen;
pub mod info_bar;
pub mod search;
pub mod section_nav;
pub mod status_bar;

verus! {

/// A rectangle of terminal cells.
#[derive(Debug, Clone, Copy, PartialEq, Eq, Structural)]
pub struct Rect {
    pub x: u16,
    pub y: u16,
    pub width: u16,
    pub height: u16,
}

/// First column past the rectangle (saturating, as the terminal library computes it).
pub open spec fn rect_right(r: Rect) -> int {
    if r.x + r.width > u16::MAX { u16::MAX as int } else { r.x + r.width }
}

/// First row past the rectangle (saturating).
pub open spec fn rect_bottom(r: Rect) -> int {
    if r.y + r.height > u16::MAX { u16::MAX as int } else { r.y + r.height }
}

impl Rect {
    pub fn new(x: u16, y: u16, width: u16, height: u16) -> (r: Rect)
        ensures
            r == (Rect { x, y, width, height }),
    {
        Rect { x, y, width, height }
    }

    pub fn right(&self) -> (r: u16)
        ensures
            r == rect_right(*self),
    {
        self.x.saturating_add(self.width)
    }

    pub fn bottom(&self) -> (b: u16)
        ensures
            b == rect_bottom(*self),
    {
        self.y.saturating_add(self.height)
    }
}

/// Display capability of the terminal.
#[derive(Debug, Clone, Copy, PartialEq, Eq, Structural)]
pub enum ColorTier {
    Mono,
    Ansi16,
    Ansi256,
    TrueColor,
}

/// Semantic color roles; the front end maps each to a concrete style for
/// the terminal's color tier.
#[derive(Debug, Clone, Copy, PartialEq, Eq, Structural)]
pub enum Token {
    TextPrimary,
    TextMuted,
    DiffAdded,
    DiffRemoved,
    Warning,
    FocusBorder,
    FocusUnfocused,
    FocusSelected,
    StatusIncluded,
    StatusExcluded,
}

/// A semantic style: a color role plus text modifiers.
#[derive(Debug, Clone, Copy, PartialEq, Eq, Structural)]
pub struct Style {
    pub token: Token,
    pub bold: bool,
    pub dim: bool,
}

/// A plain style of a color role.
pub open spec fn plain(token: Token) -> Style {
    Style { token, bold: false, dim: false }
}

pub fn plain_style(token: Token) -> (s: Style)
    ensures
        s == plain(token),
{
    Style { token, bold: false, dim: false }
}

/// One drawing operation.
#[derive(Debug, Clone, PartialEq, Eq)]
pub enum DrawOp {
    /// Write `text` starting at cell (`x`, `y`).
    Text { x: u16, y: u16, text: String, style: Style },
    /// Reset every cell of an area to blank.
    Clear { area: Rect },
}

/// The abstract content of a drawing operation.
pub enum DrawOpView {
    Text { x: int, y: int, text: Seq<char>, style: Style },
    Clear { area: Rect },
}

impl View for DrawOp {
    type V = DrawOpView;

    open spec fn view(&self) -> DrawOpView {
        match self {
            DrawOp::Text { x, y, text, style } => DrawOpView::Text { x: *x as int, y: *y as int, text: text@, style: *style },
            DrawOp::Clear { area } => DrawOpView::Clear { area: *area },
        }
    }
}

/// The views of a list of drawing operations.
pub open spec fn ops_view(ops: Seq<DrawOp>) -> Seq<DrawOpView> {
    ops.map_values(|o: DrawOp| o@)
}

/// A text operation as an abstract value.
pub open spec fn text_op(x: int, y: int, text: Seq<char>, style: Style) -> DrawOpView {
    DrawOpView::Text { x, y, text, style }
}

} // verus!
