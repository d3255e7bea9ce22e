//! Sidebar navigation tree: a header, group rows with collapse arrows and
//! summary counts, numbered section rows, and scroll indicators.

use vstd::prelude::*;

use crate::pull_progress::{byte_len, byte_length, byte_prefix, byte_prefix_str, is_byte_boundary};
use crate::sections::NavRow;
use crate::text::{decimal, pad_right, push_decimal, push_padded, push_str};
use crate::tui_types::{group_label, is_decision_section, section_label, SectionEntry, SectionId};
use crate::widget::{ops_view, plain, plain_style, rect_bottom, rect_right, text_op, ColorTier, DrawOp, DrawOpView, Rect, Style, Token};

verus! {

/// Sidebar navigation widget.
pub struct SectionNavWidget<'a> {
    rows: &'a [NavRow],
    active_section: SectionId,
    focused: bool,
    tier: ColorTier,
    scroll_offset: usize,
}

impl<'a> SectionNavWidget<'a> {
    pub fn new(rows: &'a [NavRow], active_section: SectionId, focused: bool, tier: ColorTier, scroll_offset: usize) -> (w: Self)
        ensures
            w.rows() == rows@,
            w.active_section() == active_section,
            w.focused() == focused,
            w.tier() == tier,
            w.scroll_offset() == scroll_offset,
    {
        SectionNavWidget { rows, active_section, focused, tier, scroll_offset }
    }

    pub closed spec fn rows(&self) -> Seq<NavRow> {
        self.rows@
    }

    pub closed spec fn active_section(&self) -> SectionId {
        self.active_section
    }

    pub closed spec fn focused(&self) -> bool {
        self.focused
    }

    pub closed spec fn tier(&self) -> ColorTier {
        self.tier
    }

    pub closed spec fn scroll_offset(&self) -> usize {
        self.scroll_offset
    }
}

/// `s` cut to its first `n` bytes when longer (`&s[..n]`).
pub open spec fn cut_bytes(s: Seq<char>, n: int) -> Seq<char> {
    if byte_len(s) > n { byte_prefix(s, n) } else { s }
}

pub open spec fn sat(a: int) -> int {
    if a > 0 { a } else { 0 }
}

/// Text of a group row before it is fitted to the width.
pub open spec fn group_text(g: crate::tui_types::NavGroup, collapsed: bool, actionable: nat, advisories: nat) -> Seq<char> {
    let arrow = if collapsed { "\u{25b8}"@ } else { "\u{25be}"@ };
    if collapsed {
        arrow + " "@ + group_label(g) + " ["@ + decimal(actionable) + ", "@ + decimal(advisories) + " adv]"@
    } else {
        arrow + " "@ + group_label(g)
    }
}

/// The number prefix of the `n`-th section row: `"{n} "` for the first
/// nine, two spaces after that.
pub open spec fn number_prefix(n: nat) -> Seq<char> {
    if n <= 9 { decimal(n) + " "@ } else { "  "@ }
}

/// Width left for the label of a section row.
pub open spec fn label_width(width: int, count: nat) -> int {
    sat(width - 1 - 2 - byte_len(decimal(count)) - 1)
}

/// A section row: indent, number, label padded to its width, count.
pub open spec fn section_line(e: SectionEntry, n: nat, width: int) -> Seq<char> {
    let lw = label_width(width, e.count as nat);
    " "@ + number_prefix(n) + pad_right(cut_bytes(section_label(e.id), lw), lw as nat) + decimal(e.count as nat)
}

pub open spec fn section_style(e: SectionEntry, active: SectionId) -> Style {
    if e.id == active {
        plain(Token::FocusSelected)
    } else if is_decision_section(e.id) {
        plain(Token::TextPrimary)
    } else {
        plain(Token::TextMuted)
    }
}

pub open spec fn group_style() -> Style {
    Style { token: Token::FocusBorder, bold: false, dim: true }
}

/// Operations of the rows from index `i` on, with `n` section rows drawn
/// before it; rows stop at the area's bottom.
pub open spec fn nav_body(rows: Seq<NavRow>, i: int, scroll: int, n: nat, active: SectionId, area: Rect) -> Seq<DrawOpView>
    decreases rows.len() - i,
{
    if i < scroll || i >= rows.len() || area.y + 1 + (i - scroll) >= rect_bottom(area) {
        Seq::empty()
    } else {
        let y = area.y + 1 + (i - scroll);
        match rows[i] {
            NavRow::Group { group, collapsed, actionable, advisories } => {
                let text = group_text(group, collapsed, actionable as nat, advisories as nat);
                seq![text_op(area.x as int, y, pad_right(cut_bytes(text, area.width as int), area.width as nat), group_style())]
                    + nav_body(rows, i + 1, scroll, n, active, area)
            },
            NavRow::Section(e) => {
                seq![text_op(area.x as int, y, section_line(e, n + 1, area.width as int), section_style(e, active))]
                    + nav_body(rows, i + 1, scroll, n + 1, active, area)
            },
        }
    }
}

/// The scroll position actually used: at most `total - height`.
pub open spec fn effective_scroll(offset: int, total: int, height: int) -> int {
    let max = sat(total - height);
    if offset < max { offset } else { max }
}

pub open spec fn border_style(focused: bool) -> Style {
    if focused { plain(Token::FocusBorder) } else { plain(Token::FocusUnfocused) }
}

/// The drawing operations of the sidebar.
pub open spec fn section_nav_ops(rows: Seq<NavRow>, active: SectionId, focused: bool, offset: int, area: Rect) -> Seq<DrawOpView> {
    if area.height == 0 || area.width == 0 {
        Seq::empty()
    } else {
        let scroll = effective_scroll(offset, rows.len() as int, area.height as int);
        let header = if focused { "\u{2500} Sections \u{2500}"@ } else { " Sections "@ };
        seq![text_op(area.x as int, area.y as int, pad_right(header, area.width as nat), border_style(focused))]
            + nav_body(rows, scroll, scroll, 0, active, area)
            + (if scroll > 0 { seq![text_op(rect_right(area) - 1, area.y + 1, "\u{25b2}"@, border_style(focused))] } else { Seq::empty() })
            + (if scroll + area.height < rows.len() + 1 {
                seq![text_op(rect_right(area) - 1, rect_bottom(area) - 1, "\u{25bc}"@, border_style(focused))]
            } else {
                Seq::empty()
            })
    }
}

/// Byte slicing of a row's text lands on a character boundary.
pub open spec fn nav_row_fits(row: NavRow, width: int) -> bool {
    match row {
        NavRow::Group { group, collapsed, actionable, advisories } => {
            let text = group_text(group, collapsed, actionable as nat, advisories as nat);
            byte_len(text) > width ==> is_byte_boundary(text, width)
        },
        NavRow::Section(e) => {
            let lw = label_width(width, e.count as nat);
            byte_len(section_label(e.id)) > lw ==> is_byte_boundary(section_label(e.id), lw)
        },
    }
}

/// What drawing needs: coordinates within 16 bits and every cut on a
/// character boundary.
pub open spec fn section_nav_fits(rows: Seq<NavRow>, area: Rect) -> bool {
    &&& area.x + area.width <= u16::MAX
    &&& area.y + area.height <= u16::MAX
    &&& forall|i: int| 0 <= i < rows.len() ==> nav_row_fits(#[trigger] rows[i], area.width as int)
}

fn group_row_text(group: crate::tui_types::NavGroup, collapsed: bool, actionable: usize, advisories: usize) -> (s: String)
    ensures
        s@ == group_text(group, collapsed, actionable as nat, advisories as nat),
{
    let mut s = String::new();
    if collapsed {
        push_str(&mut s, "\u{25b8}");
    } else {
        push_str(&mut s, "\u{25be}");
    }
    push_str(&mut s, " ");
    push_str(&mut s, group.short_label());
    if collapsed {
        push_str(&mut s, " [");
        push_decimal(&mut s, actionable);
        push_str(&mut s, ", ");
        push_decimal(&mut s, advisories);
        push_str(&mut s, " adv]");
    }
    s
}

fn section_row_text(e: &SectionEntry, n: usize, width: usize) -> (s: String)
    requires
        nav_row_fits(NavRow::Section(*e), width as int),
    ensures
        s@ == section_line(*e, n as nat, width as int),
{
    let mut num = String::new();
    if n <= 9 {
        push_decimal(&mut num, n);
        push_str(&mut num, " ");
    } else {
        push_str(&mut num, "  ");
    }
    let mut count_str = String::new();
    push_decimal(&mut count_str, e.count);
    let clen = byte_length(count_str.as_str());
    let lw = width.saturating_sub(1).saturating_sub(2).saturating_sub(clen).saturating_sub(1);
    assert(lw == label_width(width as int, e.count as nat));
    let label = e.id.label();
    let truncated: &str = if byte_length(label) > lw { byte_prefix_str(label, lw) } else { label };
    let mut s = String::new();
    push_str(&mut s, " ");
    push_str(&mut s, num.as_str());
    push_padded(&mut s, truncated, lw);
    push_str(&mut s, count_str.as_str());
    s
}

impl<'a> SectionNavWidget<'a> {
    /// Lay out the sidebar in `area`.
    pub fn layout(&self, area: Rect) -> (ops: Vec<DrawOp>)
        requires
            section_nav_fits(self.rows(), area),
        ensures
            ops_view(ops@) == section_nav_ops(self.rows(), self.active_section(), self.focused(), self.scroll_offset() as int, area),
    {
        let mut ops: Vec<DrawOp> = Vec::new();
        let ghost rs = self.rows@;
        if area.height == 0 || area.width == 0 {
            assert(ops_view(ops@) =~= section_nav_ops(rs, self.active_section, self.focused, self.scroll_offset as int, area));
            return ops;
        }
        let vh = area.height as usize;
        let width = area.width as usize;
        let total = self.rows.len();
        let max_scroll = total.saturating_sub(vh);
        let scroll = if self.scroll_offset < max_scroll { self.scroll_offset } else { max_scroll };
        let bstyle = if self.focused { plain_style(Token::FocusBorder) } else { plain_style(Token::FocusUnfocused) };
        let header: &str = if self.focused { "\u{2500} Sections \u{2500}" } else { " Sections " };
        let mut header_line = String::new();
        push_padded(&mut header_line, header, width);
        let hop = DrawOp::Text { x: area.x, y: area.y, text: header_line, style: bstyle };
        ops.push(hop);
        let ghost head = ops_view(ops@);
        let ghost body = nav_body(rs, scroll as int, scroll as int, 0, self.active_section, area);
        let bottom = area.bottom();
        let mut n: usize = 0;
        let mut i: usize = scroll;
        while i < total
            invariant_except_break
                section_nav_fits(rs, area),
                rs == self.rows@,
                total == rs.len(),
                width == area.width as usize,
                area.height > 0,
                bottom == rect_bottom(area),
                scroll <= i <= total,
                area.y + 1 + (i - scroll) <= bottom,
                n <= i,
                ops_view(ops@) + nav_body(rs, i as int, scroll as int, n as nat, self.active_section, area) == head + body,
            ensures
                ops_view(ops@) == head + body,
            decreases total - i,
        {
            let row_y = area.y + 1 + (i - scroll) as u16;
            if row_y >= bottom {
                assert(nav_body(rs, i as int, scroll as int, n as nat, self.active_section, area) =~= Seq::<DrawOpView>::empty());
                assert(ops_view(ops@) =~= ops_view(ops@) + Seq::<DrawOpView>::empty());
                break;
            }
            let ghost before = ops_view(ops@);
            assert(nav_row_fits(rs[i as int], area.width as int));
            match &self.rows[i] {
                NavRow::Group { group, collapsed, actionable, advisories } => {
                    let text = group_row_text(*group, *collapsed, *actionable, *advisories);
                    let shown: &str = if byte_length(text.as_str()) > width { byte_prefix_str(text.as_str(), width) } else { text.as_str() };
                    let mut line = String::new();
                    push_padded(&mut line, shown, width);
                    let op = DrawOp::Text { x: area.x, y: row_y, text: line, style: Style { token: Token::FocusBorder, bold: false, dim: true } };
                    ops.push(op);
                    assert(ops_view(ops@) =~= before.push(op@));
                },
                NavRow::Section(e) => {
                    let line = section_row_text(e, n + 1, width);
                    let style = if e.id == self.active_section {
                        plain_style(Token::FocusSelected)
                    } else if e.id.is_decision() {
                        plain_style(Token::TextPrimary)
                    } else {
                        plain_style(Token::TextMuted)
                    };
                    let op = DrawOp::Text { x: area.x, y: row_y, text: line, style };
                    ops.push(op);
                    assert(ops_view(ops@) =~= before.push(op@));
                    n = n + 1;
                },
            }
            i = i + 1;
        }
        let right = area.right();
        let ghost mid = ops_view(ops@);
        if scroll > 0 {
            let op = DrawOp::Text { x: right - 1, y: area.y + 1, text: "\u{25b2}".to_owned(), style: bstyle };
            ops.push(op);
            assert(ops_view(ops@) =~= mid.push(op@));
        }
        let ghost mid2 = ops_view(ops@);
        if vh <= total - scroll {
            let op = DrawOp::Text { x: right - 1, y: bottom - 1, text: "\u{25bc}".to_owned(), style: bstyle };
            ops.push(op);
            assert(ops_view(ops@) =~= mid2.push(op@));
        }
        assert(ops_view(ops@) =~= section_nav_ops(rs, self.active_section, self.focused, self.scroll_offset as int, area));
        ops
    }
}

} // verus!
