//! Fullscreen detail view: a header with the item's inclusion state, title
//! and position, scrollable content (diffs colored by line), and key hints.

use vstd::prelude::*;

use crate::pull_progress::{byte_len, byte_length, lemma_byte_len_bounds};
use crate::text::{
    chars_of, lines_of, lines_spec, matches_at, push_repeat, repeat_char, starts_with, string_views,
    truncate, truncate_chars,
};
use crate::widget::{ops_view, plain, plain_style, rect_bottom, text_op, ColorTier, DrawOp, DrawOpView, Rect, Style, Token};

verus! {

/// How the detail content is rendered.
#[derive(Debug, Clone, Copy, PartialEq, Eq, Structural)]
pub enum DetailContentType {
    /// Unified diff: `+` and `-` lines are colored.
    Diff,
    /// Systemd unit file content.
    UnitFile,
    /// YAML or other structured content.
    YamlContent,
    /// Plain text (key-value summaries and the like).
    PlainText,
    /// The rationale of an advisory item.
    Advisory,
}

/// Pre-built data for the fullscreen detail view.
#[derive(Debug, Clone)]
pub struct DetailData {
    /// Item title (config path, package name, ...).
    pub title: String,
    /// The content body.
    pub content: String,
    /// How to render the content.
    pub content_type: DetailContentType,
    /// Inclusion state: `Some(true)` included, `Some(false)` excluded,
    /// `None` for reference-only items.
    pub included: Option<bool>,
    /// Position string, e.g. "3 of 12".
    pub position: String,
}

/// Fullscreen detail view widget.
pub struct DetailViewWidget<'a> {
    data: &'a DetailData,
    scroll: u16,
    tier: ColorTier,
}

impl<'a> DetailViewWidget<'a> {
    /// A detail view of `data` scrolled down by `scroll` lines.
    pub fn new(data: &'a DetailData, scroll: u16, tier: ColorTier) -> (w: Self)
        ensures
            *w.data() == *data,
            w.scroll() == scroll,
            w.tier() == tier,
    {
        DetailViewWidget { data, scroll, tier }
    }

    pub closed spec fn data(&self) -> &'a DetailData {
        self.data
    }

    pub closed spec fn scroll(&self) -> u16 {
        self.scroll
    }

    pub closed spec fn tier(&self) -> ColorTier {
        self.tier
    }
}

/// The inclusion indicator: `● ` included, `○ ` excluded, nothing otherwise.
pub open spec fn inclusion_indicator(included: Option<bool>) -> Seq<char> {
    match included {
        Some(true) => "\u{25cf} "@,
        Some(false) => "\u{25cb} "@,
        None => Seq::empty(),
    }
}

pub open spec fn inclusion_style(included: Option<bool>) -> Style {
    match included {
        Some(true) => plain(Token::StatusIncluded),
        Some(false) => plain(Token::StatusExcluded),
        None => plain(Token::TextMuted),
    }
}

pub open spec fn sat_sub(a: int, b: int) -> int {
    if a >= b { a - b } else { 0 }
}

/// Header row: indicator, title truncated to fit before the position, and
/// the position right-aligned when it fits.
pub open spec fn header_ops(d: DetailData, area: Rect) -> Seq<DrawOpView> {
    let ind = inclusion_indicator(d.included);
    let ind_len = byte_len(ind) as int;
    let pos_len = byte_len(d.position@) as int;
    let w = area.width as int;
    let title_max = sat_sub(sat_sub(w, ind_len), pos_len + 1);
    (if ind.len() > 0 {
        seq![text_op(area.x as int, area.y as int, ind, inclusion_style(d.included))]
    } else {
        Seq::empty()
    }) + seq![text_op(area.x + ind_len, area.y as int, truncate_chars(d.title@, title_max as nat), Style { token: Token::TextPrimary, bold: true, dim: false })]
        + if pos_len < w {
        seq![text_op(area.x + (w - pos_len), area.y as int, d.position@, plain(Token::TextMuted))]
    } else {
        Seq::empty()
    }
}

/// Style of a content line.
pub open spec fn content_line_style(kind: DetailContentType, line: Seq<char>) -> Style {
    if kind == DetailContentType::Diff {
        if starts_with(line, "+"@) && !starts_with(line, "+++"@) {
            plain(Token::DiffAdded)
        } else if starts_with(line, "-"@) && !starts_with(line, "---"@) {
            plain(Token::DiffRemoved)
        } else {
            plain(Token::TextPrimary)
        }
    } else {
        plain(Token::TextPrimary)
    }
}

/// The first `n` visible content rows, starting at line `scroll`.
pub open spec fn detail_rows(d: DetailData, lines: Seq<Seq<char>>, scroll: int, area: Rect, n: nat) -> Seq<DrawOpView>
    decreases n,
{
    if n == 0 {
        Seq::empty()
    } else {
        let row = n - 1;
        let line = lines[scroll + row];
        detail_rows(d, lines, scroll, area, (n - 1) as nat) + seq![
            text_op(area.x as int, area.y + 2 + row, truncate_chars(line, area.width as nat), content_line_style(d.content_type, line)),
        ]
    }
}

/// Number of content rows shown.
pub open spec fn detail_shown(lines: Seq<Seq<char>>, scroll: int, height: int) -> int {
    let avail = sat_sub(lines.len() as int, scroll);
    if avail < height { avail } else { height }
}

/// Row of the key-hint footer.
pub open spec fn footer_row(area: Rect) -> int {
    sat_sub(rect_bottom(area), 1)
}

/// Number of rows between the separator and the footer.
pub open spec fn content_height(area: Rect) -> int {
    sat_sub(footer_row(area), area.y + 2)
}

pub open spec fn footer_hints() -> Seq<char> {
    "n:next  p:prev  Esc:close  j/k:scroll"@
}

/// The drawing operations of the detail view: nothing under 4 rows or 20
/// columns; otherwise header, separator, scrolled content, footer.
pub open spec fn detail_view_ops(d: DetailData, scroll: u16, area: Rect) -> Seq<DrawOpView> {
    if area.height < 4 || area.width < 20 {
        Seq::empty()
    } else {
        let lines = lines_spec(d.content@);
        header_ops(d, area) + seq![text_op(area.x as int, area.y + 1, repeat_char('\u{2500}', area.width as nat), plain(Token::TextMuted))]
            + detail_rows(d, lines, scroll as int, area, detail_shown(lines, scroll as int, content_height(area)) as nat)
            + seq![text_op(area.x as int, footer_row(area), truncate_chars(footer_hints(), area.width as nat), plain(Token::TextMuted))]
    }
}

/// Cell coordinates stay within 16 bits.
pub open spec fn detail_fits(area: Rect) -> bool {
    area.x + area.width <= u16::MAX && area.y + area.height <= u16::MAX
}

fn content_style(kind: DetailContentType, line: &str) -> (s: Style)
    ensures
        s == content_line_style(kind, line@),
{
    if kind == DetailContentType::Diff {
        let cs = chars_of(line);
        let plus = chars_of("+");
        let plus3 = chars_of("+++");
        let minus = chars_of("-");
        let minus3 = chars_of("---");
        if matches_at(&cs, &plus, 0) && !matches_at(&cs, &plus3, 0) {
            plain_style(Token::DiffAdded)
        } else if matches_at(&cs, &minus, 0) && !matches_at(&cs, &minus3, 0) {
            plain_style(Token::DiffRemoved)
        } else {
            plain_style(Token::TextPrimary)
        }
    } else {
        plain_style(Token::TextPrimary)
    }
}

impl<'a> DetailViewWidget<'a> {
    fn header(&self, area: Rect, ops: &mut Vec<DrawOp>)
        requires
            detail_fits(area),
            area.width >= 20,
        ensures
            ops_view(final(ops)@) == ops_view(old(ops)@) + header_ops(*self.data(), area),
    {
        let d = self.data;
        let ghost before = ops_view(ops@);
        let (ind, style): (&str, Style) = match d.included {
            Some(true) => ("\u{25cf} ", plain_style(Token::StatusIncluded)),
            Some(false) => ("\u{25cb} ", plain_style(Token::StatusExcluded)),
            None => ("", plain_style(Token::TextMuted)),
        };
        proof {
            reveal_strlit("");
            reveal_strlit("\u{25cf} ");
            reveal_strlit("\u{25cb} ");
        }
        assert(ind@ == inclusion_indicator(d.included));
        let ind_len = byte_length(ind);
        assert(ind_len <= 8) by {
            lemma_byte_len_bounds(ind@);
        }
        let pos_len = byte_length(d.position.as_str());
        let width = area.width as usize;
        if ind_len > 0 {
            ops.push(DrawOp::Text { x: area.x, y: area.y, text: ind.to_owned(), style });
        }
        let x = area.x + ind_len as u16;
        let title_max = width.saturating_sub(ind_len).saturating_sub(pos_len.saturating_add(1));
        assert(pos_len + 1 <= usize::MAX ==> title_max == sat_sub(sat_sub(width as int, ind_len as int), pos_len + 1));
        let title = truncate(d.title.as_str(), title_max);
        ops.push(DrawOp::Text { x, y: area.y, text: title, style: Style { token: Token::TextPrimary, bold: true, dim: false } });
        if pos_len < width {
            let px = area.x + (width - pos_len) as u16;
            ops.push(DrawOp::Text { x: px, y: area.y, text: d.position.clone(), style: plain_style(Token::TextMuted) });
        }
        assert(ops_view(ops@) =~= before + header_ops(*d, area));
    }

    /// Lay out the detail view in `area`.
    pub fn layout(&self, area: Rect) -> (ops: Vec<DrawOp>)
        requires
            detail_fits(area),
        ensures
            ops_view(ops@) == detail_view_ops(*self.data(), self.scroll(), area),
    {
        let mut ops: Vec<DrawOp> = Vec::new();
        if area.height < 4 || area.width < 20 {
            assert(ops_view(ops@) =~= detail_view_ops(*self.data(), self.scroll(), area));
            return ops;
        }
        let width = area.width as usize;
        assert(ops_view(ops@) =~= Seq::<DrawOpView>::empty());
        self.header(area, &mut ops);
        assert(ops_view(ops@) =~= header_ops(*self.data(), area));
        let ghost hdr = ops_view(ops@);
        let mut sep = String::new();
        push_repeat(&mut sep, '\u{2500}', width);
        let sep_op = DrawOp::Text { x: area.x, y: area.y + 1, text: sep, style: plain_style(Token::TextMuted) };
        assert(sep_op@ == text_op(area.x as int, area.y + 1, repeat_char('\u{2500}', area.width as nat), plain(Token::TextMuted)));
        ops.push(sep_op);
        assert(ops_view(ops@) =~= hdr.push(sep_op@));
        let top = area.y + 2;
        let footer = area.bottom().saturating_sub(1);
        let height = footer.saturating_sub(top) as usize;
        let lines = lines_of(self.data.content.as_str());
        let ghost ls = string_views(lines@);
        let scroll = self.scroll as usize;
        let avail = lines.len().saturating_sub(scroll);
        let shown = if avail < height { avail } else { height };
        let ghost head = ops_view(ops@);
        let mut row: usize = 0;
        while row < shown
            invariant
                detail_fits(area),
                area.height >= 4,
                width == area.width as usize,
                ls == string_views(lines@),
                ls == lines_spec(self.data().content@),
                scroll == self.scroll() as usize,
                shown == detail_shown(ls, scroll as int, content_height(area)),
                shown == 0 || shown + scroll <= lines@.len(),
                shown <= area.height,
                0 <= row <= shown,
                ops_view(ops@) == head + detail_rows(*self.data(), ls, scroll as int, area, row as nat),
            decreases shown - row,
        {
            let ghost before = ops_view(ops@);
            assert(row < u16::MAX);
            let y = area.y + 2 + row as u16;
            let line = lines[scroll + row].as_str();
            assert(ls[scroll + row] == line@);
            assert(y == area.y + 2 + row);
            let op = DrawOp::Text { x: area.x, y, text: truncate(line, width), style: content_style(self.data.content_type, line) };
            assert(op@ == text_op(area.x as int, area.y + 2 + row, truncate_chars(ls[scroll + row], area.width as nat),
                content_line_style(self.data().content_type, ls[scroll + row])));
            ops.push(op);
            proof {
                assert(ops_view(ops@) =~= before.push(op@));
                assert(ops_view(ops@) =~= head + detail_rows(*self.data(), ls, scroll as int, area, (row + 1) as nat));
            }
            row = row + 1;
        }
        let ghost body = ops_view(ops@);
        let foot = DrawOp::Text {
            x: area.x,
            y: footer,
            text: truncate("n:next  p:prev  Esc:close  j/k:scroll", width),
            style: plain_style(Token::TextMuted),
        };
        assert(foot@ == text_op(area.x as int, footer_row(area), truncate_chars(footer_hints(), area.width as nat), plain(Token::TextMuted)));
        ops.push(foot);
        assert(ops_view(ops@) =~= body.push(foot@));
        assert(ops_view(ops@) =~= detail_view_ops(*self.data(), self.scroll(), area));
        ops
    }
}

} // verus!
