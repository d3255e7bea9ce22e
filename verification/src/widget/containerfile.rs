//! Containerfile preview panel: line-numbered content with directive
//! keywords and comments highlighted.

use vstd::prelude::*;

use crate::text::{
    chars_of, decimal, lines_of, lines_spec, matches_at, occurs_at, pad_left, push_decimal_right,
    push_str, repeat_char, push_repeat, starts_with, string_views, trim_start_chars, trim_start_spec,
    truncate, truncate_chars,
};
use crate::widget::{ops_view, plain, plain_style, text_op, ColorTier, DrawOp, DrawOpView, Rect, Style, Token};

verus! {

/// Containerfile preview panel widget.
pub struct ContainerfileWidget<'a> {
    content: &'a str,
    tier: ColorTier,
}

impl<'a> ContainerfileWidget<'a> {
    /// A preview of `content`.
    pub fn new(content: &'a str, tier: ColorTier) -> (w: Self)
        ensures
            w.content()@ == content@,
            w.tier() == tier,
    {
        ContainerfileWidget { content, tier }
    }

    pub closed spec fn content(&self) -> &'a str {
        self.content
    }

    pub closed spec fn tier(&self) -> ColorTier {
        self.tier
    }
}

/// Dockerfile directive keywords that get highlighted.
pub open spec fn dockerfile_keywords() -> Seq<Seq<char>> {
    seq![
        "FROM"@, "RUN"@, "COPY"@, "ADD"@, "ENV"@, "ARG"@, "LABEL"@, "EXPOSE"@, "WORKDIR"@,
        "USER"@, "ENTRYPOINT"@, "CMD"@, "VOLUME"@, "STOPSIGNAL"@, "HEALTHCHECK"@, "SHELL"@,
        "ONBUILD"@, "MAINTAINER"@,
    ]
}

/// The line, without its leading whitespace, starts with a keyword.
pub open spec fn keyword_line(line: Seq<char>) -> bool {
    exists|k: int| 0 <= k < dockerfile_keywords().len() && starts_with(trim_start_spec(line), #[trigger] dockerfile_keywords()[k])
}

fn keywords() -> (v: Vec<&'static str>)
    ensures
        v@.map_values(|s: &str| s@) == dockerfile_keywords(),
{
    let v = vec![
        "FROM", "RUN", "COPY", "ADD", "ENV", "ARG", "LABEL", "EXPOSE", "WORKDIR", "USER",
        "ENTRYPOINT", "CMD", "VOLUME", "STOPSIGNAL", "HEALTHCHECK", "SHELL", "ONBUILD", "MAINTAINER",
    ];
    assert(v@.map_values(|s: &str| s@) =~= dockerfile_keywords());
    v
}

/// Whether a line starts (after leading whitespace) with a Dockerfile keyword.
pub fn is_keyword_line(line: &str) -> (b: bool)
    ensures
        b == keyword_line(line@),
{
    let cs = chars_of(line);
    let trimmed = trim_start_chars(&cs);
    let kws = keywords();
    let mut i: usize = 0;
    while i < kws.len()
        invariant
            kws@.map_values(|s: &str| s@) == dockerfile_keywords(),
            trimmed@ == trim_start_spec(line@),
            0 <= i <= kws@.len(),
            forall|k: int| 0 <= k < i ==> !starts_with(trimmed@, #[trigger] dockerfile_keywords()[k]),
        decreases kws@.len() - i,
    {
        let kw = chars_of(kws[i]);
        assert(kw@ == dockerfile_keywords()[i as int]);
        if matches_at(&trimmed, &kw, 0) {
            return true;
        }
        i = i + 1;
    }
    false
}

/// The style of a content line: comments muted, directives highlighted.
pub open spec fn line_style(line: Seq<char>) -> Style {
    if starts_with(trim_start_spec(line), "#"@) {
        plain(Token::TextMuted)
    } else if keyword_line(line) {
        plain(Token::DiffAdded)
    } else {
        plain(Token::TextPrimary)
    }
}

/// The operations of the first `n` content rows.
pub open spec fn content_rows(lines: Seq<Seq<char>>, area: Rect, n: nat) -> Seq<DrawOpView>
    decreases n,
{
    if n == 0 {
        Seq::empty()
    } else {
        let row = n - 1;
        content_rows(lines, area, (n - 1) as nat) + seq![
            text_op(area.x as int, area.y + 2 + row, pad_left(decimal(n), 3) + " "@, plain(Token::TextMuted)),
            text_op(area.x + 4, area.y + 2 + row, truncate_chars(lines[row], (area.width - 4) as nat), line_style(lines[row])),
        ]
    }
}

/// The drawing operations of the preview: nothing when the area is under
/// 3 rows or 15 columns; otherwise a bold header, a separator, and up to
/// `height - 2` line-numbered content rows.
pub open spec fn containerfile_ops(content: Seq<char>, area: Rect) -> Seq<DrawOpView> {
    if area.height < 3 || area.width < 15 {
        Seq::empty()
    } else {
        let lines = lines_spec(content);
        let shown = if lines.len() < area.height - 2 { lines.len() } else { (area.height - 2) as nat };
        seq![
            text_op(area.x as int, area.y as int, truncate_chars("Containerfile Preview"@, area.width as nat),
                Style { token: Token::TextPrimary, bold: true, dim: false }),
            text_op(area.x as int, area.y + 1, repeat_char('\u{2500}', area.width as nat), plain(Token::TextMuted)),
        ] + content_rows(lines, area, shown as nat)
    }
}

/// Cell coordinates of the preview stay within 16 bits.
pub open spec fn area_fits(area: Rect) -> bool {
    area.x + area.width <= u16::MAX && area.y + area.height <= u16::MAX
}

fn line_style_of(line: &str) -> (s: Style)
    ensures
        s == line_style(line@),
{
    let cs = chars_of(line);
    let trimmed = trim_start_chars(&cs);
    let hash = chars_of("#");
    if matches_at(&trimmed, &hash, 0) {
        plain_style(Token::TextMuted)
    } else if is_keyword_line(line) {
        plain_style(Token::DiffAdded)
    } else {
        plain_style(Token::TextPrimary)
    }
}

impl<'a> ContainerfileWidget<'a> {
    /// Lay out the preview in `area`.
    pub fn layout(&self, area: Rect) -> (ops: Vec<DrawOp>)
        requires
            area_fits(area),
        ensures
            ops_view(ops@) == containerfile_ops(self.content()@, area),
    {
        let mut ops: Vec<DrawOp> = Vec::new();
        if area.height < 3 || area.width < 15 {
            assert(ops_view(ops@) =~= containerfile_ops(self.content()@, area));
            return ops;
        }
        let width = area.width as usize;
        ops.push(DrawOp::Text {
            x: area.x,
            y: area.y,
            text: truncate("Containerfile Preview", width),
            style: Style { token: Token::TextPrimary, bold: true, dim: false },
        });
        let mut sep = String::new();
        push_repeat(&mut sep, '\u{2500}', width);
        ops.push(DrawOp::Text { x: area.x, y: area.y + 1, text: sep, style: plain_style(Token::TextMuted) });
        let lines = lines_of(self.content);
        let ghost ls = string_views(lines@);
        let content_height = (area.height - 2) as usize;
        let shown = if lines.len() < content_height { lines.len() } else { content_height };
        let ghost head = ops_view(ops@);
        let mut row: usize = 0;
        while row < shown
            invariant
                area_fits(area),
                area.height >= 3,
                area.width >= 15,
                width == area.width as usize,
                ls == string_views(lines@),
                ls == lines_spec(self.content()@),
                shown <= lines@.len(),
                shown <= area.height - 2,
                0 <= row <= shown,
                ops_view(ops@) == head + content_rows(ls, area, row as nat),
            decreases shown - row,
        {
            assert(row < u16::MAX);
            let y = area.y + 2 + row as u16;
            assert(y == area.y + 2 + row);
            let ghost before = ops_view(ops@);
            let mut num = String::new();
            push_decimal_right(&mut num, row + 1, 3);
            push_str(&mut num, " ");
            let op_a = DrawOp::Text { x: area.x, y, text: num, style: plain_style(Token::TextMuted) };
            assert(op_a@ == text_op(area.x as int, area.y + 2 + row, pad_left(decimal((row + 1) as nat), 3) + " "@, plain(Token::TextMuted)));
            ops.push(op_a);
            let line = lines[row].as_str();
            let t = truncate(line, width - 4);
            let st = line_style_of(line);
            let op_b = DrawOp::Text { x: area.x + 4, y, text: t, style: st };
            assert(ls[row as int] == lines@[row as int]@);
            assert(op_b@ == text_op(area.x + 4, area.y + 2 + row, truncate_chars(ls[row as int], (area.width - 4) as nat), line_style(ls[row as int])));
            ops.push(op_b);
            proof {
                assert(ops_view(ops@) =~= before.push(op_a@).push(op_b@));
                assert(ops_view(ops@) =~= head + content_rows(ls, area, (row + 1) as nat));
            }
            row = row + 1;
        }
        assert(ops_view(ops@) =~= containerfile_ops(self.content()@, area));
        ops
    }
}

} // verus!
