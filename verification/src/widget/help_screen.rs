//! Fullscreen keybinding reference overlay.

use vstd::prelude::*;

use crate::pull_progress::{byte_length, lemma_byte_len_bounds};
use crate::text::{push_repeat, repeat_char};
use crate::widget::{ops_view, plain, plain_style, rect_bottom, rect_right, text_op, ColorTier, DrawOp, DrawOpView, Rect, Token};

verus! {

/// The help entries as (key, description) pairs. An empty pair is a blank
/// line; an empty description marks a section header.
pub open spec fn help_entries() -> Seq<(Seq<char>, Seq<char>)> {
    seq![
        ("j/k \u{2191}/\u{2193}"@, "Move cursor"@),
        ("h/l \u{2190}/\u{2192}"@, "Sidebar \u{2194} items"@),
        ("Tab"@, "Cycle focus"@),
        ("1-9"@, "Jump to section"@),
        ("{/}"@, "Prev/next group"@),
        ("g/G"@, "Top/bottom"@),
        ("Space"@, "Toggle included/excluded"@),
        ("Enter"@, "Open detail"@),
        ("Esc"@, "Close / back"@),
        ("f"@, "Fullscreen detail"@),
        ("n/p"@, "Next/prev in detail"@),
        ("u"@, "Undo"@),
        ("Ctrl+r"@, "Redo"@),
        ("c"@, "Containerfile toggle"@),
        ("/"@, "Search"@),
        (":"@, "Command mode"@),
        ("r"@, "Refresh"@),
        ("q"@, "Quit"@),
        (""@, ""@),
        ("Commands"@, ""@),
        (":export [path]"@, "Export tarball"@),
        (":section <name>"@, "Jump to section"@),
        (":stats"@, "Session statistics"@),
        (":undo / :redo"@, "Undo / redo"@),
        (":fresh"@, "Discard and restart"@),
        (""@, ""@),
        ("Indicators"@, ""@),
        ("[+]"@, "Included"@),
        ("[-]"@, "Excluded"@),
        ("[-L]"@, "Locked (cannot toggle)"@),
    ]
}

fn help_entry_list() -> (v: Vec<(&'static str, &'static str)>)
    ensures
        v@.map_values(|e: (&str, &str)| (e.0@, e.1@)) == help_entries(),
{
    let v = vec![
        ("j/k \u{2191}/\u{2193}", "Move cursor"),
        ("h/l \u{2190}/\u{2192}", "Sidebar \u{2194} items"),
        ("Tab", "Cycle focus"),
        ("1-9", "Jump to section"),
        ("{/}", "Prev/next group"),
        ("g/G", "Top/bottom"),
        ("Space", "Toggle included/excluded"),
        ("Enter", "Open detail"),
        ("Esc", "Close / back"),
        ("f", "Fullscreen detail"),
        ("n/p", "Next/prev in detail"),
        ("u", "Undo"),
        ("Ctrl+r", "Redo"),
        ("c", "Containerfile toggle"),
        ("/", "Search"),
        (":", "Command mode"),
        ("r", "Refresh"),
        ("q", "Quit"),
        ("", ""),
        ("Commands", ""),
        (":export [path]", "Export tarball"),
        (":section <name>", "Jump to section"),
        (":stats", "Session statistics"),
        (":undo / :redo", "Undo / redo"),
        (":fresh", "Discard and restart"),
        ("", ""),
        ("Indicators", ""),
        ("[+]", "Included"),
        ("[-]", "Excluded"),
        ("[-L]", "Locked (cannot toggle)"),
    ];
    assert(v@.map_values(|e: (&str, &str)| (e.0@, e.1@)) =~= help_entries());
    v
}

/// Width of the key column.
pub const KEY_COL_WIDTH: u16 = 18;

/// Fullscreen overlay showing the keybinding reference.
pub struct HelpScreenWidget {
    tier: ColorTier,
}

impl HelpScreenWidget {
    pub fn new(tier: ColorTier) -> (w: Self)
        ensures
            w.tier() == tier,
    {
        HelpScreenWidget { tier }
    }

    pub closed spec fn tier(&self) -> ColorTier {
        self.tier
    }
}

/// Last row that entries may use (exclusive): the footer row.
pub open spec fn entries_limit(area: Rect) -> int {
    if rect_bottom(area) >= 1 { rect_bottom(area) - 1 } else { 0 }
}

/// The operations of the entries from index `i` on, starting at row `y`,
/// and the row reached.
pub open spec fn help_rows(entries: Seq<(Seq<char>, Seq<char>)>, i: int, y: int, area: Rect) -> (Seq<DrawOpView>, int)
    decreases entries.len() - i,
{
    if i < 0 || i >= entries.len() || y >= entries_limit(area) {
        (Seq::empty(), y)
    } else {
        let key = entries[i].0;
        let desc = entries[i].1;
        let rest = help_rows(entries, i + 1, y + 1, area);
        if key.len() == 0 && desc.len() == 0 {
            rest
        } else if desc.len() == 0 {
            (seq![text_op(area.x + 2, y, key, plain(Token::Warning))] + rest.0, rest.1)
        } else {
            let desc_x = area.x + 2 + KEY_COL_WIDTH;
            (seq![text_op(area.x + 2, y, key, plain(Token::Warning))]
                + (if desc_x < rect_right(area) { seq![text_op(desc_x, y, desc, plain(Token::TextPrimary))] } else { Seq::empty() })
                + rest.0, rest.1)
        }
    }
}

pub open spec fn help_footer() -> Seq<char> {
    "Press ? or Esc to close"@
}

/// The drawing operations of the help overlay: clear the area, a title,
/// a separator, the entries that fit above the last row, and the footer
/// when there is room for it.
pub open spec fn help_screen_ops(area: Rect) -> Seq<DrawOpView> {
    let sep_width = if area.width >= 4 { area.width - 4 } else { 0 };
    let body = help_rows(help_entries(), 0, area.y + 3, area);
    let footer_y = entries_limit(area);
    seq![
        DrawOpView::Clear { area },
        text_op(area.x + 2, area.y + 1, " Keybindings "@, plain(Token::Warning)),
        text_op(area.x + 2, area.y + 2, repeat_char('\u{2500}', sep_width as nat), plain(Token::TextMuted)),
    ] + body.0 + (if footer_y > body.1 { seq![text_op(area.x + 2, footer_y, help_footer(), plain(Token::TextMuted))] } else { Seq::empty() })
}

/// Cell coordinates of the overlay stay within 16 bits.
pub open spec fn help_fits(area: Rect) -> bool {
    area.x + KEY_COL_WIDTH + 2 <= u16::MAX && area.y + 3 <= u16::MAX
}

impl HelpScreenWidget {
    /// Lay out the help overlay in `area`.
    pub fn layout(&self, area: Rect) -> (ops: Vec<DrawOp>)
        requires
            help_fits(area),
        ensures
            ops_view(ops@) == help_screen_ops(area),
    {
        let mut ops: Vec<DrawOp> = Vec::new();
        let clear = DrawOp::Clear { area };
        let title_x = area.x + 2;
        let title = DrawOp::Text { x: title_x, y: area.y + 1, text: " Keybindings ".to_owned(), style: plain_style(Token::Warning) };
        let sep_width = area.width.saturating_sub(4) as usize;
        let mut sep = String::new();
        push_repeat(&mut sep, '\u{2500}', sep_width);
        let sep_op = DrawOp::Text { x: title_x, y: area.y + 2, text: sep, style: plain_style(Token::TextMuted) };
        ops.push(clear);
        ops.push(title);
        ops.push(sep_op);
        let ghost head = ops_view(ops@);
        assert(head =~= seq![
            DrawOpView::Clear { area },
            text_op(area.x + 2, area.y + 1, " Keybindings "@, plain(Token::Warning)),
            text_op(area.x + 2, area.y + 2, repeat_char('\u{2500}', (if area.width >= 4 { area.width - 4 } else { 0 }) as nat), plain(Token::TextMuted)),
        ]);
        let entries = help_entry_list();
        let ghost ev = entries@.map_values(|e: (&str, &str)| (e.0@, e.1@));
        let limit = area.bottom().saturating_sub(1);
        let right = area.right();
        let mut y: u16 = area.y + 3;
        let mut i: usize = 0;
        while i < entries.len()
            invariant_except_break
                help_fits(area),
                ev == entries@.map_values(|e: (&str, &str)| (e.0@, e.1@)),
                ev == help_entries(),
                limit == entries_limit(area),
                right == rect_right(area),
                title_x == area.x + 2,
                0 <= i <= entries.len(),
                y <= u16::MAX,
                ops_view(ops@) + help_rows(ev, i as int, y as int, area).0 == head + help_rows(ev, 0, area.y + 3, area).0,
                help_rows(ev, i as int, y as int, area).1 == help_rows(ev, 0, area.y + 3, area).1,
            ensures
                ops_view(ops@) == head + help_rows(ev, 0, area.y + 3, area).0,
                y == help_rows(ev, 0, area.y + 3, area).1,
            decreases entries.len() - i,
        {
            if y >= limit {
                assert(help_rows(ev, i as int, y as int, area).0 =~= Seq::<DrawOpView>::empty());
                assert(ops_view(ops@) =~= ops_view(ops@) + help_rows(ev, i as int, y as int, area).0);
                break;
            }
            let ghost before = ops_view(ops@);
            let (key, desc) = entries[i];
            let ghost rest = help_rows(ev, i + 1, y + 1, area);
            let klen = byte_length(key);
            let dlen = byte_length(desc);
            proof {
                lemma_byte_len_bounds(key@);
                lemma_byte_len_bounds(desc@);
            }
            assert(ev[i as int] == (key@, desc@));
            if klen == 0 && dlen == 0 {
                // blank separator line
            } else if dlen == 0 {
                let op = DrawOp::Text { x: title_x, y, text: key.to_owned(), style: plain_style(Token::Warning) };
                ops.push(op);
                assert(ops_view(ops@) =~= before.push(op@));
                assert(ops_view(ops@) + rest.0 =~= before + help_rows(ev, i as int, y as int, area).0);
            } else {
                let op = DrawOp::Text { x: title_x, y, text: key.to_owned(), style: plain_style(Token::Warning) };
                ops.push(op);
                let desc_x = title_x + KEY_COL_WIDTH;
                if desc_x < right {
                    let op2 = DrawOp::Text { x: desc_x, y, text: desc.to_owned(), style: plain_style(Token::TextPrimary) };
                    ops.push(op2);
                    assert(ops_view(ops@) =~= before.push(op@).push(op2@));
                } else {
                    assert(ops_view(ops@) =~= before.push(op@));
                }
                assert(ops_view(ops@) + rest.0 =~= before + help_rows(ev, i as int, y as int, area).0);
            }
            y = y + 1;
            i = i + 1;
        }
        let ghost body = help_rows(ev, 0, area.y + 3, area);
        let footer_y = limit;
        let ghost mid = ops_view(ops@);
        if footer_y > y {
            let op = DrawOp::Text { x: title_x, y: footer_y, text: "Press ? or Esc to close".to_owned(), style: plain_style(Token::TextMuted) };
            ops.push(op);
            assert(ops_view(ops@) =~= mid.push(op@));
        } else {
            assert(ops_view(ops@) =~= mid + Seq::<DrawOpView>::empty());
        }
        assert(ops_view(ops@) =~= help_screen_ops(area));
        ops
    }
}

} // verus!
