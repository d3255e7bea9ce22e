//! Compact info bar: a separator, the selected item's name and its
//! key-value fields, shown below the item list.

use vstd::prelude::*;

use crate::pull_progress::{byte_len, byte_length, byte_prefix, byte_prefix_str, is_byte_boundary};
use crate::text::{push_repeat, push_str, repeat_char};
use crate::widget::{ops_view, plain, plain_style, rect_bottom, text_op, ColorTier, DrawOp, DrawOpView, Rect, Token};

verus! {

/// Data for the compact info bar.
pub struct InfoBarData {
    pub name: String,
    pub fields: Vec<(String, String)>,
}

/// Compact info bar widget.
pub struct InfoBarWidget<'a> {
    data: &'a InfoBarData,
    tier: ColorTier,
}

impl<'a> InfoBarWidget<'a> {
    /// An info bar showing `data`.
    pub fn new(data: &'a InfoBarData, tier: ColorTier) -> (w: Self)
        ensures
            *w.data() == *data,
            w.tier() == tier,
    {
        InfoBarWidget { data, tier }
    }

    pub closed spec fn data(&self) -> &'a InfoBarData {
        self.data
    }

    pub closed spec fn tier(&self) -> ColorTier {
        self.tier
    }
}

/// The abstract fields: (key, value) pairs of characters.
pub open spec fn field_views(fields: Seq<(String, String)>) -> Seq<(Seq<char>, Seq<char>)> {
    fields.map_values(|f: (String, String)| (f.0@, f.1@))
}

/// The label of a field: `"  {key}: "`.
pub open spec fn field_label(key: Seq<char>) -> Seq<char> {
    "  "@ + key + ": "@
}

/// The name as shown: cut to `width - 1` bytes when longer.
pub open spec fn shown_name(name: Seq<char>, width: int) -> Seq<char> {
    if byte_len(name) > width - 1 {
        byte_prefix(name, width - 1)
    } else {
        name
    }
}

/// Operations of the first `n` field rows.
pub open spec fn field_rows(fields: Seq<(Seq<char>, Seq<char>)>, area: Rect, n: nat) -> Seq<DrawOpView>
    decreases n,
{
    if n == 0 {
        Seq::empty()
    } else {
        let i = n - 1;
        let label = field_label(fields[i].0);
        field_rows(fields, area, (n - 1) as nat) + seq![
            text_op(area.x as int, area.y + 2 + i, label, plain(Token::TextMuted)),
            text_op(area.x + byte_len(label), area.y + 2 + i, fields[i].1, plain(Token::TextPrimary)),
        ]
    }
}

/// Number of field rows that fit below the name.
pub open spec fn fields_shown(count: nat, area: Rect) -> nat {
    let room = rect_bottom(area) - (area.y + 2);
    if room <= 0 {
        0
    } else if count < room {
        count
    } else {
        room as nat
    }
}

/// The drawing operations of the info bar: nothing under 2 rows or 20
/// columns; otherwise a separator, the name, and as many fields as fit.
pub open spec fn info_bar_ops(name: Seq<char>, fields: Seq<(Seq<char>, Seq<char>)>, area: Rect) -> Seq<DrawOpView> {
    if area.height < 2 || area.width < 20 {
        Seq::empty()
    } else {
        seq![
            text_op(area.x as int, area.y as int, repeat_char('\u{2500}', area.width as nat), plain(Token::TextMuted)),
            text_op(area.x + 1, area.y + 1, shown_name(name, area.width as int), plain(Token::TextPrimary)),
        ] + field_rows(fields, area, fields_shown(fields.len(), area))
    }
}

/// What the info bar needs to draw without panicking: cell coordinates
/// within 16 bits, the name cut on a character boundary, and field labels
/// whose end column fits.
pub open spec fn info_bar_fits(name: Seq<char>, fields: Seq<(Seq<char>, Seq<char>)>, area: Rect) -> bool {
    &&& area.x + area.width <= u16::MAX
    &&& area.y + area.height <= u16::MAX
    &&& (byte_len(name) > area.width - 1 ==> is_byte_boundary(name, area.width - 1))
    &&& forall|i: int| 0 <= i < fields.len() ==> area.x + #[trigger] byte_len(field_label(fields[i].0)) <= u16::MAX
}

impl<'a> InfoBarWidget<'a> {
    /// Lay out the info bar in `area`.
    pub fn layout(&self, area: Rect) -> (ops: Vec<DrawOp>)
        requires
            info_bar_fits(self.data().name@, field_views(self.data().fields@), area),
        ensures
            ops_view(ops@) == info_bar_ops(self.data().name@, field_views(self.data().fields@), area),
    {
        let mut ops: Vec<DrawOp> = Vec::new();
        let ghost fv = field_views(self.data.fields@);
        if area.height < 2 || area.width < 20 {
            assert(ops_view(ops@) =~= info_bar_ops(self.data.name@, fv, area));
            return ops;
        }
        let width = area.width as usize;
        let mut sep = String::new();
        push_repeat(&mut sep, '\u{2500}', width);
        let sep_op = DrawOp::Text { x: area.x, y: area.y, text: sep, style: plain_style(Token::TextMuted) };
        ops.push(sep_op);
        let name = self.data.name.as_str();
        let name_len = byte_length(name);
        let shown: &str = if name_len > width - 1 {
            byte_prefix_str(name, width - 1)
        } else {
            name
        };
        let name_op = DrawOp::Text { x: area.x + 1, y: area.y + 1, text: shown.to_owned(), style: plain_style(Token::TextPrimary) };
        assert(name_op@ == text_op(area.x + 1, area.y + 1, shown_name(name@, area.width as int), plain(Token::TextPrimary)));
        ops.push(name_op);
        let ghost head = ops_view(ops@);
        assert(head =~= seq![sep_op@, name_op@]);
        let bottom = area.bottom();
        let fields = &self.data.fields;
        let mut i: usize = 0;
        while i < fields.len()
            invariant_except_break
                area.x + area.width <= u16::MAX,
                area.y + area.height <= u16::MAX,
                area.height >= 2,
                bottom == rect_bottom(area),
                fv == field_views(fields@),
                forall|j: int| 0 <= j < fv.len() ==> area.x + #[trigger] byte_len(field_label(fv[j].0)) <= u16::MAX,
                0 <= i <= fields.len(),
                area.y + 2 + i <= bottom,
                ops_view(ops@) == head + field_rows(fv, area, i as nat),
            ensures
                ops_view(ops@) == head + field_rows(fv, area, fields_shown(fv.len(), area)),
            decreases fields.len() - i,
        {
            let row_y = area.y + 2 + i as u16;
            if row_y >= bottom {
                break;
            }
            let ghost before = ops_view(ops@);
            let key = fields[i].0.as_str();
            let value = fields[i].1.as_str();
            let mut label = String::new();
            push_str(&mut label, "  ");
            push_str(&mut label, key);
            push_str(&mut label, ": ");
            assert(label@ == field_label(fv[i as int].0));
            let label_len = byte_length(label.as_str());
            assert(area.x + label_len <= u16::MAX);
            let vx = area.x + label_len as u16;
            let op_a = DrawOp::Text { x: area.x, y: row_y, text: label, style: plain_style(Token::TextMuted) };
            let op_b = DrawOp::Text { x: vx, y: row_y, text: value.to_owned(), style: plain_style(Token::TextPrimary) };
            ops.push(op_a);
            ops.push(op_b);
            proof {
                assert(ops_view(ops@) =~= before.push(op_a@).push(op_b@));
                assert(ops_view(ops@) =~= head + field_rows(fv, area, (i + 1) as nat));
            }
            i = i + 1;
        }
        assert(ops_view(ops@) =~= info_bar_ops(self.data.name@, fv, area));
        ops
    }
}

} // verus!
