//! Cross-section search: the matching over the session's searchable
//! names, the per-section tally, and the search overlay.

use vstd::prelude::*;

use crate::pull_progress::{byte_len, byte_length, byte_prefix, byte_prefix_str, is_byte_boundary};
use crate::sections::{section_index_of, section_order_spec};
use crate::text::{chars_of, contains_seq, contains_vec, decimal, join_seq, push_decimal, push_repeat, push_str, repeat_char};
use crate::tui_types::{section_label, SectionId};
use crate::widget::{ops_view, plain, plain_style, rect_bottom, text_op, ColorTier, DrawOp, DrawOpView, Rect, Token};

verus! {

/// A single search hit: the section it belongs to, the name shown, and a
/// short note on what kind of item it is (empty for most sections).
#[derive(Debug, Clone)]
pub struct SearchResult {
    pub section_id: SectionId,
    pub name: String,
    pub match_context: String,
}

/// The abstract value of a hit.
pub open spec fn hit_view(r: SearchResult) -> (SectionId, Seq<char>, Seq<char>) {
    (r.section_id, r.name@, r.match_context@)
}

pub open spec fn hits_view(rs: Seq<SearchResult>) -> Seq<(SectionId, Seq<char>, Seq<char>)> {
    rs.map_values(|r: SearchResult| hit_view(r))
}

/// What `str::to_lowercase` returns for a string: its characters mapped
/// by Unicode's lowercase rules (a character may become several).
pub uninterp spec fn lowercase(s: Seq<char>) -> Seq<char>;

/// `str::to_lowercase`: the string with every character lowercased by
/// Unicode's rules. The result depends on the argument alone; the rules
/// themselves are not restated here.
#[verifier::external_body]
pub(crate) fn to_lower(s: &str) -> (r: String)
    ensures
        r@ == lowercase(s@),
{
    s.to_lowercase()
}

/// Whether a lowercased label contains the lowercased query.
pub fn matches_query(label_lower: &str, query_lower: &str) -> (b: bool)
    ensures
        b == contains_seq(label_lower@, query_lower@),
{
    let h = chars_of(label_lower);
    let n = chars_of(query_lower);
    contains_vec(&h, &n)
}

/// The searchable names of a session, by section: package `name.arch`
/// labels, config paths, service units, drop-in units, quadlet names,
/// flatpak app ids, sysctl keys, user names, and the keys of the reference
/// sections that are searched.
pub struct SearchCorpus {
    pub packages: Vec<(String, String)>,
    pub configs: Vec<String>,
    pub services: Vec<String>,
    pub dropins: Vec<String>,
    pub quadlets: Vec<String>,
    pub flatpaks: Vec<String>,
    pub sysctls: Vec<String>,
    pub users: Vec<String>,
    pub scheduled_tasks: Vec<String>,
    pub non_rpm_software: Vec<String>,
    pub selinux: Vec<String>,
}

/// The hits among `names`: each name whose lowercase form contains `q`
/// (already lowercased), in order, tagged with the section and context.
pub open spec fn hits(names: Seq<Seq<char>>, q: Seq<char>, sid: SectionId, ctx: Seq<char>) -> Seq<(SectionId, Seq<char>, Seq<char>)>
    decreases names.len(),
{
    if names.len() == 0 {
        Seq::empty()
    } else {
        hits(names.drop_last(), q, sid, ctx) + (if contains_seq(lowercase(names.last()), q) {
            seq![(sid, names.last(), ctx)]
        } else {
            Seq::empty()
        })
    }
}

/// Package labels: `"{name}.{arch}"`.
pub open spec fn package_labels(pkgs: Seq<(String, String)>) -> Seq<Seq<char>> {
    pkgs.map_values(|p: (String, String)| p.0@ + "."@ + p.1@)
}

/// All hits of a query, section by section: packages, configs, services
/// (units, then drop-ins), containers (quadlets, then flatpaks), sysctls,
/// users, then the reference sections.
pub open spec fn search_spec(c: SearchCorpus, query: Seq<char>) -> Seq<(SectionId, Seq<char>, Seq<char>)> {
    if query.len() == 0 {
        Seq::empty()
    } else {
        let q = lowercase(query);
        hits(package_labels(c.packages@), q, SectionId::Packages, Seq::empty())
            + hits(crate::text::string_views(c.configs@), q, SectionId::Configs, Seq::empty())
            + hits(crate::text::string_views(c.services@), q, SectionId::Services, Seq::empty())
            + hits(crate::text::string_views(c.dropins@), q, SectionId::Services, "drop-in"@)
            + hits(crate::text::string_views(c.quadlets@), q, SectionId::Containers, "quadlet"@)
            + hits(crate::text::string_views(c.flatpaks@), q, SectionId::Containers, "flatpak"@)
            + hits(crate::text::string_views(c.sysctls@), q, SectionId::Sysctls, Seq::empty())
            + hits(crate::text::string_views(c.users@), q, SectionId::Users, Seq::empty())
            + hits(crate::text::string_views(c.scheduled_tasks@), q, SectionId::ScheduledTasks, Seq::empty())
            + hits(crate::text::string_views(c.non_rpm_software@), q, SectionId::NonRpmSoftware, Seq::empty())
            + hits(crate::text::string_views(c.selinux@), q, SectionId::SELinux, Seq::empty())
    }
}

/// Appends the hits among `names` to `out`.
fn search_names(names: &Vec<String>, q: &str, sid: SectionId, ctx: &str, out: &mut Vec<SearchResult>)
    ensures
        hits_view(final(out)@) == hits_view(old(out)@) + hits(crate::text::string_views(names@), q@, sid, ctx@),
{
    let ghost start = hits_view(out@);
    let ghost nv = crate::text::string_views(names@);
    let mut i: usize = 0;
    while i < names.len()
        invariant
            0 <= i <= names@.len(),
            nv == crate::text::string_views(names@),
            hits_view(out@) == start + hits(nv.take(i as int), q@, sid, ctx@),
        decreases names@.len() - i,
    {
        let ghost before = hits_view(out@);
        let lower = to_lower(names[i].as_str());
        proof {
            assert(nv.take(i + 1).drop_last() =~= nv.take(i as int));
            assert(nv.take(i + 1).last() == names@[i as int]@);
        }
        if matches_query(lower.as_str(), q) {
            let r = SearchResult { section_id: sid, name: names[i].clone(), match_context: ctx.to_owned() };
            assert(r.name@ == names@[i as int]@);
            out.push(r);
            assert(hits_view(out@) =~= before.push(hit_view(r)));
        }
        assert(hits_view(out@) =~= start + hits(nv.take(i + 1), q@, sid, ctx@));
        i = i + 1;
    }
    assert(nv.take(names@.len() as int) =~= nv);
}

/// Cross-section, case-insensitive substring search over the corpus.
/// An empty query finds nothing.
pub fn search_all_sections(corpus: &SearchCorpus, query: &str) -> (v: Vec<SearchResult>)
    ensures
        hits_view(v@) == search_spec(*corpus, query@),
{
    let mut out: Vec<SearchResult> = Vec::new();
    let qlen = byte_length(query);
    proof { crate::pull_progress::lemma_byte_len_bounds(query@); }
    if qlen == 0 {
        assert(hits_view(out@) =~= search_spec(*corpus, query@));
        return out;
    }
    let q = to_lower(query);
    let mut labels: Vec<String> = Vec::new();
    let mut i: usize = 0;
    while i < corpus.packages.len()
        invariant
            0 <= i <= corpus.packages@.len(),
            crate::text::string_views(labels@) == package_labels(corpus.packages@).take(i as int),
        decreases corpus.packages@.len() - i,
    {
        let mut l = String::new();
        push_str(&mut l, corpus.packages[i].0.as_str());
        push_str(&mut l, ".");
        push_str(&mut l, corpus.packages[i].1.as_str());
        assert(package_labels(corpus.packages@)[i as int] == l@);
        let ghost prev = labels@;
        labels.push(l);
        assert(labels@ == prev.push(l));
        assert(crate::text::string_views(labels@) =~= crate::text::string_views(prev).push(l@));
        assert(package_labels(corpus.packages@).take(i + 1) =~= package_labels(corpus.packages@).take(i as int).push(l@));
        assert(crate::text::string_views(labels@) =~= package_labels(corpus.packages@).take(i + 1));
        i = i + 1;
    }
    assert(package_labels(corpus.packages@).take(corpus.packages@.len() as int) =~= package_labels(corpus.packages@));
    let e = "";
    proof { reveal_strlit(""); }
    assert(e@ =~= Seq::<char>::empty());
    assert(crate::text::string_views(labels@) =~= package_labels(corpus.packages@));
    search_names(&labels, q.as_str(), SectionId::Packages, e, &mut out);
    search_names(&corpus.configs, q.as_str(), SectionId::Configs, e, &mut out);
    search_names(&corpus.services, q.as_str(), SectionId::Services, e, &mut out);
    search_names(&corpus.dropins, q.as_str(), SectionId::Services, "drop-in", &mut out);
    search_names(&corpus.quadlets, q.as_str(), SectionId::Containers, "quadlet", &mut out);
    search_names(&corpus.flatpaks, q.as_str(), SectionId::Containers, "flatpak", &mut out);
    search_names(&corpus.sysctls, q.as_str(), SectionId::Sysctls, e, &mut out);
    search_names(&corpus.users, q.as_str(), SectionId::Users, e, &mut out);
    search_names(&corpus.scheduled_tasks, q.as_str(), SectionId::ScheduledTasks, e, &mut out);
    search_names(&corpus.non_rpm_software, q.as_str(), SectionId::NonRpmSoftware, e, &mut out);
    search_names(&corpus.selinux, q.as_str(), SectionId::SELinux, e, &mut out);
    proof { reveal_strlit(""); }
    assert(hits_view(out@) =~= search_spec(*corpus, query@));
    out
}

/// Number of results in section `id`.
pub open spec fn count_section(ids: Seq<SectionId>, id: SectionId) -> nat
    decreases ids.len(),
{
    if ids.len() == 0 {
        0
    } else {
        count_section(ids.drop_last(), id) + (if ids.last() == id { 1nat } else { 0nat })
    }
}

/// Per-section tallies over the first `k` sections of the sidebar order,
/// leaving out sections without results.
pub open spec fn counts_upto(ids: Seq<SectionId>, k: nat) -> Seq<(SectionId, usize)>
    decreases k,
{
    if k == 0 {
        Seq::empty()
    } else {
        let id = section_order_spec()[k - 1];
        let c = count_section(ids, id);
        counts_upto(ids, (k - 1) as nat) + (if c > 0 { seq![(id, c as usize)] } else { Seq::empty() })
    }
}

/// Results tallied by section, in sidebar order.
pub open spec fn section_counts_spec(ids: Seq<SectionId>) -> Seq<(SectionId, usize)> {
    counts_upto(ids, 14)
}

pub open spec fn result_ids(rs: Seq<SearchResult>) -> Seq<SectionId> {
    rs.map_values(|r: SearchResult| r.section_id)
}

/// Position of a section in the sidebar order.
pub(crate) fn section_position(id: SectionId) -> (i: usize)
    ensures
        i < 14,
        section_order_spec()[i as int] == id,
        i == section_index_of(id),
{
    match id {
        SectionId::Packages => 0,
        SectionId::VerChanges => 1,
        SectionId::Configs => 2,
        SectionId::Sysctls => 3,
        SectionId::Tuned => 4,
        SectionId::KernelBoot => 5,
        SectionId::SELinux => 6,
        SectionId::Services => 7,
        SectionId::Containers => 8,
        SectionId::ScheduledTasks => 9,
        SectionId::Users => 10,
        SectionId::Network => 11,
        SectionId::Storage => 12,
        SectionId::NonRpmSoftware => 13,
    }
}

pub(crate) fn section_at(i: usize) -> (id: SectionId)
    requires
        i < 14,
    ensures
        id == section_order_spec()[i as int],
{
    match i {
        0 => SectionId::Packages,
        1 => SectionId::VerChanges,
        2 => SectionId::Configs,
        3 => SectionId::Sysctls,
        4 => SectionId::Tuned,
        5 => SectionId::KernelBoot,
        6 => SectionId::SELinux,
        7 => SectionId::Services,
        8 => SectionId::Containers,
        9 => SectionId::ScheduledTasks,
        10 => SectionId::Users,
        11 => SectionId::Network,
        12 => SectionId::Storage,
        _ => SectionId::NonRpmSoftware,
    }
}

proof fn lemma_count_section_le(ids: Seq<SectionId>, id: SectionId)
    ensures
        count_section(ids, id) <= ids.len(),
    decreases ids.len(),
{
    if ids.len() > 0 {
        lemma_count_section_le(ids.drop_last(), id);
    }
}

/// Count results grouped by section, in sidebar order, for the overlay's
/// attribution line.
pub fn section_counts(results: &[SearchResult]) -> (v: Vec<(SectionId, usize)>)
    ensures
        v@ == section_counts_spec(result_ids(results@)),
{
    let ghost ids = result_ids(results@);
    let mut counts: Vec<usize> = vec![0, 0, 0, 0, 0, 0, 0, 0, 0, 0, 0, 0, 0, 0];
    let mut i: usize = 0;
    while i < results.len()
        invariant
            0 <= i <= results@.len(),
            ids == result_ids(results@),
            counts@.len() == 14,
            forall|j: int| 0 <= j < 14 ==> #[trigger] counts@[j] == count_section(ids.take(i as int), section_order_spec()[j]),
        decreases results@.len() - i,
    {
        let p = section_position(results[i].section_id);
        proof {
            assert(ids.take(i + 1).drop_last() =~= ids.take(i as int));
            lemma_count_section_le(ids.take(i as int), section_order_spec()[p as int]);
        }
        let c = counts[p];
        counts.set(p, c + 1);
        proof {
            assert forall|j: int| 0 <= j < 14 implies #[trigger] counts@[j] == count_section(ids.take(i + 1), section_order_spec()[j]) by {
                assert(ids.take(i + 1).drop_last() =~= ids.take(i as int));
                assert(ids.take(i + 1).last() == results@[i as int].section_id);
                if j != p {
                    assert(section_order_spec()[j] != section_order_spec()[p as int]);
                }
            }
        }
        i = i + 1;
    }
    assert(ids.take(results@.len() as int) =~= ids);
    let mut v: Vec<(SectionId, usize)> = Vec::new();
    let mut k: usize = 0;
    while k < 14
        invariant
            0 <= k <= 14,
            counts@.len() == 14,
            forall|j: int| 0 <= j < 14 ==> #[trigger] counts@[j] == count_section(ids, section_order_spec()[j]),
            v@ == counts_upto(ids, k as nat),
        decreases 14 - k,
    {
        let c = counts[k];
        if c > 0 {
            v.push((section_at(k), c));
        }
        assert(v@ =~= counts_upto(ids, (k + 1) as nat));
        k = k + 1;
    }
    v
}

/// Widget that renders the search overlay.
pub struct SearchWidget<'a> {
    query: &'a str,
    results: &'a [SearchResult],
    selected: usize,
    tier: ColorTier,
}

impl<'a> SearchWidget<'a> {
    pub fn new(query: &'a str, results: &'a [SearchResult], selected: usize, tier: ColorTier) -> (w: Self)
        ensures
            w.query() == query@,
            w.results() == results@,
            w.selected() == selected,
            w.tier() == tier,
    {
        SearchWidget { query, results, selected, tier }
    }

    pub closed spec fn query(&self) -> Seq<char> {
        self.query@
    }

    pub closed spec fn results(&self) -> Seq<SearchResult> {
        self.results@
    }

    pub closed spec fn selected(&self) -> usize {
        self.selected
    }

    pub closed spec fn tier(&self) -> ColorTier {
        self.tier
    }
}

/// `s` cut to its first `n` bytes when longer (`&s[..n]`).
pub open spec fn cut_to(s: Seq<char>, n: int) -> Seq<char> {
    if byte_len(s) > n { byte_prefix(s, n) } else { s }
}

pub open spec fn sat_sub(a: int, b: int) -> int {
    if a >= b { a - b } else { 0 }
}

/// One part of the attribution line: `"{n} {label}"`.
pub open spec fn count_part(c: (SectionId, usize)) -> Seq<char> {
    decimal(c.1 as nat) + " "@ + section_label(c.0)
}

/// The attribution line: `"{total} matches: {parts joined by ", "}"`.
pub open spec fn summary_text(results: Seq<SearchResult>) -> Seq<char> {
    decimal(results.len()) + " matches: "@ + join_seq(section_counts_spec(result_ids(results)).map_values(|c: (SectionId, usize)| count_part(c)), ", "@)
}

/// The line of one result: `"[{label}] {name}"`, then `" ({context})"`
/// when there is a context.
pub open spec fn result_line(r: SearchResult) -> Seq<char> {
    "["@ + section_label(r.section_id) + "] "@ + r.name@ + (if r.match_context@.len() == 0 { Seq::empty() } else { " ("@ + r.match_context@ + ")"@ })
}

/// Operations of the results from index `i` on, the first at row `y`.
pub open spec fn result_rows(results: Seq<SearchResult>, i: int, y: int, selected: int, area: Rect) -> Seq<DrawOpView>
    decreases results.len() - i,
{
    if i < 0 || i >= results.len() || y >= rect_bottom(area) {
        Seq::empty()
    } else {
        let style = if i == selected { plain(Token::FocusSelected) } else { plain(Token::TextPrimary) };
        seq![text_op(area.x + 1, y, cut_to(result_line(results[i]), area.width - 1), style)]
            + result_rows(results, i + 1, y + 1, selected, area)
    }
}

/// The drawing operations of the search overlay.
pub open spec fn search_ops(query: Seq<char>, results: Seq<SearchResult>, selected: int, area: Rect) -> Seq<DrawOpView> {
    if area.height < 4 || area.width < 20 {
        Seq::empty()
    } else {
        let w = area.width as int;
        let prompt = "/ "@ + query;
        let cursor_x = area.x + (if byte_len(prompt) < w - 1 { byte_len(prompt) as int } else { w - 1 });
        let count_line = if results.len() == 0 && query.len() > 0 {
            seq![text_op(area.x + 1, area.y + 1, "No matches"@, plain(Token::TextMuted))]
        } else if results.len() > 0 {
            seq![text_op(area.x + 1, area.y + 1, cut_to(summary_text(results), w - 1), plain(Token::TextMuted))]
        } else {
            Seq::empty()
        };
        seq![
            DrawOpView::Clear { area },
            text_op(area.x as int, area.y as int, cut_to(prompt, w), plain(Token::Warning)),
            text_op(cursor_x, area.y as int, "_"@, plain(Token::Warning)),
        ] + count_line + seq![text_op(area.x as int, area.y + 2, repeat_char('\u{2500}', area.width as nat), plain(Token::TextMuted))]
            + result_rows(results, 0, area.y + 3, selected, area)
    }
}

/// What drawing needs: coordinates within 16 bits and each cut on a
/// character boundary.
pub open spec fn search_fits(query: Seq<char>, results: Seq<SearchResult>, area: Rect) -> bool {
    let w = area.width as int;
    &&& area.x + area.width <= u16::MAX
    &&& area.y + area.height <= u16::MAX
    &&& (byte_len("/ "@ + query) > w ==> is_byte_boundary("/ "@ + query, w))
    &&& (results.len() > 0 && byte_len(summary_text(results)) > w - 1 ==> is_byte_boundary(summary_text(results), w - 1))
    &&& forall|i: int| 0 <= i < results.len() && byte_len(result_line(#[trigger] results[i])) > w - 1
        ==> is_byte_boundary(result_line(results[i]), w - 1)
}

fn summary_line(results: &[SearchResult]) -> (s: String)
    ensures
        s@ == summary_text(results@),
{
    let counts = section_counts(results);
    let mut s = String::new();
    push_decimal(&mut s, results.len());
    push_str(&mut s, " matches: ");
    let ghost parts = counts@.map_values(|c: (SectionId, usize)| count_part(c));
    let mut joined = String::new();
    let mut k: usize = 0;
    while k < counts.len()
        invariant
            0 <= k <= counts@.len(),
            parts == counts@.map_values(|c: (SectionId, usize)| count_part(c)),
            joined@ == join_seq(parts.take(k as int), ", "@),
        decreases counts@.len() - k,
    {
        let ghost prev = parts.take(k as int);
        if k > 0 {
            push_str(&mut joined, ", ");
        }
        let (sid, n) = counts[k];
        push_decimal(&mut joined, n);
        push_str(&mut joined, " ");
        push_str(&mut joined, sid.label());
        proof {
            assert(parts.take(k + 1).drop_last() =~= prev);
            assert(parts[k as int] == count_part(counts@[k as int]));
            if k == 0 {
                assert(parts.take(1) =~= seq![parts[0]]);
            }
        }
        k = k + 1;
    }
    assert(parts.take(counts@.len() as int) =~= parts);
    push_str(&mut s, joined.as_str());
    s
}

fn result_text(r: &SearchResult) -> (s: String)
    ensures
        s@ == result_line(*r),
{
    let mut s = String::new();
    push_str(&mut s, "[");
    push_str(&mut s, r.section_id.label());
    push_str(&mut s, "] ");
    push_str(&mut s, r.name.as_str());
    if byte_length(r.match_context.as_str()) > 0 {
        push_str(&mut s, " (");
        push_str(&mut s, r.match_context.as_str());
        push_str(&mut s, ")");
        proof { crate::pull_progress::lemma_byte_len_bounds(r.match_context@); }
    } else {
        proof { crate::pull_progress::lemma_byte_len_bounds(r.match_context@); }
        assert(s@ =~= result_line(*r));
    }
    s
}

impl<'a> SearchWidget<'a> {
    /// Lay out the search overlay in `area`.
    pub fn layout(&self, area: Rect) -> (ops: Vec<DrawOp>)
        requires
            search_fits(self.query(), self.results(), area),
        ensures
            ops_view(ops@) == search_ops(self.query(), self.results(), self.selected() as int, area),
    {
        let mut ops: Vec<DrawOp> = Vec::new();
        let ghost q = self.query@;
        let ghost rs = self.results@;
        if area.height < 4 || area.width < 20 {
            assert(ops_view(ops@) =~= search_ops(q, rs, self.selected as int, area));
            return ops;
        }
        let w = area.width as usize;
        let mut prompt = String::new();
        push_str(&mut prompt, "/ ");
        push_str(&mut prompt, self.query);
        let plen = byte_length(prompt.as_str());
        let shown: &str = if plen > w { byte_prefix_str(prompt.as_str(), w) } else { prompt.as_str() };
        let op_clear = DrawOp::Clear { area };
        let op_prompt = DrawOp::Text { x: area.x, y: area.y, text: shown.to_owned(), style: plain_style(Token::Warning) };
        let cx = if plen < w - 1 { plen } else { w - 1 };
        let op_cursor = DrawOp::Text { x: area.x + cx as u16, y: area.y, text: "_".to_owned(), style: plain_style(Token::Warning) };
        ops.push(op_clear);
        ops.push(op_prompt);
        ops.push(op_cursor);
        let ghost head = ops_view(ops@);
        assert(head =~= seq![op_clear@, op_prompt@, op_cursor@]);
        let total = self.results.len();
        let qlen = byte_length(self.query);
        proof { crate::pull_progress::lemma_byte_len_bounds(q); }
        if total == 0 && qlen > 0 {
            let op = DrawOp::Text { x: area.x + 1, y: area.y + 1, text: "No matches".to_owned(), style: plain_style(Token::TextMuted) };
            ops.push(op);
            assert(ops_view(ops@) =~= head.push(op@));
        } else if total > 0 {
            let summary = summary_line(self.results);
            let shown_s: &str = if byte_length(summary.as_str()) > w - 1 { byte_prefix_str(summary.as_str(), w - 1) } else { summary.as_str() };
            let op = DrawOp::Text { x: area.x + 1, y: area.y + 1, text: shown_s.to_owned(), style: plain_style(Token::TextMuted) };
            ops.push(op);
            assert(ops_view(ops@) =~= head.push(op@));
        } else {
            assert(ops_view(ops@) =~= head + Seq::<DrawOpView>::empty());
        }
        let ghost mid = ops_view(ops@);
        let mut sep = String::new();
        push_repeat(&mut sep, '\u{2500}', w);
        let op_sep = DrawOp::Text { x: area.x, y: area.y + 2, text: sep, style: plain_style(Token::TextMuted) };
        ops.push(op_sep);
        let ghost head2 = ops_view(ops@);
        assert(head2 =~= mid.push(op_sep@));
        let ghost rows = result_rows(rs, 0, area.y + 3, self.selected as int, area);
        let bottom = area.bottom();
        let mut row: u16 = area.y + 3;
        let mut i: usize = 0;
        while i < total
            invariant_except_break
                search_fits(q, rs, area),
                rs == self.results@,
                total == rs.len(),
                w == area.width as usize,
                area.width >= 20,
                bottom == rect_bottom(area),
                0 <= i <= total,
                row == area.y + 3 + i,
                row <= bottom,
                ops_view(ops@) + result_rows(rs, i as int, row as int, self.selected as int, area) == head2 + rows,
            ensures
                ops_view(ops@) == head2 + rows,
            decreases total - i,
        {
            if row >= bottom {
                assert(result_rows(rs, i as int, row as int, self.selected as int, area) =~= Seq::<DrawOpView>::empty());
                assert(ops_view(ops@) =~= ops_view(ops@) + Seq::<DrawOpView>::empty());
                break;
            }
            let ghost before = ops_view(ops@);
            let r = &self.results[i];
            let line = result_text(r);
            let shown_l: &str = if byte_length(line.as_str()) > w - 1 { byte_prefix_str(line.as_str(), w - 1) } else { line.as_str() };
            let style = if i == self.selected { plain_style(Token::FocusSelected) } else { plain_style(Token::TextPrimary) };
            let op = DrawOp::Text { x: area.x + 1, y: row, text: shown_l.to_owned(), style };
            ops.push(op);
            assert(ops_view(ops@) =~= before.push(op@));
            row = row + 1;
            i = i + 1;
        }
        assert(ops_view(ops@) =~= search_ops(q, rs, self.selected as int, area));
        ops
    }
}

/// The position of a section in the order search lists its hits:
/// packages, configs, services, containers, sysctls, users, scheduled
/// tasks, non-RPM software, SELinux.
pub open spec fn search_rank(sid: SectionId) -> int {
    match sid {
        SectionId::Packages => 0,
        SectionId::Configs => 1,
        SectionId::Services => 2,
        SectionId::Containers => 3,
        SectionId::Sysctls => 4,
        SectionId::Users => 5,
        SectionId::ScheduledTasks => 6,
        SectionId::NonRpmSoftware => 7,
        SectionId::SELinux => 8,
        _ => 9,
    }
}

/// Every hit's name contains `q` once lowercased, and its rank is at most `r`.
pub open spec fn hits_match(hs: Seq<(SectionId, Seq<char>, Seq<char>)>, q: Seq<char>, r: int) -> bool {
    forall|k: int| 0 <= k < hs.len() ==> contains_seq(lowercase((#[trigger] hs[k]).1), q) && search_rank(hs[k].0) <= r
}

/// Hits come in non-decreasing rank.
pub open spec fn hits_in_order(hs: Seq<(SectionId, Seq<char>, Seq<char>)>) -> bool {
    forall|j: int, k: int| 0 <= j < k < hs.len() ==> search_rank(#[trigger] hs[j].0) <= search_rank(#[trigger] hs[k].0)
}

proof fn lemma_hits(names: Seq<Seq<char>>, q: Seq<char>, sid: SectionId, ctx: Seq<char>)
    ensures
        forall|k: int| 0 <= k < hits(names, q, sid, ctx).len() ==> (#[trigger] hits(names, q, sid, ctx)[k]).0 == sid
            && contains_seq(lowercase(hits(names, q, sid, ctx)[k].1), q),
    decreases names.len(),
{
    if names.len() > 0 {
        lemma_hits(names.drop_last(), q, sid, ctx);
        let h0 = hits(names.drop_last(), q, sid, ctx);
        let h = hits(names, q, sid, ctx);
        assert forall|k: int| 0 <= k < h.len() implies (#[trigger] h[k]).0 == sid && contains_seq(lowercase(h[k].1), q) by {
            if k < h0.len() {
                assert(h[k] == h0[k]);
            }
        }
    }
}

proof fn lemma_hits_append(acc: Seq<(SectionId, Seq<char>, Seq<char>)>, names: Seq<Seq<char>>, q: Seq<char>, sid: SectionId, ctx: Seq<char>)
    requires
        hits_in_order(acc),
        hits_match(acc, q, search_rank(sid)),
    ensures
        hits_in_order(acc + hits(names, q, sid, ctx)),
        hits_match(acc + hits(names, q, sid, ctx), q, search_rank(sid)),
{
    lemma_hits(names, q, sid, ctx);
    let b = hits(names, q, sid, ctx);
    let c = acc + b;
    assert forall|k: int| 0 <= k < c.len() implies contains_seq(lowercase((#[trigger] c[k]).1), q) && search_rank(c[k].0) <= search_rank(sid) by {
        if k < acc.len() {
            assert(c[k] == acc[k]);
        } else {
            assert(c[k] == b[k - acc.len()]);
        }
    }
    assert forall|j: int, k: int| 0 <= j < k < c.len() implies search_rank(#[trigger] c[j].0) <= search_rank(#[trigger] c[k].0) by {
        if k < acc.len() {
            assert(c[j] == acc[j] && c[k] == acc[k]);
        } else if j >= acc.len() {
            assert(c[j] == b[j - acc.len()] && c[k] == b[k - acc.len()]);
        } else {
            assert(c[j] == acc[j] && c[k] == b[k - acc.len()]);
            assert(contains_seq(lowercase(acc[j].1), q) && search_rank(acc[j].0) <= search_rank(sid));
            assert(b[k - acc.len()].0 == sid);
        }
    }
}

/// Search is case-insensitive substring matching: an empty query finds
/// nothing, every hit's name contains the query once both are lowercased,
/// and hits come section by section in the search order.
pub proof fn law_search_hits(c: SearchCorpus, query: Seq<char>)
    ensures
        query.len() == 0 ==> search_spec(c, query).len() == 0,
        forall|k: int| 0 <= k < search_spec(c, query).len() ==> contains_seq(lowercase(#[trigger] search_spec(c, query)[k].1), lowercase(query)),
        forall|j: int, k: int| 0 <= j < k < search_spec(c, query).len()
            ==> search_rank(#[trigger] search_spec(c, query)[j].0) <= search_rank(#[trigger] search_spec(c, query)[k].0),
{
    if query.len() > 0 {
        let q = lowercase(query);
        let e: Seq<(SectionId, Seq<char>, Seq<char>)> = Seq::empty();
        let a0 = e + hits(package_labels(c.packages@), q, SectionId::Packages, Seq::empty());
        lemma_hits_append(e, package_labels(c.packages@), q, SectionId::Packages, Seq::empty());
        assert(a0 =~= hits(package_labels(c.packages@), q, SectionId::Packages, Seq::empty()));
        lemma_hits_append(a0, crate::text::string_views(c.configs@), q, SectionId::Configs, Seq::empty());
        let a1 = a0 + hits(crate::text::string_views(c.configs@), q, SectionId::Configs, Seq::empty());
        lemma_hits_append(a1, crate::text::string_views(c.services@), q, SectionId::Services, Seq::empty());
        let a2 = a1 + hits(crate::text::string_views(c.services@), q, SectionId::Services, Seq::empty());
        lemma_hits_append(a2, crate::text::string_views(c.dropins@), q, SectionId::Services, "drop-in"@);
        let a3 = a2 + hits(crate::text::string_views(c.dropins@), q, SectionId::Services, "drop-in"@);
        lemma_hits_append(a3, crate::text::string_views(c.quadlets@), q, SectionId::Containers, "quadlet"@);
        let a4 = a3 + hits(crate::text::string_views(c.quadlets@), q, SectionId::Containers, "quadlet"@);
        lemma_hits_append(a4, crate::text::string_views(c.flatpaks@), q, SectionId::Containers, "flatpak"@);
        let a5 = a4 + hits(crate::text::string_views(c.flatpaks@), q, SectionId::Containers, "flatpak"@);
        lemma_hits_append(a5, crate::text::string_views(c.sysctls@), q, SectionId::Sysctls, Seq::empty());
        let a6 = a5 + hits(crate::text::string_views(c.sysctls@), q, SectionId::Sysctls, Seq::empty());
        lemma_hits_append(a6, crate::text::string_views(c.users@), q, SectionId::Users, Seq::empty());
        let a7 = a6 + hits(crate::text::string_views(c.users@), q, SectionId::Users, Seq::empty());
        lemma_hits_append(a7, crate::text::string_views(c.scheduled_tasks@), q, SectionId::ScheduledTasks, Seq::empty());
        let a8 = a7 + hits(crate::text::string_views(c.scheduled_tasks@), q, SectionId::ScheduledTasks, Seq::empty());
        lemma_hits_append(a8, crate::text::string_views(c.non_rpm_software@), q, SectionId::NonRpmSoftware, Seq::empty());
        let a9 = a8 + hits(crate::text::string_views(c.non_rpm_software@), q, SectionId::NonRpmSoftware, Seq::empty());
        lemma_hits_append(a9, crate::text::string_views(c.selinux@), q, SectionId::SELinux, Seq::empty());
        let all = search_spec(c, query);
        assert(all == a9 + hits(crate::text::string_views(c.selinux@), q, SectionId::SELinux, Seq::empty()));
    }
}

// ---- search finds every matching name ----

/// The positions of the names that contain `q` once lowercased, in
/// increasing order.
pub open spec fn matching_positions(names: Seq<Seq<char>>, q: Seq<char>) -> Seq<int>
    decreases names.len(),
{
    if names.len() == 0 {
        Seq::empty()
    } else {
        matching_positions(names.drop_last(), q) + if contains_seq(lowercase(names.last()), q) {
            seq![names.len() - 1]
        } else {
            Seq::<int>::empty()
        }
    }
}

proof fn lemma_matching_positions(names: Seq<Seq<char>>, q: Seq<char>)
    ensures
        forall|k: int| 0 <= k < matching_positions(names, q).len() ==> {
            let j = #[trigger] matching_positions(names, q)[k];
            0 <= j < names.len() && contains_seq(lowercase(names[j]), q)
        },
        forall|a: int, b: int| 0 <= a < b < matching_positions(names, q).len()
            ==> #[trigger] matching_positions(names, q)[a] < #[trigger] matching_positions(names, q)[b],
        forall|j: int| 0 <= j < names.len() && contains_seq(lowercase(#[trigger] names[j]), q)
            ==> matching_positions(names, q).contains(j),
        hits(names, q, SectionId::Packages, Seq::empty()).len() == matching_positions(names, q).len(),
    decreases names.len(),
{
    if names.len() > 0 {
        let init = names.drop_last();
        lemma_matching_positions(init, q);
        let m0 = matching_positions(init, q);
        let m = matching_positions(names, q);
        assert forall|k: int| 0 <= k < m.len() implies {
            let j = #[trigger] m[k];
            0 <= j < names.len() && contains_seq(lowercase(names[j]), q)
        } by {
            if k < m0.len() {
                assert(m[k] == m0[k]);
                assert(names[m0[k]] == init[m0[k]]);
            } else {
                assert(names[names.len() - 1] == names.last());
            }
        }
        assert forall|a: int, b: int| 0 <= a < b < m.len() implies #[trigger] m[a] < #[trigger] m[b] by {
            assert(m[a] == m0[a]);
            if b < m0.len() {
                assert(m[b] == m0[b]);
            } else {
                assert(m0[a] < init.len());
            }
        }
        assert forall|j: int| 0 <= j < names.len() && contains_seq(lowercase(#[trigger] names[j]), q)
            implies m.contains(j) by {
            if j < init.len() {
                assert(init[j] == names[j]);
                assert(m0.contains(j));
                let k = choose|k: int| 0 <= k < m0.len() && m0[k] == j;
                assert(m[k] == j);
            } else {
                assert(names.last() == names[j]);
                assert(m[m.len() - 1] == j);
            }
        }
    }
}

proof fn lemma_hits_are_matches(names: Seq<Seq<char>>, q: Seq<char>, sid: SectionId, ctx: Seq<char>)
    ensures
        hits(names, q, sid, ctx).len() == matching_positions(names, q).len(),
        forall|k: int| 0 <= k < hits(names, q, sid, ctx).len()
            ==> #[trigger] hits(names, q, sid, ctx)[k] == (sid, names[matching_positions(names, q)[k]], ctx),
    decreases names.len(),
{
    if names.len() > 0 {
        let init = names.drop_last();
        lemma_hits_are_matches(init, q, sid, ctx);
        lemma_matching_positions(init, q);
        let h0 = hits(init, q, sid, ctx);
        let h = hits(names, q, sid, ctx);
        let m0 = matching_positions(init, q);
        let m = matching_positions(names, q);
        assert forall|k: int| 0 <= k < h.len() implies #[trigger] h[k] == (sid, names[m[k]], ctx) by {
            if k < h0.len() {
                assert(h[k] == h0[k]);
                assert(m[k] == m0[k]);
                assert(names[m0[k]] == init[m0[k]]);
            } else {
                assert(m[k] == names.len() - 1);
            }
        }
    }
}

/// Search within one list of names finds exactly the names that contain
/// the query once lowercased, each once, in list order: every matching
/// name is found, and every hit is a matching name.
pub proof fn law_hits_exact(names: Seq<Seq<char>>, q: Seq<char>, sid: SectionId, ctx: Seq<char>)
    ensures
        forall|j: int| 0 <= j < names.len() && contains_seq(lowercase(#[trigger] names[j]), q)
            ==> hits(names, q, sid, ctx).contains((sid, names[j], ctx)),
        exists|pos: Seq<int>| #![trigger pos.len()] {
            &&& pos.len() == hits(names, q, sid, ctx).len()
            &&& forall|k: int| 0 <= k < pos.len() ==> 0 <= #[trigger] pos[k] < names.len()
                && contains_seq(lowercase(names[pos[k]]), q) && hits(names, q, sid, ctx)[k] == (sid, names[pos[k]], ctx)
            &&& forall|a: int, b: int| 0 <= a < b < pos.len() ==> #[trigger] pos[a] < #[trigger] pos[b]
            &&& forall|j: int| 0 <= j < names.len() && contains_seq(lowercase(#[trigger] names[j]), q) ==> pos.contains(j)
        },
{
    lemma_matching_positions(names, q);
    lemma_hits_are_matches(names, q, sid, ctx);
    let m = matching_positions(names, q);
    let h = hits(names, q, sid, ctx);
    assert forall|j: int| 0 <= j < names.len() && contains_seq(lowercase(#[trigger] names[j]), q)
        implies h.contains((sid, names[j], ctx)) by {
        assert(m.contains(j));
        let k = choose|k: int| 0 <= k < m.len() && m[k] == j;
        assert(h[k] == (sid, names[j], ctx));
    }
    assert(forall|k: int| 0 <= k < m.len() ==> 0 <= #[trigger] m[k] < names.len()
        && contains_seq(lowercase(names[m[k]]), q) && h[k] == (sid, names[m[k]], ctx));
}

proof fn lemma_contains_in_concat(a: Seq<(SectionId, Seq<char>, Seq<char>)>, b: Seq<(SectionId, Seq<char>, Seq<char>)>, x: (SectionId, Seq<char>, Seq<char>))
    ensures
        (a.contains(x) || b.contains(x)) ==> (a + b).contains(x),
{
    if a.contains(x) {
        let i = choose|i: int| 0 <= i < a.len() && a[i] == x;
        assert((a + b)[i] == x);
    } else if b.contains(x) {
        let i = choose|i: int| 0 <= i < b.len() && b[i] == x;
        assert((a + b)[a.len() + i] == x);
    }
}

/// A name of list `names` that search must find.
pub open spec fn must_find(names: Seq<Seq<char>>, query: Seq<char>, sid: SectionId, ctx: Seq<char>, c: SearchCorpus) -> bool {
    forall|j: int| 0 <= j < names.len() && contains_seq(lowercase(#[trigger] names[j]), lowercase(query))
        ==> search_spec(c, query).contains((sid, names[j], ctx))
}

/// Cross-section search misses no matching name: for a non-empty query,
/// every package label, config path, service unit, drop-in, quadlet,
/// flatpak, sysctl key, user, scheduled task, non-RPM item and SELinux
/// entry that contains the query once both are lowercased is among the
/// hits, with its section and context.
pub proof fn law_search_complete(c: SearchCorpus, query: Seq<char>)
    requires
        query.len() > 0,
    ensures
        must_find(package_labels(c.packages@), query, SectionId::Packages, Seq::empty(), c),
        must_find(crate::text::string_views(c.configs@), query, SectionId::Configs, Seq::empty(), c),
        must_find(crate::text::string_views(c.services@), query, SectionId::Services, Seq::empty(), c),
        must_find(crate::text::string_views(c.dropins@), query, SectionId::Services, "drop-in"@, c),
        must_find(crate::text::string_views(c.quadlets@), query, SectionId::Containers, "quadlet"@, c),
        must_find(crate::text::string_views(c.flatpaks@), query, SectionId::Containers, "flatpak"@, c),
        must_find(crate::text::string_views(c.sysctls@), query, SectionId::Sysctls, Seq::empty(), c),
        must_find(crate::text::string_views(c.users@), query, SectionId::Users, Seq::empty(), c),
        must_find(crate::text::string_views(c.scheduled_tasks@), query, SectionId::ScheduledTasks, Seq::empty(), c),
        must_find(crate::text::string_views(c.non_rpm_software@), query, SectionId::NonRpmSoftware, Seq::empty(), c),
        must_find(crate::text::string_views(c.selinux@), query, SectionId::SELinux, Seq::empty(), c),
{
    let q = lowercase(query);
    let parts: Seq<Seq<(SectionId, Seq<char>, Seq<char>)>> = seq![
        hits(package_labels(c.packages@), q, SectionId::Packages, Seq::empty()),
        hits(crate::text::string_views(c.configs@), q, SectionId::Configs, Seq::empty()),
        hits(crate::text::string_views(c.services@), q, SectionId::Services, Seq::empty()),
        hits(crate::text::string_views(c.dropins@), q, SectionId::Services, "drop-in"@),
        hits(crate::text::string_views(c.quadlets@), q, SectionId::Containers, "quadlet"@),
        hits(crate::text::string_views(c.flatpaks@), q, SectionId::Containers, "flatpak"@),
        hits(crate::text::string_views(c.sysctls@), q, SectionId::Sysctls, Seq::empty()),
        hits(crate::text::string_views(c.users@), q, SectionId::Users, Seq::empty()),
        hits(crate::text::string_views(c.scheduled_tasks@), q, SectionId::ScheduledTasks, Seq::empty()),
        hits(crate::text::string_views(c.non_rpm_software@), q, SectionId::NonRpmSoftware, Seq::empty()),
        hits(crate::text::string_views(c.selinux@), q, SectionId::SELinux, Seq::empty()),
    ];
    let all = search_spec(c, query);
    assert(all == parts[0] + parts[1] + parts[2] + parts[3] + parts[4] + parts[5] + parts[6] + parts[7] + parts[8] + parts[9] + parts[10]);
    assert forall|k: int, x: (SectionId, Seq<char>, Seq<char>)| 0 <= k < 11 && #[trigger] parts[k].contains(x) implies all.contains(x) by {
        lemma_part_in_all(parts, k, x);
    }
    law_hits_exact(package_labels(c.packages@), q, SectionId::Packages, Seq::empty());
    law_hits_exact(crate::text::string_views(c.configs@), q, SectionId::Configs, Seq::empty());
    law_hits_exact(crate::text::string_views(c.services@), q, SectionId::Services, Seq::empty());
    law_hits_exact(crate::text::string_views(c.dropins@), q, SectionId::Services, "drop-in"@);
    law_hits_exact(crate::text::string_views(c.quadlets@), q, SectionId::Containers, "quadlet"@);
    law_hits_exact(crate::text::string_views(c.flatpaks@), q, SectionId::Containers, "flatpak"@);
    law_hits_exact(crate::text::string_views(c.sysctls@), q, SectionId::Sysctls, Seq::empty());
    law_hits_exact(crate::text::string_views(c.users@), q, SectionId::Users, Seq::empty());
    law_hits_exact(crate::text::string_views(c.scheduled_tasks@), q, SectionId::ScheduledTasks, Seq::empty());
    law_hits_exact(crate::text::string_views(c.non_rpm_software@), q, SectionId::NonRpmSoftware, Seq::empty());
    law_hits_exact(crate::text::string_views(c.selinux@), q, SectionId::SELinux, Seq::empty());
    assert(parts[0] == hits(package_labels(c.packages@), q, SectionId::Packages, Seq::empty()));
}

/// A hit of one of the first `n` parts is a hit of their concatenation.
proof fn lemma_part_in_prefix(parts: Seq<Seq<(SectionId, Seq<char>, Seq<char>)>>, n: int, k: int, x: (SectionId, Seq<char>, Seq<char>))
    requires
        1 <= n <= parts.len(),
        0 <= k < n,
        parts[k].contains(x),
    ensures
        prefix_concat(parts, n).contains(x),
    decreases n,
{
    if n > 1 {
        if k < n - 1 {
            lemma_part_in_prefix(parts, n - 1, k, x);
        }
        lemma_contains_in_concat(prefix_concat(parts, n - 1), parts[n - 1], x);
    }
}

/// A hit of one of the eleven parts is a hit of their concatenation.
proof fn lemma_part_in_all(parts: Seq<Seq<(SectionId, Seq<char>, Seq<char>)>>, k: int, x: (SectionId, Seq<char>, Seq<char>))
    requires
        parts.len() == 11,
        0 <= k < 11,
        parts[k].contains(x),
    ensures
        (parts[0] + parts[1] + parts[2] + parts[3] + parts[4] + parts[5] + parts[6] + parts[7] + parts[8] + parts[9] + parts[10]).contains(x),
{
    lemma_part_in_prefix(parts, 11, k, x);
    assert(prefix_concat(parts, 11) == parts[0] + parts[1] + parts[2] + parts[3] + parts[4] + parts[5] + parts[6] + parts[7] + parts[8] + parts[9] + parts[10]) by {
        reveal_with_fuel(prefix_concat, 12);
    }
}

/// The first `n` parts, concatenated.
pub open spec fn prefix_concat(parts: Seq<Seq<(SectionId, Seq<char>, Seq<char>)>>, n: int) -> Seq<(SectionId, Seq<char>, Seq<char>)>
    decreases n,
{
    if n <= 1 {
        parts[0]
    } else {
        prefix_concat(parts, n - 1) + parts[n - 1]
    }
}

} // verus!
