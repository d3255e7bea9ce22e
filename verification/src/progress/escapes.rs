//! Which progress output carries terminal escape sequences: the flat
//! renderer never writes one, and the plain renderer and the checklist
//! write none when color is off, as long as the names and reasons they
//! are given hold none.

use vstd::prelude::*;
use crate::progress::checklist::{
    all_lines, completion_label, dim, footer_line, green, kept_positions, lemma_kept_positions, main_line, metric_label,
    metric_or_done, overflow, probe_index, probe_line, probe_lines, red, render_spec, running_elapsed, step_index, sub_line,
    sub_lines, yellow, InspectorOutcome, MetricKind, ProbeOutcome, ProbeRow, ProbeRowState, ProgressEvent, RowStateV, RowV,
    StepOutcome, SubStepV,
};
use crate::progress::colored_spec;
use crate::progress::lines::{
    display_name, flat_head, flat_label, flat_line, inspector_suffix, plain_label, plain_line, probe_suffix, step_suffix,
    Tally, inspector_symbol, step_symbol, probe_symbol, position_from,
};
use crate::text::{decimal, digit_char, pad_right, repeat_char};

verus! {

/// `s` holds no escape character (`\x1b`), so no escape sequence.
pub open spec fn esc_free(s: Seq<char>) -> bool {
    forall|i: int| 0 <= i < s.len() ==> s[i] != '\x1b'
}

pub broadcast proof fn lemma_esc_free_add(a: Seq<char>, b: Seq<char>)
    ensures
        #[trigger] esc_free(a + b) <== esc_free(a) && esc_free(b),
{
    if esc_free(a) && esc_free(b) {
        assert forall|i: int| 0 <= i < (a + b).len() implies (a + b)[i] != '\x1b' by {
            if i < a.len() {
                assert((a + b)[i] == a[i]);
            } else {
                assert((a + b)[i] == b[i - a.len()]);
            }
        }
    }
}

proof fn lemma_digit(d: nat)
    requires
        d < 10,
    ensures
        digit_char(d) != '\x1b',
{
    let ds = seq!['0', '1', '2', '3', '4', '5', '6', '7', '8', '9'];
    assert(ds[d as int] != '\x1b');
}

pub broadcast proof fn lemma_decimal_esc_free(n: nat)
    ensures
        #[trigger] esc_free(decimal(n)),
    decreases n,
{
    if n < 10 {
        lemma_digit(n);
        assert(decimal(n) == seq![digit_char(n)]);
    } else {
        lemma_decimal_esc_free(n / 10);
        lemma_digit(n % 10);
        let d = decimal(n / 10);
        assert(decimal(n) == d.push(digit_char(n % 10)));
        assert forall|i: int| 0 <= i < decimal(n).len() implies decimal(n)[i] != '\x1b' by {
            if i < d.len() {
                assert(decimal(n)[i] == d[i]);
            }
        }
    }
}

pub broadcast proof fn lemma_pad_right_esc_free(s: Seq<char>, w: nat)
    ensures
        #[trigger] esc_free(pad_right(s, w)) <== esc_free(s),
{
    if s.len() < w {
        let r = repeat_char(' ', (w - s.len()) as nat);
        assert(esc_free(r));
        lemma_esc_free_add(s, r);
    }
}

pub broadcast group group_esc_free {
    lemma_esc_free_add,
    lemma_decimal_esc_free,
    lemma_pad_right_esc_free,
}

/// The fixed text of the progress lines holds no escape character.
proof fn lemma_literals()
    ensures
        esc_free("  "@), esc_free(" "@), esc_free("..."@), esc_free("... "@), esc_free("["@), esc_free("/"@),
        esc_free("] "@), esc_free("    "@), esc_free("       "@), esc_free("\u{25b8} "@), esc_free("    \u{25b8} "@),
        esc_free("\u{25cc}"@), esc_free("\u{2713}"@), esc_free("\u{2013}"@), esc_free("~"@), esc_free("\u{2717}"@),
        esc_free("\u{25a0}"@), esc_free("\u{00b7}"@), esc_free("       \u{25cc} "@),
        esc_free(" skipped ("@), esc_free("skipped ("@), esc_free(")"@), esc_free(" degraded: "@), esc_free("degraded: "@),
        esc_free(" failed: "@), esc_free("failed: "@), esc_free(" interrupted"@), esc_free("interrupted"@),
        esc_free(" found"@), esc_free(" repos mapped"@), esc_free("done"@), esc_free("none found"@), esc_free("none"@),
        esc_free("1 ecosystem"@), esc_free(" ecosystems"@), esc_free(" ("@), esc_free("s)"@), esc_free(" ... and "@),
        esc_free(" more"@),
{
    reveal_strlit("  ");
    reveal_strlit(" ");
    reveal_strlit("...");
    reveal_strlit("... ");
    reveal_strlit("[");
    reveal_strlit("/");
    reveal_strlit("] ");
    reveal_strlit("    ");
    reveal_strlit("       ");
    reveal_strlit("\u{25b8} ");
    reveal_strlit("    \u{25b8} ");
    reveal_strlit("\u{25cc}");
    reveal_strlit("\u{2713}");
    reveal_strlit("\u{2013}");
    reveal_strlit("~");
    reveal_strlit("\u{2717}");
    reveal_strlit("\u{25a0}");
    reveal_strlit("\u{00b7}");
    reveal_strlit("       \u{25cc} ");
    reveal_strlit(" skipped (");
    reveal_strlit("skipped (");
    reveal_strlit(")");
    reveal_strlit(" degraded: ");
    reveal_strlit("degraded: ");
    reveal_strlit(" failed: ");
    reveal_strlit("failed: ");
    reveal_strlit(" interrupted");
    reveal_strlit("interrupted");
    reveal_strlit(" found");
    reveal_strlit(" repos mapped");
    reveal_strlit("done");
    reveal_strlit("none found");
    reveal_strlit("none");
    reveal_strlit("1 ecosystem");
    reveal_strlit(" ecosystems");
    reveal_strlit(" (");
    reveal_strlit("s)");
    reveal_strlit(" ... and ");
    reveal_strlit(" more");
}

// ---- events ----

/// The reason of an inspector's outcome holds no escape character.
pub open spec fn inspector_outcome_esc_free(o: InspectorOutcome) -> bool {
    match o {
        InspectorOutcome::Skipped { reason } => esc_free(reason@),
        InspectorOutcome::Degraded { reason } => esc_free(reason@),
        InspectorOutcome::Failed { reason } => esc_free(reason@),
        _ => true,
    }
}

/// The reason of a step's outcome holds no escape character.
pub open spec fn step_outcome_esc_free(o: StepOutcome) -> bool {
    match o {
        StepOutcome::Skipped { reason } => esc_free(reason@),
        StepOutcome::Degraded { reason } => esc_free(reason@),
        StepOutcome::Failed { reason } => esc_free(reason@),
        _ => true,
    }
}

/// The reasons an event carries hold no escape character.
pub open spec fn event_esc_free(e: ProgressEvent) -> bool {
    match e {
        ProgressEvent::InspectorFinished { outcome, .. } => inspector_outcome_esc_free(outcome),
        ProgressEvent::StepFinished { outcome, .. } => step_outcome_esc_free(outcome),
        _ => true,
    }
}

/// Every name holds no escape character.
pub open spec fn names_esc_free(ns: Seq<Seq<char>>) -> bool {
    forall|i: int| 0 <= i < ns.len() ==> esc_free(#[trigger] ns[i])
}

/// Every display name holds no escape character.
pub open spec fn order_esc_free(order: Seq<(crate::progress::checklist::InspectorId, Seq<char>)>) -> bool {
    forall|i: int| 0 <= i < order.len() ==> esc_free(#[trigger] order[i].1)
}

proof fn lemma_position_from(order: Seq<(crate::progress::checklist::InspectorId, Seq<char>)>, id: crate::progress::checklist::InspectorId, i: int)
    ensures
        position_from(order, id, i) matches Some(k) ==> 0 <= k < order.len(),
    decreases order.len() - i,
{
    if 0 <= i < order.len() && order[i].0 != id {
        lemma_position_from(order, id, i + 1);
    }
}

proof fn lemma_display_name(order: Seq<(crate::progress::checklist::InspectorId, Seq<char>)>, id: crate::progress::checklist::InspectorId)
    requires
        order_esc_free(order),
    ensures
        esc_free(display_name(order, id)),
{
    lemma_position_from(order, id, 0);
    if let Some(k) = position_from(order, id, 0) {
        assert(esc_free(order[k].1));
    }
}

proof fn lemma_metric(m: Option<(MetricKind, usize)>)
    ensures
        esc_free(metric_or_done(m)),
{
    broadcast use group_esc_free;
    lemma_literals();
    match m {
        Some((k, v)) => {
            match k {
                MetricKind::PackagesFound => {},
                MetricKind::ReposMapped => {},
            }
            assert(esc_free(metric_label(k, v)));
        },
        None => {},
    }
}

proof fn lemma_inspector_suffix(o: InspectorOutcome, label: Seq<char>)
    requires
        esc_free(label),
        inspector_outcome_esc_free(o),
    ensures
        esc_free(inspector_suffix(o, label)),
{
    broadcast use group_esc_free;
    lemma_literals();
}

proof fn lemma_step_suffix(o: StepOutcome, m: Option<(MetricKind, usize)>)
    requires
        step_outcome_esc_free(o),
    ensures
        esc_free(step_suffix(o, m)),
{
    broadcast use group_esc_free;
    lemma_literals();
    lemma_metric(m);
}

proof fn lemma_probe_suffix(o: ProbeOutcome)
    ensures
        esc_free(probe_suffix(o)),
{
    broadcast use group_esc_free;
    lemma_literals();
}

// ---- the flat renderer ----

/// The flat renderer writes no escape sequence: every line it writes is
/// free of escape characters whenever the display, step and probe names
/// and the event's reasons are. A finished inspector with no probe count
/// and no metric is reported `done`.
pub proof fn law_flat_lines_plain_text(
    order: Seq<(crate::progress::checklist::InspectorId, Seq<char>)>,
    steps: Seq<Seq<char>>,
    probes: Seq<Seq<char>>,
    total: usize,
    t: Tally,
    e: ProgressEvent,
    now: u64,
)
    requires
        order_esc_free(order),
        names_esc_free(steps),
        names_esc_free(probes),
        event_esc_free(e),
        steps.len() == 9,
        probes.len() == 4,
    ensures
        flat_line(order, steps, probes, total, t, e, now) matches Some(l) ==> esc_free(l.0),
        ((e matches ProgressEvent::InspectorFinished { id, outcome: InspectorOutcome::Complete })
            && t.probes_found is None && t.inspector_metric is None) ==> (flat_line(order, steps, probes, total, t, e, now) matches Some(l)
            && l.0 == flat_head(order, crate::progress::checklist::event_inspector(e), total) + "... done"@),
{
    broadcast use group_esc_free;
    lemma_literals();
    match e {
        ProgressEvent::InspectorStarted(id) => {
            lemma_display_name(order, id);
        },
        ProgressEvent::InspectorFinished { id, outcome } => {
            lemma_display_name(order, id);
            lemma_metric(t.inspector_metric);
            assert(esc_free(flat_label(t)));
            lemma_inspector_suffix(outcome, flat_label(t));
            reveal_strlit("... done");
            reveal_strlit("... ");
            reveal_strlit("done");
            assert("... "@ + "done"@ == "... done"@);
        },
        ProgressEvent::StepStarted { step, .. } => {
            assert(esc_free(steps[crate::progress::checklist::step_index(step)]));
        },
        ProgressEvent::StepFinished { step, outcome, inspector } => {
            assert(esc_free(steps[crate::progress::checklist::step_index(step)]));
            lemma_step_suffix(outcome, t.step_metric);
        },
        ProgressEvent::Metric { .. } => {},
        ProgressEvent::ProbeStarted { probe, .. } => {
            assert(esc_free(probes[crate::progress::checklist::probe_index(probe)]));
        },
        ProgressEvent::ProbeFinished { probe, outcome, .. } => {
            assert(esc_free(probes[crate::progress::checklist::probe_index(probe)]));
            lemma_probe_suffix(outcome);
        },
    }
}

// ---- the plain renderer ----

proof fn lemma_symbols_plain(o: InspectorOutcome, so: StepOutcome, po: ProbeOutcome)
    ensures
        esc_free(inspector_symbol(o, false)),
        esc_free(step_symbol(so, false)),
        esc_free(probe_symbol(po, false)),
{
    lemma_literals();
}

/// Without color the plain renderer writes no escape sequence, as long as
/// the display, step and probe names and the event's reasons hold none;
/// with color a finished inspector's line starts with a color code.
pub proof fn law_plain_lines_without_color(
    order: Seq<(crate::progress::checklist::InspectorId, Seq<char>)>,
    steps: Seq<Seq<char>>,
    probes: Seq<Seq<char>>,
    t: Tally,
    e: ProgressEvent,
    c: bool,
    now: u64,
)
    requires
        order_esc_free(order),
        names_esc_free(steps),
        names_esc_free(probes),
        event_esc_free(e),
        steps.len() == 9,
        probes.len() == 4,
    ensures
        !c ==> (plain_line(order, steps, probes, t, e, c, now) matches Some(l) ==> esc_free(l.0)),
        c && (e is InspectorFinished) ==> (plain_line(order, steps, probes, t, e, c, now) matches Some(l)
            && l.0.len() >= 2 && l.0[0] == '\x1b' && l.0[1] == '['),
{
    broadcast use group_esc_free;
    lemma_literals();
    match e {
        ProgressEvent::InspectorStarted(id) => {
            lemma_display_name(order, id);
        },
        ProgressEvent::InspectorFinished { id, outcome } => {
            lemma_display_name(order, id);
            lemma_metric(t.inspector_metric);
            assert(esc_free(plain_label(t)));
            lemma_inspector_suffix(outcome, plain_label(t));
            lemma_symbols_plain(outcome, StepOutcome::Interrupted, ProbeOutcome::Empty);
            if c {
                reveal_strlit("\x1b[32m");
                reveal_strlit("\x1b[2m");
                reveal_strlit("\x1b[33m");
                reveal_strlit("\x1b[31m");
                let l = plain_line(order, steps, probes, t, e, c, now).unwrap().0;
                let sym = inspector_symbol(outcome, c);
                let code = match outcome {
                    InspectorOutcome::Complete => green(),
                    InspectorOutcome::Skipped { .. } => dim(),
                    InspectorOutcome::Degraded { .. } => yellow(),
                    InspectorOutcome::Failed { .. } => red(),
                    InspectorOutcome::Interrupted => red(),
                };
                assert(code.len() >= 2 && code[0] == '\x1b' && code[1] == '[');
                assert(sym[0] == code[0] && sym[1] == code[1]);
                assert(l[0] == sym[0] && l[1] == sym[1]);
            }
        },
        ProgressEvent::StepStarted { step, .. } => {
            assert(esc_free(steps[crate::progress::checklist::step_index(step)]));
        },
        ProgressEvent::StepFinished { step, outcome, .. } => {
            assert(esc_free(steps[crate::progress::checklist::step_index(step)]));
            lemma_step_suffix(outcome, t.step_metric);
            lemma_symbols_plain(InspectorOutcome::Interrupted, outcome, ProbeOutcome::Empty);
        },
        ProgressEvent::Metric { .. } => {},
        ProgressEvent::ProbeStarted { probe, .. } => {
            assert(esc_free(probes[crate::progress::checklist::probe_index(probe)]));
        },
        ProgressEvent::ProbeFinished { probe, outcome, .. } => {
            assert(esc_free(probes[crate::progress::checklist::probe_index(probe)]));
            lemma_probe_suffix(outcome);
            lemma_symbols_plain(InspectorOutcome::Interrupted, StepOutcome::Interrupted, outcome);
        },
    }
}

// ---- the checklist ----

/// The reason a row or step state carries holds no escape character.
pub open spec fn state_esc_free(st: RowStateV) -> bool {
    match st {
        RowStateV::Skipped { reason } => esc_free(reason),
        RowStateV::Degraded { reason, .. } => esc_free(reason),
        RowStateV::Failed { reason } => esc_free(reason),
        _ => true,
    }
}

/// A row's name and every reason in it hold no escape character.
pub open spec fn row_esc_free(r: RowV) -> bool {
    &&& esc_free(r.name)
    &&& state_esc_free(r.state)
    &&& forall|j: int| 0 <= j < r.sub_steps.len() ==> state_esc_free(#[trigger] r.sub_steps[j].state)
}

proof fn lemma_main_line(r: RowV, spin: char, now: u64, suf: Seq<char>)
    requires
        row_esc_free(r),
        esc_free(suf),
        spin != '\x1b',
    ensures
        esc_free(main_line(r, spin, false, now, suf)),
{
    broadcast use group_esc_free;
    lemma_literals();
    lemma_metric(r.inspector_metric);
    assert(esc_free(seq![spin]));
    assert(esc_free(completion_label(r)));
    assert(esc_free(running_elapsed(r.started_at_ms, now)));
}

proof fn lemma_sub_lines(subs: Seq<SubStepV>, names: Seq<Seq<char>>, spin: char)
    requires
        forall|j: int| 0 <= j < subs.len() ==> state_esc_free(#[trigger] subs[j].state),
        names_esc_free(names),
        names.len() == 9,
        spin != '\x1b',
    ensures
        forall|k: int| 0 <= k < sub_lines(subs, names, spin, false).len() ==> esc_free(#[trigger] sub_lines(subs, names, spin, false)[k].0),
    decreases subs.len(),
{
    broadcast use group_esc_free;
    if subs.len() > 0 {
        let init = subs.drop_last();
        assert forall|j: int| 0 <= j < init.len() implies state_esc_free(#[trigger] init[j].state) by {
            assert(init[j] == subs[j]);
        }
        lemma_sub_lines(init, names, spin);
        let x = subs.last();
        assert(state_esc_free(subs[subs.len() - 1].state));
        lemma_literals();
        lemma_metric(x.metric);
        assert(esc_free(seq![spin]));
        assert(esc_free(names[step_index(x.step)]));
        assert(esc_free(sub_line(x, names[step_index(x.step)], spin, false)));
        let prev = sub_lines(init, names, spin, false);
        let all = sub_lines(subs, names, spin, false);
        assert forall|k: int| 0 <= k < all.len() implies esc_free(#[trigger] all[k].0) by {
            if k < prev.len() {
                assert(all[k] == prev[k]);
            }
        }
    }
}

proof fn lemma_probe_lines(ps: Seq<ProbeRow>, names: Seq<Seq<char>>, spin: char)
    requires
        names_esc_free(names),
        names.len() == 4,
        spin != '\x1b',
    ensures
        forall|k: int| 0 <= k < probe_lines(ps, names, spin, false).len() ==> esc_free(#[trigger] probe_lines(ps, names, spin, false)[k].0),
    decreases ps.len(),
{
    broadcast use group_esc_free;
    if ps.len() > 0 {
        lemma_probe_lines(ps.drop_last(), names, spin);
        let x = ps.last();
        lemma_literals();
        assert(esc_free(seq![spin]));
        assert(esc_free(names[probe_index(x.probe)]));
        assert(esc_free(probe_line(x, names[probe_index(x.probe)], spin, false)));
        let prev = probe_lines(ps.drop_last(), names, spin, false);
        let all = probe_lines(ps, names, spin, false);
        assert forall|k: int| 0 <= k < all.len() implies esc_free(#[trigger] all[k].0) by {
            if k < prev.len() {
                assert(all[k] == prev[k]);
            }
        }
    }
}

proof fn lemma_all_lines(rows: Seq<RowV>, sufs: Seq<Seq<char>>, steps: Seq<Seq<char>>, probes: Seq<Seq<char>>, spin: char, now: u64)
    requires
        forall|i: int| 0 <= i < rows.len() ==> row_esc_free(#[trigger] rows[i]),
        sufs.len() >= rows.len(),
        names_esc_free(sufs),
        names_esc_free(steps),
        names_esc_free(probes),
        steps.len() == 9,
        probes.len() == 4,
        spin != '\x1b',
    ensures
        forall|k: int| 0 <= k < all_lines(rows, sufs, steps, probes, spin, false, now).len()
            ==> esc_free(#[trigger] all_lines(rows, sufs, steps, probes, spin, false, now)[k].0),
    decreases rows.len(),
{
    if rows.len() > 0 {
        let init = rows.drop_last();
        assert forall|i: int| 0 <= i < init.len() implies row_esc_free(#[trigger] init[i]) by {
            assert(init[i] == rows[i]);
        }
        lemma_all_lines(init, sufs, steps, probes, spin, now);
        let k = rows.len() - 1;
        let r = rows[k];
        assert(row_esc_free(r));
        assert(esc_free(sufs[k]));
        lemma_main_line(r, spin, now, sufs[k]);
        lemma_sub_lines(r.sub_steps, steps, spin);
        lemma_probe_lines(r.probes, probes, spin);
        let a = all_lines(init, sufs, steps, probes, spin, false, now).push((main_line(r, spin, false, now, sufs[k]), r.state is Pending));
        let b = sub_lines(r.sub_steps, steps, spin, false);
        let c = probe_lines(r.probes, probes, spin, false);
        let all = all_lines(rows, sufs, steps, probes, spin, false, now);
        assert(all == a + b + c);
        let prev = all_lines(init, sufs, steps, probes, spin, false, now);
        assert forall|m: int| 0 <= m < all.len() implies esc_free(#[trigger] all[m].0) by {
            if m < prev.len() {
                assert(all[m] == prev[m]);
            } else if m == prev.len() {
                assert(all[m] == a[m]);
            } else if m < a.len() + b.len() {
                assert(all[m] == b[m - a.len()]);
            } else {
                assert(all[m] == c[m - a.len() - b.len()]);
            }
        }
    }
}

/// Without color the checklist block holds no escape sequence, as long as
/// the rows' names and reasons, the elapsed-time suffixes and the step and
/// probe names hold none.
pub proof fn law_checklist_without_color(rows: Seq<RowV>, sufs: Seq<Seq<char>>, steps: Seq<Seq<char>>, probes: Seq<Seq<char>>, spin: char, now: u64, height: usize)
    requires
        forall|i: int| 0 <= i < rows.len() ==> row_esc_free(#[trigger] rows[i]),
        sufs.len() == rows.len(),
        names_esc_free(sufs),
        names_esc_free(steps),
        names_esc_free(probes),
        steps.len() == 9,
        probes.len() == 4,
        spin != '\x1b',
    ensures
        forall|k: int| 0 <= k < render_spec(all_lines(rows, sufs, steps, probes, spin, false, now), height, false).len()
            ==> esc_free(#[trigger] render_spec(all_lines(rows, sufs, steps, probes, spin, false, now), height, false)[k]),
{
    broadcast use group_esc_free;
    lemma_literals();
    let all = all_lines(rows, sufs, steps, probes, spin, false, now);
    lemma_all_lines(rows, sufs, steps, probes, spin, now);
    let max: int = if height >= 2 { height - 2 } else { 0 };
    let out = render_spec(all, height, false);
    if all.len() <= max {
        assert forall|k: int| 0 <= k < out.len() implies esc_free(#[trigger] out[k]) by {
            assert(out[k] == all[k].0);
        }
    } else {
        lemma_kept_positions(all, max, all.len());
        let kept = overflow(all, max, all.len()).0;
        let hidden = overflow(all, max, all.len()).1;
        let pos = kept_positions(all, max, all.len());
        assert(esc_free(footer_line(hidden, false)));
        assert forall|k: int| 0 <= k < out.len() implies esc_free(#[trigger] out[k]) by {
            if k < kept.len() {
                assert(out[k] == kept[k]);
                assert(kept[k] == all[pos[k]].0);
            } else {
                assert(out[k] == footer_line(hidden, false));
            }
        }
    }
}

// ---- with color ----

/// Line `l` starts with two spaces and a color code.
pub open spec fn starts_colored(l: Seq<char>) -> bool {
    l.len() >= 4 && l[2] == '\x1b' && l[3] == '['
}

proof fn lemma_main_line_position(rows: Seq<RowV>, sufs: Seq<Seq<char>>, steps: Seq<Seq<char>>, probes: Seq<Seq<char>>, spin: char, c: bool, now: u64, ri: int)
    requires
        0 <= ri < rows.len(),
    ensures
        exists|p: int| 0 <= p < all_lines(rows, sufs, steps, probes, spin, c, now).len()
            && #[trigger] all_lines(rows, sufs, steps, probes, spin, c, now)[p].0 == main_line(rows[ri], spin, c, now, sufs[ri]),
    decreases rows.len(),
{
    let init = rows.drop_last();
    let k = rows.len() - 1;
    let prev = all_lines(init, sufs, steps, probes, spin, c, now);
    let a = prev.push((main_line(rows[k], spin, c, now, sufs[k]), rows[k].state is Pending));
    let b = sub_lines(rows[k].sub_steps, steps, spin, c);
    let d = probe_lines(rows[k].probes, probes, spin, c);
    let all = all_lines(rows, sufs, steps, probes, spin, c, now);
    assert(all == a + b + d);
    if ri < k {
        lemma_main_line_position(init, sufs, steps, probes, spin, c, now, ri);
        assert(init[ri] == rows[ri]);
        let p = choose|p: int| 0 <= p < prev.len() && #[trigger] prev[p].0 == main_line(init[ri], spin, c, now, sufs[ri]);
        assert(all[p] == prev[p]);
        assert(all[p].0 == main_line(rows[ri], spin, c, now, sufs[ri]));
    } else {
        let q = prev.len() as int;
        assert(all[q] == a[q]);
        assert(all[q].0 == main_line(rows[ri], spin, c, now, sufs[ri]));
    }
}

proof fn lemma_main_line_colored(r: RowV, spin: char, now: u64, suf: Seq<char>)
    requires
        !(r.state is Active),
    ensures
        starts_colored(main_line(r, spin, true, now, suf)),
{
    reveal_strlit("  ");
    reveal_strlit("\x1b[2m");
    reveal_strlit("\x1b[32m");
    reveal_strlit("\x1b[33m");
    reveal_strlit("\x1b[31m");
    let l = main_line(r, spin, true, now, suf);
    let code = match r.state {
        RowStateV::Pending => dim(),
        RowStateV::Complete { .. } => green(),
        RowStateV::Skipped { .. } => dim(),
        RowStateV::Degraded { .. } => yellow(),
        RowStateV::Failed { .. } => red(),
        _ => red(),
    };
    let sym = match r.state {
        RowStateV::Pending => "\u{25cc}"@,
        RowStateV::Complete { .. } => "\u{2713}"@,
        RowStateV::Skipped { .. } => "\u{2013}"@,
        RowStateV::Degraded { .. } => "~"@,
        RowStateV::Failed { .. } => "\u{2717}"@,
        _ => "\u{25a0}"@,
    };
    let head = "  "@ + colored_spec(sym, code, true);
    assert(head[2] == code[0] && head[3] == code[1]);
    assert(l.len() >= head.len());
    assert(l[2] == head[2] && l[3] == head[3]);
}

/// With color the checklist block carries a color code whenever some
/// inspector is not running: the row's status symbol is colored when its
/// line is shown, and the footer's dot is when the block is cut.
pub proof fn law_checklist_with_color(rows: Seq<RowV>, sufs: Seq<Seq<char>>, steps: Seq<Seq<char>>, probes: Seq<Seq<char>>, spin: char, now: u64, height: usize, ri: int)
    requires
        0 <= ri < rows.len(),
        !(rows[ri].state is Active),
        sufs.len() == rows.len(),
    ensures
        exists|k: int| 0 <= k < render_spec(all_lines(rows, sufs, steps, probes, spin, true, now), height, true).len()
            && starts_colored(#[trigger] render_spec(all_lines(rows, sufs, steps, probes, spin, true, now), height, true)[k]),
{
    let all = all_lines(rows, sufs, steps, probes, spin, true, now);
    let out = render_spec(all, height, true);
    let max: int = if height >= 2 { height - 2 } else { 0 };
    lemma_main_line_position(rows, sufs, steps, probes, spin, true, now, ri);
    let p = choose|p: int| 0 <= p < all.len() && #[trigger] all[p].0 == main_line(rows[ri], spin, true, now, sufs[ri]);
    lemma_main_line_colored(rows[ri], spin, now, sufs[ri]);
    if all.len() <= max {
        assert(out[p] == all[p].0);
        assert(starts_colored(out[p]));
    } else {
        lemma_kept_positions(all, max, all.len());
        let kept = overflow(all, max, all.len()).0;
        let hidden = overflow(all, max, all.len()).1;
        assert(hidden > 0);
        assert(out == kept.push(footer_line(hidden, true)));
        reveal_strlit("  ");
        reveal_strlit("\x1b[2m");
        let f = footer_line(hidden, true);
        let head = "  "@ + colored_spec("\u{00b7}"@, dim(), true);
        assert(head[2] == '\x1b' && head[3] == '[');
        assert(f[2] == head[2] && f[3] == head[3]);
        assert(out[kept.len() as int] == f);
        assert(starts_colored(out[kept.len() as int]));
    }
}

// ---- the shapes of plain lines ----

proof fn lemma_prefix(a: Seq<char>, b: Seq<char>)
    ensures
        a.is_prefix_of(a + b),
{
    assert((a + b).subrange(0, a.len() as int) =~= a);
}

/// The plain renderer's lines have fixed shapes: an inspector's start
/// begins at the first column with `▸ `, step and probe lines are indented
/// by four spaces, and with color a completed inspector's line begins
/// with a green check mark.
pub proof fn law_plain_line_shapes(
    order: Seq<(crate::progress::checklist::InspectorId, Seq<char>)>,
    steps: Seq<Seq<char>>,
    probes: Seq<Seq<char>>,
    t: Tally,
    e: ProgressEvent,
    c: bool,
    now: u64,
)
    ensures
        e is InspectorStarted ==> (plain_line(order, steps, probes, t, e, c, now) matches Some(l) && "\u{25b8} "@.is_prefix_of(l.0)),
        (e is StepStarted || e is StepFinished || e is ProbeStarted || e is ProbeFinished)
            ==> (plain_line(order, steps, probes, t, e, c, now) matches Some(l) && "    "@.is_prefix_of(l.0)),
        c && (e matches ProgressEvent::InspectorFinished { outcome: InspectorOutcome::Complete, .. })
            ==> (plain_line(order, steps, probes, t, e, c, now) matches Some(l)
                && (green() + "\u{2713}"@ + crate::progress::reset_code()).is_prefix_of(l.0)),
{
    reveal_strlit("\u{25b8} ");
    reveal_strlit("    ");
    reveal_strlit("    \u{25b8} ");
    match e {
        ProgressEvent::InspectorStarted(id) => {
            lemma_prefix("\u{25b8} "@, display_name(order, id));
        },
        ProgressEvent::InspectorFinished { id, outcome } => {
            if c && outcome is Complete {
                let head = green() + "\u{2713}"@ + crate::progress::reset_code();
                let l = plain_line(order, steps, probes, t, e, c, now).unwrap().0;
                assert(inspector_symbol(outcome, c) == head);
                let rest = " "@ + pad_right(display_name(order, id), 40) + " "@ + inspector_suffix(outcome, plain_label(t));
                assert(l =~= head + rest);
                lemma_prefix(head, rest);
            }
        },
        ProgressEvent::StepStarted { step, .. } => {
            assert("    \u{25b8} "@ =~= "    "@ + "\u{25b8} "@);
            let l = plain_line(order, steps, probes, t, e, c, now).unwrap().0;
            assert(l =~= "    "@ + ("\u{25b8} "@ + steps[step_index(step)]));
            lemma_prefix("    "@, "\u{25b8} "@ + steps[step_index(step)]);
        },
        ProgressEvent::StepFinished { step, outcome, .. } => {
            let l = plain_line(order, steps, probes, t, e, c, now).unwrap().0;
            let rest = step_symbol(outcome, c) + " "@ + pad_right(steps[step_index(step)], 36) + " "@ + step_suffix(outcome, t.step_metric);
            assert(l =~= "    "@ + rest);
            lemma_prefix("    "@, rest);
        },
        ProgressEvent::Metric { .. } => {},
        ProgressEvent::ProbeStarted { probe, .. } => {
            assert("    \u{25b8} "@ =~= "    "@ + "\u{25b8} "@);
            let l = plain_line(order, steps, probes, t, e, c, now).unwrap().0;
            assert(l =~= "    "@ + ("\u{25b8} "@ + probes[probe_index(probe)]));
            lemma_prefix("    "@, "\u{25b8} "@ + probes[probe_index(probe)]);
        },
        ProgressEvent::ProbeFinished { probe, outcome, .. } => {
            let l = plain_line(order, steps, probes, t, e, c, now).unwrap().0;
            let rest = probe_symbol(outcome, c) + " "@ + pad_right(probes[probe_index(probe)], 36) + " "@ + probe_suffix(outcome);
            assert(l =~= "    "@ + rest);
            lemma_prefix("    "@, rest);
        },
    }
}

} // verus!
