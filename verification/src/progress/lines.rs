//! The append-only progress renderers: plain (symbols, optional color) and
//! flat (numbered, no escapes). Each keeps a small tally per inspector
//! between events and writes at most one line per event.

use vstd::prelude::*;

use crate::progress::checklist::{
    dim, event_inspector, green, metric_or_done, probe_index, probe_slot, push_colored, push_metric, red,
    step_index, step_slot, yellow, InspectorId, InspectorOutcome, MetricKind, ProbeOutcome, ProgressEvent,
    StepId, StepOutcome,
};
use crate::progress::colored_spec;
use crate::text::{decimal, pad_right, push_decimal, push_padded, push_str, string_views};

verus! {

/// Position of an inspector in the tally table.
pub open spec fn inspector_index(id: InspectorId) -> int {
    match id {
        InspectorId::Rpm => 0,
        InspectorId::Services => 1,
        InspectorId::Storage => 2,
        InspectorId::KernelBoot => 3,
        InspectorId::Network => 4,
        InspectorId::Containers => 5,
        InspectorId::UsersGroups => 6,
        InspectorId::ScheduledTasks => 7,
        InspectorId::Config => 8,
        InspectorId::Selinux => 9,
        InspectorId::NonRpmSoftware => 10,
    }
}

fn inspector_slot(id: InspectorId) -> (i: usize)
    ensures
        i == inspector_index(id),
{
    match id {
        InspectorId::Rpm => 0,
        InspectorId::Services => 1,
        InspectorId::Storage => 2,
        InspectorId::KernelBoot => 3,
        InspectorId::Network => 4,
        InspectorId::Containers => 5,
        InspectorId::UsersGroups => 6,
        InspectorId::ScheduledTasks => 7,
        InspectorId::Config => 8,
        InspectorId::Selinux => 9,
        InspectorId::NonRpmSoftware => 10,
    }
}

fn event_inspector_exec(e: &ProgressEvent) -> (id: InspectorId)
    ensures
        id == event_inspector(*e),
{
    match e {
        ProgressEvent::InspectorStarted(id) => *id,
        ProgressEvent::InspectorFinished { id, .. } => *id,
        ProgressEvent::StepStarted { inspector, .. } => *inspector,
        ProgressEvent::StepFinished { inspector, .. } => *inspector,
        ProgressEvent::Metric { inspector, .. } => *inspector,
        ProgressEvent::ProbeStarted { inspector, .. } => *inspector,
        ProgressEvent::ProbeFinished { inspector, .. } => *inspector,
    }
}

/// What a renderer remembers of one inspector between events.
#[derive(Debug, Clone, Copy)]
pub struct Tally {
    /// When the inspector started, on the caller's millisecond clock.
    pub started_ms: Option<u64>,
    /// Metric of the current step, consumed when the step finishes.
    pub step_metric: Option<(MetricKind, usize)>,
    /// Last metric of the inspector, for its completion line.
    pub inspector_metric: Option<(MetricKind, usize)>,
    /// Probes that found something, once a probe has started.
    pub probes_found: Option<usize>,
}

pub open spec fn empty_tally() -> Tally {
    Tally { started_ms: None, step_metric: None, inspector_metric: None, probes_found: None }
}

pub open spec fn found_so_far(t: Tally) -> nat {
    match t.probes_found {
        Some(n) => n as nat,
        None => 0,
    }
}

/// How an event changes the tally of its inspector: a start resets it,
/// a finish forgets it, a step's end consumes the step metric, a metric
/// is both the step's and the inspector's, and a probe that found
/// something is counted.
pub open spec fn tally_step(t: Tally, e: ProgressEvent, now: u64) -> Tally {
    match e {
        ProgressEvent::InspectorStarted(_) => Tally { started_ms: Some(now), ..empty_tally() },
        ProgressEvent::InspectorFinished { .. } => empty_tally(),
        ProgressEvent::StepStarted { .. } => t,
        ProgressEvent::StepFinished { .. } => Tally { step_metric: None, ..t },
        ProgressEvent::Metric { kind, value, .. } => Tally {
            step_metric: Some((kind, value)),
            inspector_metric: Some((kind, value)),
            ..t
        },
        ProgressEvent::ProbeStarted { .. } => Tally { probes_found: Some(found_so_far(t) as usize), ..t },
        ProgressEvent::ProbeFinished { outcome, .. } => match outcome {
            ProbeOutcome::Found { .. } => Tally { probes_found: Some((found_so_far(t) + 1) as usize), ..t },
            ProbeOutcome::Empty => t,
        },
    }
}

/// The tally table after an event: only its inspector's entry changes.
pub open spec fn tallies_step(ts: Seq<Tally>, e: ProgressEvent, now: u64) -> Seq<Tally> {
    let i = inspector_index(event_inspector(e));
    ts.update(i, tally_step(ts[i], e, now))
}

/// The probe count of the event's inspector can still grow.
pub open spec fn has_room(ts: Seq<Tally>, e: ProgressEvent) -> bool {
    match e {
        ProgressEvent::ProbeFinished { inspector, outcome: ProbeOutcome::Found { .. }, .. } =>
            found_so_far(ts[inspector_index(inspector)]) < usize::MAX,
        _ => true,
    }
}

fn tally_after(t: Tally, e: &ProgressEvent, now: u64) -> (r: Tally)
    requires
        match *e {
            ProgressEvent::ProbeFinished { outcome: ProbeOutcome::Found { .. }, .. } => found_so_far(t) < usize::MAX,
            _ => true,
        },
    ensures
        r == tally_step(t, *e, now),
{
    let so_far: usize = match t.probes_found {
        Some(n) => n,
        None => 0,
    };
    match e {
        ProgressEvent::InspectorStarted(_) => Tally { started_ms: Some(now), step_metric: None, inspector_metric: None, probes_found: None },
        ProgressEvent::InspectorFinished { .. } => Tally { started_ms: None, step_metric: None, inspector_metric: None, probes_found: None },
        ProgressEvent::StepStarted { .. } => t,
        ProgressEvent::StepFinished { .. } => Tally { step_metric: None, ..t },
        ProgressEvent::Metric { kind, value, .. } => Tally {
            step_metric: Some((*kind, *value)),
            inspector_metric: Some((*kind, *value)),
            ..t
        },
        ProgressEvent::ProbeStarted { .. } => Tally { probes_found: Some(so_far), ..t },
        ProgressEvent::ProbeFinished { outcome, .. } => match outcome {
            ProbeOutcome::Found { .. } => Tally { probes_found: Some(so_far + 1), ..t },
            ProbeOutcome::Empty => t,
        },
    }
}

/// Apply an event to the tally table.
fn update_tallies(ts: &mut Vec<Tally>, e: &ProgressEvent, now: u64)
    requires
        old(ts)@.len() == 11,
        has_room(old(ts)@, *e),
    ensures
        final(ts)@ == tallies_step(old(ts)@, *e, now),
{
    let i = inspector_slot(event_inspector_exec(e));
    let t = tally_after(ts[i], e, now);
    ts.set(i, t);
}

// ---- display names ----

/// Display names: the inspectors in display order with their names, and
/// the names of the steps and probes (in the order of their enums).
pub struct DisplayNames {
    pub order: Vec<(InspectorId, String)>,
    pub steps: Vec<String>,
    pub probes: Vec<String>,
}

pub open spec fn order_view(order: Seq<(InspectorId, String)>) -> Seq<(InspectorId, Seq<char>)> {
    order.map_values(|o: (InspectorId, String)| (o.0, o.1@))
}

/// The first position of `id` in the display order.
pub open spec fn position_from(order: Seq<(InspectorId, Seq<char>)>, id: InspectorId, i: int) -> Option<int>
    decreases order.len() - i,
{
    if i < 0 || i >= order.len() {
        None
    } else if order[i].0 == id {
        Some(i)
    } else {
        position_from(order, id, i + 1)
    }
}

/// The name an inspector is shown by.
pub open spec fn display_name(order: Seq<(InspectorId, Seq<char>)>, id: InspectorId) -> Seq<char> {
    match position_from(order, id, 0) {
        Some(i) => order[i].1,
        None => Seq::empty(),
    }
}

/// An inspector's one-based position in the display order.
pub open spec fn display_position(order: Seq<(InspectorId, Seq<char>)>, id: InspectorId) -> int {
    match position_from(order, id, 0) {
        Some(i) => i + 1,
        None => 0,
    }
}

impl DisplayNames {
    /// Every inspector is listed, and every step and probe is named.
    pub open spec fn wf(&self) -> bool {
        &&& self.steps@.len() == 9
        &&& self.probes@.len() == 4
        &&& forall|id: InspectorId| #[trigger] position_from(order_view(self.order@), id, 0) is Some
    }

    /// The position of `id` in the display order.
    fn position(&self, id: InspectorId) -> (i: usize)
        requires
            self.wf(),
        ensures
            position_from(order_view(self.order@), id, 0) == Some(i as int),
            i < self.order@.len(),
    {
        let ghost ov = order_view(self.order@);
        assert(position_from(ov, id, 0) is Some);
        let mut i: usize = 0;
        while i < self.order.len()
            invariant
                0 <= i <= self.order@.len(),
                ov == order_view(self.order@),
                position_from(ov, id, 0) is Some,
                position_from(ov, id, 0) == position_from(ov, id, i as int),
            decreases self.order@.len() - i,
        {
            assert(ov[i as int].0 == self.order@[i as int].0);
            if self.order[i].0 == id {
                return i;
            }
            i = i + 1;
        }
        i
    }
}

// ---- line text shared by both renderers ----

/// A line written for an event: its text and, for an inspector that
/// finished complete or degraded after a recorded start, the milliseconds
/// it took (the writer appends them as seconds).
pub struct EventLine {
    pub text: String,
    pub elapsed_ms: Option<u64>,
}

pub open spec fn line_view(l: Option<EventLine>) -> Option<(Seq<char>, Option<u64>)> {
    match l {
        Some(l) => Some((l.text@, l.elapsed_ms)),
        None => None,
    }
}

/// Milliseconds since `started`, when a start was recorded.
pub open spec fn elapsed_ms(started: Option<u64>, now: u64) -> Option<u64> {
    match started {
        Some(t) => Some(if now >= t { (now - t) as u64 } else { 0 }),
        None => None,
    }
}

/// The elapsed time shown with a finished inspector: complete and
/// degraded outcomes only.
pub open spec fn finish_elapsed(o: InspectorOutcome, started: Option<u64>, now: u64) -> Option<u64> {
    match o {
        InspectorOutcome::Complete => elapsed_ms(started, now),
        InspectorOutcome::Degraded { .. } => elapsed_ms(started, now),
        _ => None,
    }
}

/// The text after an inspector's name when it finishes; `label` is the
/// completion label.
pub open spec fn inspector_suffix(o: InspectorOutcome, label: Seq<char>) -> Seq<char> {
    match o {
        InspectorOutcome::Complete => label,
        InspectorOutcome::Skipped { reason } => "skipped ("@ + reason@ + ")"@,
        InspectorOutcome::Degraded { reason } => "degraded: "@ + reason@,
        InspectorOutcome::Failed { reason } => "failed: "@ + reason@,
        InspectorOutcome::Interrupted => "interrupted"@,
    }
}

/// The text after a step's name when it finishes.
pub open spec fn step_suffix(o: StepOutcome, metric: Option<(MetricKind, usize)>) -> Seq<char> {
    match o {
        StepOutcome::Complete => metric_or_done(metric),
        StepOutcome::Degraded { reason } => "degraded: "@ + reason@,
        StepOutcome::Failed { reason } => "failed: "@ + reason@,
        StepOutcome::Skipped { reason } => "skipped ("@ + reason@ + ")"@,
        StepOutcome::Interrupted => "interrupted"@,
    }
}

/// The text after a probe's name when it finishes.
pub open spec fn probe_suffix(o: ProbeOutcome) -> Seq<char> {
    match o {
        ProbeOutcome::Found { count } => decimal(count as nat) + " found"@,
        ProbeOutcome::Empty => "none"@,
    }
}

fn push_inspector_suffix(s: &mut String, o: &InspectorOutcome, label: &str)
    ensures
        final(s)@ == old(s)@ + inspector_suffix(*o, label@),
{
    match o {
        InspectorOutcome::Complete => push_str(s, label),
        InspectorOutcome::Skipped { reason } => {
            push_str(s, "skipped (");
            push_str(s, reason.as_str());
            push_str(s, ")");
        },
        InspectorOutcome::Degraded { reason } => {
            push_str(s, "degraded: ");
            push_str(s, reason.as_str());
        },
        InspectorOutcome::Failed { reason } => {
            push_str(s, "failed: ");
            push_str(s, reason.as_str());
        },
        InspectorOutcome::Interrupted => push_str(s, "interrupted"),
    }
    assert(s@ =~= old(s)@ + inspector_suffix(*o, label@));
}

fn push_step_suffix(s: &mut String, o: &StepOutcome, metric: Option<(MetricKind, usize)>)
    ensures
        final(s)@ == old(s)@ + step_suffix(*o, metric),
{
    match o {
        StepOutcome::Complete => push_metric(s, metric),
        StepOutcome::Degraded { reason } => {
            push_str(s, "degraded: ");
            push_str(s, reason.as_str());
        },
        StepOutcome::Failed { reason } => {
            push_str(s, "failed: ");
            push_str(s, reason.as_str());
        },
        StepOutcome::Skipped { reason } => {
            push_str(s, "skipped (");
            push_str(s, reason.as_str());
            push_str(s, ")");
        },
        StepOutcome::Interrupted => push_str(s, "interrupted"),
    }
    assert(s@ =~= old(s)@ + step_suffix(*o, metric));
}

fn push_probe_suffix(s: &mut String, o: ProbeOutcome)
    ensures
        final(s)@ == old(s)@ + probe_suffix(o),
{
    match o {
        ProbeOutcome::Found { count } => {
            push_decimal(s, count);
            push_str(s, " found");
        },
        ProbeOutcome::Empty => push_str(s, "none"),
    }
    assert(s@ =~= old(s)@ + probe_suffix(o));
}

fn finish_elapsed_exec(o: &InspectorOutcome, started: Option<u64>, now: u64) -> (r: Option<u64>)
    ensures
        r == finish_elapsed(*o, started, now),
{
    let e = match started {
        Some(t) => Some(if now >= t { now - t } else { 0 }),
        None => None,
    };
    match o {
        InspectorOutcome::Complete => e,
        InspectorOutcome::Degraded { .. } => e,
        _ => None,
    }
}


/// The symbol of an inspector's outcome.
pub open spec fn inspector_symbol(o: InspectorOutcome, c: bool) -> Seq<char> {
    match o {
        InspectorOutcome::Complete => colored_spec("\u{2713}"@, green(), c),
        InspectorOutcome::Skipped { .. } => colored_spec("\u{2013}"@, dim(), c),
        InspectorOutcome::Degraded { .. } => colored_spec("~"@, yellow(), c),
        InspectorOutcome::Failed { .. } => colored_spec("\u{2717}"@, red(), c),
        InspectorOutcome::Interrupted => colored_spec("\u{25a0}"@, red(), c),
    }
}

/// The symbol of a step's outcome.
pub open spec fn step_symbol(o: StepOutcome, c: bool) -> Seq<char> {
    match o {
        StepOutcome::Complete => colored_spec("\u{2713}"@, green(), c),
        StepOutcome::Skipped { .. } => colored_spec("\u{2013}"@, dim(), c),
        StepOutcome::Degraded { .. } => colored_spec("~"@, yellow(), c),
        StepOutcome::Failed { .. } => colored_spec("\u{2717}"@, red(), c),
        StepOutcome::Interrupted => colored_spec("\u{25a0}"@, red(), c),
    }
}

/// The symbol of a probe's outcome.
pub open spec fn probe_symbol(o: ProbeOutcome, c: bool) -> Seq<char> {
    match o {
        ProbeOutcome::Found { .. } => colored_spec("\u{2713}"@, green(), c),
        ProbeOutcome::Empty => colored_spec("\u{2013}"@, dim(), c),
    }
}

fn push_inspector_symbol(s: &mut String, o: &InspectorOutcome, c: bool)
    ensures
        final(s)@ == old(s)@ + inspector_symbol(*o, c),
{
    match o {
        InspectorOutcome::Complete => push_colored(s, "\u{2713}", "\x1b[32m", c),
        InspectorOutcome::Skipped { .. } => push_colored(s, "\u{2013}", "\x1b[2m", c),
        InspectorOutcome::Degraded { .. } => push_colored(s, "~", "\x1b[33m", c),
        InspectorOutcome::Failed { .. } => push_colored(s, "\u{2717}", "\x1b[31m", c),
        InspectorOutcome::Interrupted => push_colored(s, "\u{25a0}", "\x1b[31m", c),
    }
}

fn push_step_symbol(s: &mut String, o: &StepOutcome, c: bool)
    ensures
        final(s)@ == old(s)@ + step_symbol(*o, c),
{
    match o {
        StepOutcome::Complete => push_colored(s, "\u{2713}", "\x1b[32m", c),
        StepOutcome::Skipped { .. } => push_colored(s, "\u{2013}", "\x1b[2m", c),
        StepOutcome::Degraded { .. } => push_colored(s, "~", "\x1b[33m", c),
        StepOutcome::Failed { .. } => push_colored(s, "\u{2717}", "\x1b[31m", c),
        StepOutcome::Interrupted => push_colored(s, "\u{25a0}", "\x1b[31m", c),
    }
}

fn push_probe_symbol(s: &mut String, o: ProbeOutcome, c: bool)
    ensures
        final(s)@ == old(s)@ + probe_symbol(o, c),
{
    match o {
        ProbeOutcome::Found { .. } => push_colored(s, "\u{2713}", "\x1b[32m", c),
        ProbeOutcome::Empty => push_colored(s, "\u{2013}", "\x1b[2m", c),
    }
}

// ---- plain ----

/// The plain completion label: the ecosystem count when probes ran,
/// else the last metric, else `done`.
pub open spec fn plain_label(t: Tally) -> Seq<char> {
    match t.probes_found {
        Some(n) => if n == 0 { "none found"@ } else { decimal(n as nat) + " ecosystems"@ },
        None => metric_or_done(t.inspector_metric),
    }
}

/// The line the plain renderer writes for an event, given the tally of
/// the event's inspector before the event.
pub open spec fn plain_line(order: Seq<(InspectorId, Seq<char>)>, steps: Seq<Seq<char>>, probes: Seq<Seq<char>>, t: Tally, e: ProgressEvent, c: bool, now: u64) -> Option<(Seq<char>, Option<u64>)> {
    match e {
        ProgressEvent::InspectorStarted(id) => Some(("\u{25b8} "@ + display_name(order, id), None)),
        ProgressEvent::InspectorFinished { id, outcome } => Some((
            inspector_symbol(outcome, c) + " "@ + pad_right(display_name(order, id), 40) + " "@ + inspector_suffix(outcome, plain_label(t)),
            finish_elapsed(outcome, t.started_ms, now),
        )),
        ProgressEvent::StepStarted { step, .. } => Some(("    \u{25b8} "@ + steps[step_index(step)], None)),
        ProgressEvent::StepFinished { step, outcome, .. } => Some((
            "    "@ + step_symbol(outcome, c) + " "@ + pad_right(steps[step_index(step)], 36) + " "@ + step_suffix(outcome, t.step_metric),
            None,
        )),
        ProgressEvent::Metric { .. } => None,
        ProgressEvent::ProbeStarted { probe, .. } => Some(("    \u{25b8} "@ + probes[probe_index(probe)], None)),
        ProgressEvent::ProbeFinished { probe, outcome, .. } => Some((
            "    "@ + probe_symbol(outcome, c) + " "@ + pad_right(probes[probe_index(probe)], 36) + " "@ + probe_suffix(outcome),
            None,
        )),
    }
}

fn plain_label_exec(t: Tally) -> (s: String)
    ensures
        s@ == plain_label(t),
{
    let mut s = String::new();
    match t.probes_found {
        Some(n) => {
            if n == 0 {
                push_str(&mut s, "none found");
            } else {
                push_decimal(&mut s, n);
                push_str(&mut s, " ecosystems");
            }
        },
        None => push_metric(&mut s, t.inspector_metric),
    }
    assert(s@ =~= plain_label(t));
    s
}

/// Append-only renderer with symbols and optional color.
pub struct PlainRenderer {
    pub tallies: Vec<Tally>,
    pub use_color: bool,
    pub names: DisplayNames,
}

impl PlainRenderer {
    pub open spec fn wf(&self) -> bool {
        self.tallies@.len() == 11 && self.names.wf()
    }

    /// A renderer that has seen no event.
    pub fn new(names: DisplayNames, use_color: bool) -> (r: PlainRenderer)
        requires
            names.wf(),
        ensures
            r.wf(),
            r.tallies@ == Seq::new(11, |i: int| empty_tally()),
            r.use_color == use_color,
            r.names == names,
    {
        let mut tallies: Vec<Tally> = Vec::new();
        let mut i: usize = 0;
        while i < 11
            invariant
                0 <= i <= 11,
                tallies@ == Seq::new(i as nat, |k: int| empty_tally()),
            decreases 11 - i,
        {
            tallies.push(Tally { started_ms: None, step_metric: None, inspector_metric: None, probes_found: None });
            assert(tallies@ =~= Seq::new((i + 1) as nat, |k: int| empty_tally()));
            i = i + 1;
        }
        PlainRenderer { tallies, use_color, names }
    }

    /// Take an event received at `now_ms`: update the tallies and return
    /// the line to write, if any.
    pub fn handle(&mut self, event: ProgressEvent, now_ms: u64) -> (line: Option<EventLine>)
        requires
            old(self).wf(),
            has_room(old(self).tallies@, event),
        ensures
            final(self).wf(),
            final(self).tallies@ == tallies_step(old(self).tallies@, event, now_ms),
            final(self).use_color == old(self).use_color,
            final(self).names == old(self).names,
            line_view(line) == plain_line(order_view(old(self).names.order@), string_views(old(self).names.steps@),
                string_views(old(self).names.probes@), old(self).tallies@[inspector_index(event_inspector(event))], event,
                old(self).use_color, now_ms),
    {
        let t = self.tallies[inspector_slot(event_inspector_exec(&event))];
        let line = self.line_for(&event, t, now_ms);
        update_tallies(&mut self.tallies, &event, now_ms);
        line
    }

    fn line_for(&self, e: &ProgressEvent, t: Tally, now: u64) -> (line: Option<EventLine>)
        requires
            self.wf(),
        ensures
            line_view(line) == plain_line(order_view(self.names.order@), string_views(self.names.steps@),
                string_views(self.names.probes@), t, *e, self.use_color, now),
    {
        let c = self.use_color;
        let ghost order = order_view(self.names.order@);
        let mut s = String::new();
        match e {
            ProgressEvent::InspectorStarted(id) => {
                let p = self.names.position(*id);
                push_str(&mut s, "\u{25b8} ");
                push_str(&mut s, self.names.order[p].1.as_str());
                assert(s@ =~= "\u{25b8} "@ + display_name(order, *id));
                Some(EventLine { text: s, elapsed_ms: None })
            },
            ProgressEvent::InspectorFinished { id, outcome } => {
                let p = self.names.position(*id);
                push_inspector_symbol(&mut s, outcome, c);
                push_str(&mut s, " ");
                push_padded(&mut s, self.names.order[p].1.as_str(), 40);
                push_str(&mut s, " ");
                let label = plain_label_exec(t);
                push_inspector_suffix(&mut s, outcome, label.as_str());
                assert(s@ =~= inspector_symbol(*outcome, c) + " "@ + pad_right(display_name(order, *id), 40) + " "@
                    + inspector_suffix(*outcome, plain_label(t)));
                Some(EventLine { text: s, elapsed_ms: finish_elapsed_exec(outcome, t.started_ms, now) })
            },
            ProgressEvent::StepStarted { step, .. } => {
                push_str(&mut s, "    \u{25b8} ");
                push_str(&mut s, self.names.steps[step_slot(*step)].as_str());
                Some(EventLine { text: s, elapsed_ms: None })
            },
            ProgressEvent::StepFinished { step, outcome, .. } => {
                push_str(&mut s, "    ");
                push_step_symbol(&mut s, outcome, c);
                push_str(&mut s, " ");
                push_padded(&mut s, self.names.steps[step_slot(*step)].as_str(), 36);
                push_str(&mut s, " ");
                push_step_suffix(&mut s, outcome, t.step_metric);
                assert(s@ =~= "    "@ + step_symbol(*outcome, c) + " "@ + pad_right(string_views(self.names.steps@)[step_index(*step)], 36)
                    + " "@ + step_suffix(*outcome, t.step_metric));
                Some(EventLine { text: s, elapsed_ms: None })
            },
            ProgressEvent::Metric { .. } => None,
            ProgressEvent::ProbeStarted { probe, .. } => {
                push_str(&mut s, "    \u{25b8} ");
                push_str(&mut s, self.names.probes[probe_slot(*probe)].as_str());
                Some(EventLine { text: s, elapsed_ms: None })
            },
            ProgressEvent::ProbeFinished { probe, outcome, .. } => {
                push_str(&mut s, "    ");
                push_probe_symbol(&mut s, *outcome, c);
                push_str(&mut s, " ");
                push_padded(&mut s, self.names.probes[probe_slot(*probe)].as_str(), 36);
                push_str(&mut s, " ");
                push_probe_suffix(&mut s, *outcome);
                assert(s@ =~= "    "@ + probe_symbol(*outcome, c) + " "@ + pad_right(string_views(self.names.probes@)[probe_index(*probe)], 36)
                    + " "@ + probe_suffix(*outcome));
                Some(EventLine { text: s, elapsed_ms: None })
            },
        }
    }
}

// ---- flat ----

/// The flat completion label: `none found`, `1 ecosystem`, `N ecosystems`
/// when probes ran, else the last metric, else `done`.
pub open spec fn flat_label(t: Tally) -> Seq<char> {
    match t.probes_found {
        Some(n) => if n == 0 { "none found"@ } else if n == 1 { "1 ecosystem"@ } else { decimal(n as nat) + " ecosystems"@ },
        None => metric_or_done(t.inspector_metric),
    }
}

/// `[N/total] name` for an inspector.
pub open spec fn flat_head(order: Seq<(InspectorId, Seq<char>)>, id: InspectorId, total: usize) -> Seq<char> {
    "["@ + decimal(display_position(order, id) as nat) + "/"@ + decimal(total as nat) + "] "@ + display_name(order, id)
}

/// The line the flat renderer writes for an event, given the tally of the
/// event's inspector before the event.
pub open spec fn flat_line(order: Seq<(InspectorId, Seq<char>)>, steps: Seq<Seq<char>>, probes: Seq<Seq<char>>, total: usize, t: Tally, e: ProgressEvent, now: u64) -> Option<(Seq<char>, Option<u64>)> {
    match e {
        ProgressEvent::InspectorStarted(id) => Some((flat_head(order, id, total) + "..."@, None)),
        ProgressEvent::InspectorFinished { id, outcome } => Some((
            flat_head(order, id, total) + "... "@ + inspector_suffix(outcome, flat_label(t)),
            finish_elapsed(outcome, t.started_ms, now),
        )),
        ProgressEvent::StepStarted { step, .. } => Some(("  "@ + steps[step_index(step)] + "..."@, None)),
        ProgressEvent::StepFinished { step, outcome, .. } => Some((
            "  "@ + steps[step_index(step)] + "... "@ + step_suffix(outcome, t.step_metric),
            None,
        )),
        ProgressEvent::Metric { .. } => None,
        ProgressEvent::ProbeStarted { probe, .. } => Some(("  "@ + probes[probe_index(probe)] + "..."@, None)),
        ProgressEvent::ProbeFinished { probe, outcome, .. } => Some((
            "  "@ + probes[probe_index(probe)] + "... "@ + probe_suffix(outcome),
            None,
        )),
    }
}

fn flat_label_exec(t: Tally) -> (s: String)
    ensures
        s@ == flat_label(t),
{
    let mut s = String::new();
    match t.probes_found {
        Some(n) => {
            if n == 0 {
                push_str(&mut s, "none found");
            } else if n == 1 {
                push_str(&mut s, "1 ecosystem");
            } else {
                push_decimal(&mut s, n);
                push_str(&mut s, " ecosystems");
            }
        },
        None => push_metric(&mut s, t.inspector_metric),
    }
    assert(s@ =~= flat_label(t));
    s
}

/// Append-only renderer for non-terminal output: numbered lines, no
/// escape sequences.
pub struct FlatRenderer {
    pub tallies: Vec<Tally>,
    /// Number of inspectors in the scan, shown as `[N/total]`.
    pub total: usize,
    pub names: DisplayNames,
}

impl FlatRenderer {
    pub open spec fn wf(&self) -> bool {
        self.tallies@.len() == 11 && self.names.wf()
    }

    /// A renderer that has seen no event.
    pub fn new(names: DisplayNames, total: usize) -> (r: FlatRenderer)
        requires
            names.wf(),
        ensures
            r.wf(),
            r.tallies@ == Seq::new(11, |i: int| empty_tally()),
            r.total == total,
            r.names == names,
    {
        let mut tallies: Vec<Tally> = Vec::new();
        let mut i: usize = 0;
        while i < 11
            invariant
                0 <= i <= 11,
                tallies@ == Seq::new(i as nat, |k: int| empty_tally()),
            decreases 11 - i,
        {
            tallies.push(Tally { started_ms: None, step_metric: None, inspector_metric: None, probes_found: None });
            assert(tallies@ =~= Seq::new((i + 1) as nat, |k: int| empty_tally()));
            i = i + 1;
        }
        FlatRenderer { tallies, total, names }
    }

    /// Take an event received at `now_ms`: update the tallies and return
    /// the line to write, if any.
    pub fn handle(&mut self, event: ProgressEvent, now_ms: u64) -> (line: Option<EventLine>)
        requires
            old(self).wf(),
            has_room(old(self).tallies@, event),
        ensures
            final(self).wf(),
            final(self).tallies@ == tallies_step(old(self).tallies@, event, now_ms),
            final(self).total == old(self).total,
            final(self).names == old(self).names,
            line_view(line) == flat_line(order_view(old(self).names.order@), string_views(old(self).names.steps@),
                string_views(old(self).names.probes@), old(self).total, old(self).tallies@[inspector_index(event_inspector(event))],
                event, now_ms),
    {
        let t = self.tallies[inspector_slot(event_inspector_exec(&event))];
        let line = self.line_for(&event, t, now_ms);
        update_tallies(&mut self.tallies, &event, now_ms);
        line
    }

    fn push_head(&self, s: &mut String, id: InspectorId)
        requires
            self.wf(),
        ensures
            final(s)@ == old(s)@ + flat_head(order_view(self.names.order@), id, self.total),
    {
        let p = self.names.position(id);
        let n = self.names.order.len();
        assert(p < n);
        push_str(s, "[");
        push_decimal(s, p + 1);
        push_str(s, "/");
        push_decimal(s, self.total);
        push_str(s, "] ");
        push_str(s, self.names.order[p].1.as_str());
        assert(s@ =~= old(s)@ + flat_head(order_view(self.names.order@), id, self.total));
    }

    fn line_for(&self, e: &ProgressEvent, t: Tally, now: u64) -> (line: Option<EventLine>)
        requires
            self.wf(),
        ensures
            line_view(line) == flat_line(order_view(self.names.order@), string_views(self.names.steps@),
                string_views(self.names.probes@), self.total, t, *e, now),
    {
        let ghost order = order_view(self.names.order@);
        let mut s = String::new();
        match e {
            ProgressEvent::InspectorStarted(id) => {
                self.push_head(&mut s, *id);
                push_str(&mut s, "...");
                Some(EventLine { text: s, elapsed_ms: None })
            },
            ProgressEvent::InspectorFinished { id, outcome } => {
                self.push_head(&mut s, *id);
                push_str(&mut s, "... ");
                let label = flat_label_exec(t);
                push_inspector_suffix(&mut s, outcome, label.as_str());
                assert(s@ =~= flat_head(order, *id, self.total) + "... "@ + inspector_suffix(*outcome, flat_label(t)));
                Some(EventLine { text: s, elapsed_ms: finish_elapsed_exec(outcome, t.started_ms, now) })
            },
            ProgressEvent::StepStarted { step, .. } => {
                push_str(&mut s, "  ");
                push_str(&mut s, self.names.steps[step_slot(*step)].as_str());
                push_str(&mut s, "...");
                Some(EventLine { text: s, elapsed_ms: None })
            },
            ProgressEvent::StepFinished { step, outcome, .. } => {
                push_str(&mut s, "  ");
                push_str(&mut s, self.names.steps[step_slot(*step)].as_str());
                push_str(&mut s, "... ");
                push_step_suffix(&mut s, outcome, t.step_metric);
                assert(s@ =~= "  "@ + string_views(self.names.steps@)[step_index(*step)] + "... "@ + step_suffix(*outcome, t.step_metric));
                Some(EventLine { text: s, elapsed_ms: None })
            },
            ProgressEvent::Metric { .. } => None,
            ProgressEvent::ProbeStarted { probe, .. } => {
                push_str(&mut s, "  ");
                push_str(&mut s, self.names.probes[probe_slot(*probe)].as_str());
                push_str(&mut s, "...");
                Some(EventLine { text: s, elapsed_ms: None })
            },
            ProgressEvent::ProbeFinished { probe, outcome, .. } => {
                push_str(&mut s, "  ");
                push_str(&mut s, self.names.probes[probe_slot(*probe)].as_str());
                push_str(&mut s, "... ");
                push_probe_suffix(&mut s, *outcome);
                assert(s@ =~= "  "@ + string_views(self.names.probes@)[probe_index(*probe)] + "... "@ + probe_suffix(*outcome));
                Some(EventLine { text: s, elapsed_ms: None })
            },
        }
    }
}

/// Tallies are per inspector: an event changes only the entry of its own
/// inspector, so one inspector's metric or probe count never shows on
/// another's lines.
pub proof fn law_tallies_per_inspector(ts: Seq<Tally>, e: ProgressEvent, now: u64, id: InspectorId)
    requires
        ts.len() == 11,
        id != event_inspector(e),
    ensures
        tallies_step(ts, e, now)[inspector_index(id)] == ts[inspector_index(id)],
        tallies_step(ts, e, now).len() == 11,
{
}

/// A start forgets what an earlier run of the inspector recorded, and a
/// finished step's metric does not carry over to the next step.
pub proof fn law_metrics_reset(t: Tally, e: ProgressEvent, now: u64)
    ensures
        e is InspectorStarted ==> tally_step(t, e, now).step_metric is None
            && tally_step(t, e, now).inspector_metric is None && tally_step(t, e, now).probes_found is None,
        e is StepFinished ==> tally_step(t, e, now).step_metric is None,
        e is InspectorFinished ==> tally_step(t, e, now) == empty_tally(),
{
}

/// The tally table after a run of events, each with the time it arrived.
pub open spec fn tallies_run(ts: Seq<Tally>, events: Seq<(ProgressEvent, u64)>) -> Seq<Tally>
    decreases events.len(),
{
    if events.len() == 0 {
        ts
    } else {
        tallies_step(tallies_run(ts, events.drop_last()), events.last().0, events.last().1)
    }
}

/// Since its start, inspector `b` got only step events: no metric and no
/// probe.
pub open spec fn quiet_since_start(events: Seq<(ProgressEvent, u64)>, b: InspectorId) -> bool {
    &&& events.len() > 0
    &&& events[0].0 == ProgressEvent::InspectorStarted(b)
    &&& forall|m: int| 1 <= m < events.len() && event_inspector(#[trigger] events[m].0) == b
        ==> (events[m].0 is StepStarted || events[m].0 is StepFinished)
}

proof fn lemma_quiet_tally(ts: Seq<Tally>, events: Seq<(ProgressEvent, u64)>, b: InspectorId)
    requires
        ts.len() == 11,
        quiet_since_start(events, b),
    ensures
        tallies_run(ts, events).len() == 11,
        tallies_run(ts, events)[inspector_index(b)].inspector_metric is None,
        tallies_run(ts, events)[inspector_index(b)].step_metric is None,
        tallies_run(ts, events)[inspector_index(b)].probes_found is None,
    decreases events.len(),
{
    let init = events.drop_last();
    let e = events.last().0;
    let now = events.last().1;
    if events.len() == 1 {
        assert(init.len() == 0);
        assert(tallies_run(ts, init) == ts);
        assert(e == events[0].0);
    } else {
        assert(init[0] == events[0]);
        assert forall|m: int| 1 <= m < init.len() && event_inspector(#[trigger] init[m].0) == b
            implies (init[m].0 is StepStarted || init[m].0 is StepFinished) by {
            assert(init[m] == events[m]);
        }
        lemma_quiet_tally(ts, init, b);
        let prev = tallies_run(ts, init);
        assert(events[events.len() - 1] == events.last());
        if event_inspector(e) == b {
            assert(e is StepStarted || e is StepFinished);
        } else {
            law_tallies_per_inspector(prev, e, now, b);
        }
    }
}

/// An inspector that got no metric and no probe since it started is
/// reported `done`, whatever other inspectors reported meanwhile: the flat
/// line of its finish (complete) and of each of its completed steps says
/// `done`, never another inspector's metric.
pub proof fn law_quiet_inspector_done(
    ts: Seq<Tally>,
    events: Seq<(ProgressEvent, u64)>,
    b: InspectorId,
    order: Seq<(InspectorId, Seq<char>)>,
    steps: Seq<Seq<char>>,
    probes: Seq<Seq<char>>,
    total: usize,
    step: StepId,
    now: u64,
)
    requires
        ts.len() == 11,
        quiet_since_start(events, b),
    ensures
        ({
            let t = tallies_run(ts, events)[inspector_index(b)];
            &&& flat_label(t) == "done"@
            &&& flat_line(order, steps, probes, total, t, ProgressEvent::InspectorFinished { id: b, outcome: InspectorOutcome::Complete }, now)
                matches Some(l) && l.0 == flat_head(order, b, total) + "... "@ + "done"@
            &&& flat_line(order, steps, probes, total, t, ProgressEvent::StepFinished { inspector: b, step, outcome: StepOutcome::Complete }, now)
                matches Some(l) && l.0 == "  "@ + steps[step_index(step)] + "... "@ + "done"@
        }),
{
    lemma_quiet_tally(ts, events, b);
}

} // verus!
