//! The block-redraw checklist's model: one row per inspector with its
//! sub-steps and probes, how progress events change it, and the lines it
//! renders (with pending rows dropped first when the terminal is short).

use vstd::prelude::*;

use crate::progress::colored_spec;
use crate::text::{decimal, pad_right, push_decimal, push_decimal_u64, push_padded, push_str, string_views};

verus! {

/// The inspectors of a scan.
#[derive(Debug, Clone, Copy, PartialEq, Eq, Structural)]
pub enum InspectorId {
    Rpm,
    Services,
    Storage,
    KernelBoot,
    Network,
    Containers,
    UsersGroups,
    ScheduledTasks,
    Config,
    Selinux,
    NonRpmSoftware,
}

/// Sub-steps of the RPM and config inspectors.
#[derive(Debug, Clone, Copy, PartialEq, Eq, Structural)]
pub enum StepId {
    QueryingPackages,
    ClassifyingPackages,
    ResolvingSourceRepos,
    ResolvingDepTree,
    VerifyingIntegrity,
    MappingFileOwnership,
    ApplyingRpmVerification,
    WalkingFilesystem,
    ClassifyingConfigs,
}

/// Probes of the non-RPM software inspector.
#[derive(Debug, Clone, Copy, PartialEq, Eq, Structural)]
pub enum ProbeId {
    PipPackages,
    NpmPackages,
    PythonVenvs,
    ElfBinaries,
}

/// What a metric counts.
#[derive(Debug, Clone, Copy, PartialEq, Eq, Structural)]
pub enum MetricKind {
    PackagesFound,
    ReposMapped,
}

/// How an inspector ended.
#[derive(Debug, Clone)]
pub enum InspectorOutcome {
    Complete,
    Skipped { reason: String },
    Degraded { reason: String },
    Failed { reason: String },
    Interrupted,
}

/// How a sub-step ended.
#[derive(Debug, Clone)]
pub enum StepOutcome {
    Complete,
    Degraded { reason: String },
    Failed { reason: String },
    Skipped { reason: String },
    Interrupted,
}

/// How a probe ended.
#[derive(Debug, Clone, Copy, PartialEq, Eq, Structural)]
pub enum ProbeOutcome {
    Empty,
    Found { count: usize },
}

/// A progress event of a scan.
#[derive(Debug, Clone)]
pub enum ProgressEvent {
    InspectorStarted(InspectorId),
    InspectorFinished { id: InspectorId, outcome: InspectorOutcome },
    StepStarted { inspector: InspectorId, step: StepId },
    StepFinished { inspector: InspectorId, step: StepId, outcome: StepOutcome },
    Metric { inspector: InspectorId, kind: MetricKind, value: usize },
    ProbeStarted { inspector: InspectorId, probe: ProbeId },
    ProbeFinished { inspector: InspectorId, probe: ProbeId, outcome: ProbeOutcome },
}

/// State of an inspector row or a sub-step row.
#[derive(Debug, Clone)]
pub enum RowState {
    Pending,
    Active,
    Complete { elapsed_ms: u64 },
    Skipped { reason: String },
    Degraded { reason: String, elapsed_ms: u64 },
    Failed { reason: String },
    Interrupted,
}

/// A sub-step row.
#[derive(Debug, Clone)]
pub struct SubStepRow {
    pub step: StepId,
    pub state: RowState,
    pub metric: Option<(MetricKind, usize)>,
}

/// State of a probe row; probes that found nothing are removed.
#[derive(Debug, Clone, Copy, PartialEq, Eq, Structural)]
pub enum ProbeRowState {
    Active,
    Found { count: usize },
}

/// A probe row.
#[derive(Debug, Clone, Copy, PartialEq, Eq, Structural)]
pub struct ProbeRow {
    pub probe: ProbeId,
    pub state: ProbeRowState,
}

/// One inspector's row.
#[derive(Debug, Clone)]
pub struct InspectorRow {
    pub id: InspectorId,
    /// The inspector's display name.
    pub name: String,
    pub state: RowState,
    /// When the inspector started, in milliseconds on the caller's clock.
    pub started_at_ms: Option<u64>,
    pub sub_steps: Vec<SubStepRow>,
    pub probes: Vec<ProbeRow>,
    /// Metric of the current step, consumed when the step finishes.
    pub last_metric: Option<(MetricKind, usize)>,
    /// Last metric of the inspector, shown on its completion line.
    pub inspector_metric: Option<(MetricKind, usize)>,
    /// Number of probes that found something (non-RPM software).
    pub probes_found_count: Option<usize>,
}

/// The checklist: the rows in display order and the rendering settings.
pub struct ChecklistState {
    pub rows: Vec<InspectorRow>,
    pub tick_count: u32,
    pub terminal_height: usize,
    pub use_color: bool,
    pub lines_rendered: usize,
    /// Display names of the steps, in the order of [`StepId`].
    pub step_names: Vec<String>,
    /// Display names of the probes, in the order of [`ProbeId`].
    pub probe_names: Vec<String>,
}

// ---- abstract values ----

pub enum RowStateV {
    Pending,
    Active,
    Complete { elapsed_ms: u64 },
    Skipped { reason: Seq<char> },
    Degraded { reason: Seq<char>, elapsed_ms: u64 },
    Failed { reason: Seq<char> },
    Interrupted,
}

pub open spec fn row_state_view(s: RowState) -> RowStateV {
    match s {
        RowState::Pending => RowStateV::Pending,
        RowState::Active => RowStateV::Active,
        RowState::Complete { elapsed_ms } => RowStateV::Complete { elapsed_ms },
        RowState::Skipped { reason } => RowStateV::Skipped { reason: reason@ },
        RowState::Degraded { reason, elapsed_ms } => RowStateV::Degraded { reason: reason@, elapsed_ms },
        RowState::Failed { reason } => RowStateV::Failed { reason: reason@ },
        RowState::Interrupted => RowStateV::Interrupted,
    }
}

pub struct SubStepV {
    pub step: StepId,
    pub state: RowStateV,
    pub metric: Option<(MetricKind, usize)>,
}

pub open spec fn sub_view(s: SubStepRow) -> SubStepV {
    SubStepV { step: s.step, state: row_state_view(s.state), metric: s.metric }
}

pub open spec fn subs_view(s: Seq<SubStepRow>) -> Seq<SubStepV> {
    s.map_values(|x: SubStepRow| sub_view(x))
}

#[verifier::ext_equal]
pub struct RowV {
    pub id: InspectorId,
    pub name: Seq<char>,
    pub state: RowStateV,
    pub started_at_ms: Option<u64>,
    pub sub_steps: Seq<SubStepV>,
    pub probes: Seq<ProbeRow>,
    pub last_metric: Option<(MetricKind, usize)>,
    pub inspector_metric: Option<(MetricKind, usize)>,
    pub probes_found_count: Option<usize>,
}

pub open spec fn row_view(r: InspectorRow) -> RowV {
    RowV {
        id: r.id,
        name: r.name@,
        state: row_state_view(r.state),
        started_at_ms: r.started_at_ms,
        sub_steps: subs_view(r.sub_steps@),
        probes: r.probes@,
        last_metric: r.last_metric,
        inspector_metric: r.inspector_metric,
        probes_found_count: r.probes_found_count,
    }
}

pub open spec fn rows_view(rs: Seq<InspectorRow>) -> Seq<RowV> {
    rs.map_values(|r: InspectorRow| row_view(r))
}

// ---- transitions ----

/// The first row of inspector `id`.
pub open spec fn find_row_from(rows: Seq<RowV>, id: InspectorId, i: int) -> Option<int>
    decreases rows.len() - i,
{
    if i < 0 || i >= rows.len() {
        None
    } else if rows[i].id == id {
        Some(i)
    } else {
        find_row_from(rows, id, i + 1)
    }
}

pub open spec fn pending_step(step: StepId) -> SubStepV {
    SubStepV { step, state: RowStateV::Pending, metric: None }
}

/// The sub-steps shown as soon as an inspector starts: six for RPM, three
/// for config, none added for the others.
pub open spec fn prepopulated(id: InspectorId, current: Seq<SubStepV>) -> Seq<SubStepV> {
    match id {
        InspectorId::Rpm => seq![
            pending_step(StepId::QueryingPackages),
            pending_step(StepId::ClassifyingPackages),
            pending_step(StepId::ResolvingSourceRepos),
            pending_step(StepId::ResolvingDepTree),
            pending_step(StepId::VerifyingIntegrity),
            pending_step(StepId::MappingFileOwnership),
        ],
        InspectorId::Config => seq![
            pending_step(StepId::ApplyingRpmVerification),
            pending_step(StepId::WalkingFilesystem),
            pending_step(StepId::ClassifyingConfigs),
        ],
        _ => current,
    }
}

/// The state an inspector's outcome gives its row.
pub open spec fn finished_state(o: InspectorOutcome, elapsed: u64) -> RowStateV {
    match o {
        InspectorOutcome::Complete => RowStateV::Complete { elapsed_ms: elapsed },
        InspectorOutcome::Skipped { reason } => RowStateV::Skipped { reason: reason@ },
        InspectorOutcome::Degraded { reason } => RowStateV::Degraded { reason: reason@, elapsed_ms: elapsed },
        InspectorOutcome::Failed { reason } => RowStateV::Failed { reason: reason@ },
        InspectorOutcome::Interrupted => RowStateV::Interrupted,
    }
}

/// A sub-step still open when its inspector ends takes the inspector's
/// outcome (with no elapsed time of its own).
pub open spec fn reconcile(s: SubStepV, o: InspectorOutcome) -> SubStepV {
    if s.state is Active || s.state is Pending {
        SubStepV { state: finished_state(o, 0), ..s }
    } else {
        s
    }
}

pub open spec fn reconcile_all(subs: Seq<SubStepV>, o: InspectorOutcome) -> Seq<SubStepV> {
    subs.map_values(|s: SubStepV| reconcile(s, o))
}

/// Number of probes that found something.
pub open spec fn found_count(ps: Seq<ProbeRow>) -> nat
    decreases ps.len(),
{
    if ps.len() == 0 {
        0
    } else {
        found_count(ps.drop_last()) + (if ps.last().state is Found { 1nat } else { 0nat })
    }
}

/// Milliseconds since `started`, or zero when the row never started.
pub open spec fn elapsed_since(started: Option<u64>, now: u64) -> u64 {
    match started {
        Some(t) => if now >= t { (now - t) as u64 } else { 0 },
        None => 0,
    }
}

/// The first sub-step row of `step`.
pub open spec fn find_step_from(subs: Seq<SubStepV>, step: StepId, i: int) -> Option<int>
    decreases subs.len() - i,
{
    if i < 0 || i >= subs.len() {
        None
    } else if subs[i].step == step {
        Some(i)
    } else {
        find_step_from(subs, step, i + 1)
    }
}

/// The state a step's outcome gives its row.
pub open spec fn step_state(o: StepOutcome) -> RowStateV {
    match o {
        StepOutcome::Complete => RowStateV::Complete { elapsed_ms: 0 },
        StepOutcome::Degraded { reason } => RowStateV::Degraded { reason: reason@, elapsed_ms: 0 },
        StepOutcome::Failed { reason } => RowStateV::Failed { reason: reason@ },
        StepOutcome::Skipped { reason } => RowStateV::Skipped { reason: reason@ },
        StepOutcome::Interrupted => RowStateV::Interrupted,
    }
}

/// The probes other than `probe`, in order.
pub open spec fn without_probe(ps: Seq<ProbeRow>, probe: ProbeId) -> Seq<ProbeRow>
    decreases ps.len(),
{
    if ps.len() == 0 {
        Seq::empty()
    } else {
        without_probe(ps.drop_last(), probe) + (if ps.last().probe != probe { seq![ps.last()] } else { Seq::empty() })
    }
}

/// The first probe row of `probe`.
pub open spec fn find_probe_from(ps: Seq<ProbeRow>, probe: ProbeId, i: int) -> Option<int>
    decreases ps.len() - i,
{
    if i < 0 || i >= ps.len() {
        None
    } else if ps[i].probe == probe {
        Some(i)
    } else {
        find_probe_from(ps, probe, i + 1)
    }
}

/// The inspector an event is about.
pub open spec fn event_inspector(e: ProgressEvent) -> InspectorId {
    match e {
        ProgressEvent::InspectorStarted(id) => id,
        ProgressEvent::InspectorFinished { id, .. } => id,
        ProgressEvent::StepStarted { inspector, .. } => inspector,
        ProgressEvent::StepFinished { inspector, .. } => inspector,
        ProgressEvent::Metric { inspector, .. } => inspector,
        ProgressEvent::ProbeStarted { inspector, .. } => inspector,
        ProgressEvent::ProbeFinished { inspector, .. } => inspector,
    }
}

/// How an event changes the row of its inspector, at time `now`.
pub open spec fn row_step(r: RowV, e: ProgressEvent, now: u64) -> RowV {
    match e {
        ProgressEvent::InspectorStarted(id) => RowV {
            state: RowStateV::Active,
            started_at_ms: Some(now),
            last_metric: None,
            inspector_metric: None,
            sub_steps: prepopulated(id, r.sub_steps),
            ..r
        },
        ProgressEvent::InspectorFinished { id, outcome } => RowV {
            probes_found_count: if id == InspectorId::NonRpmSoftware && outcome is Complete {
                Some(found_count(r.probes) as usize)
            } else {
                r.probes_found_count
            },
            sub_steps: reconcile_all(r.sub_steps, outcome),
            state: finished_state(outcome, elapsed_since(r.started_at_ms, now)),
            ..r
        },
        ProgressEvent::StepStarted { step, .. } => RowV {
            sub_steps: match find_step_from(r.sub_steps, step, 0) {
                Some(j) => r.sub_steps.update(j, SubStepV { state: RowStateV::Active, ..r.sub_steps[j] }),
                None => r.sub_steps.push(SubStepV { step, state: RowStateV::Active, metric: None }),
            },
            ..r
        },
        ProgressEvent::StepFinished { step, outcome, .. } => RowV {
            sub_steps: match find_step_from(r.sub_steps, step, 0) {
                Some(j) => r.sub_steps.update(j, SubStepV { metric: r.last_metric, state: step_state(outcome), ..r.sub_steps[j] }),
                None => r.sub_steps,
            },
            last_metric: None,
            ..r
        },
        ProgressEvent::Metric { kind, value, .. } => RowV {
            last_metric: Some((kind, value)),
            inspector_metric: Some((kind, value)),
            ..r
        },
        ProgressEvent::ProbeStarted { probe, .. } => RowV {
            probes: r.probes.push(ProbeRow { probe, state: ProbeRowState::Active }),
            ..r
        },
        ProgressEvent::ProbeFinished { probe, outcome, .. } => RowV {
            probes: match outcome {
                ProbeOutcome::Empty => without_probe(r.probes, probe),
                ProbeOutcome::Found { count } => match find_probe_from(r.probes, probe, 0) {
                    Some(j) => r.probes.update(j, ProbeRow { state: ProbeRowState::Found { count }, ..r.probes[j] }),
                    None => r.probes,
                },
            },
            ..r
        },
    }
}

/// How an event changes the checklist: only the first row of its
/// inspector changes; an event for an inspector without a row is ignored.
pub open spec fn checklist_step(rows: Seq<RowV>, e: ProgressEvent, now: u64) -> Seq<RowV> {
    match find_row_from(rows, event_inspector(e), 0) {
        Some(i) => rows.update(i, row_step(rows[i], e, now)),
        None => rows,
    }
}

} // verus!

verus! {

fn own(s: &String) -> (r: String)
    ensures
        r@ == s@,
{
    s.as_str().to_owned()
}

fn finished_state_exec(o: &InspectorOutcome, elapsed: u64) -> (s: RowState)
    ensures
        row_state_view(s) == finished_state(*o, elapsed),
{
    match o {
        InspectorOutcome::Complete => RowState::Complete { elapsed_ms: elapsed },
        InspectorOutcome::Skipped { reason } => RowState::Skipped { reason: own(reason) },
        InspectorOutcome::Degraded { reason } => RowState::Degraded { reason: own(reason), elapsed_ms: elapsed },
        InspectorOutcome::Failed { reason } => RowState::Failed { reason: own(reason) },
        InspectorOutcome::Interrupted => RowState::Interrupted,
    }
}

fn step_state_exec(o: &StepOutcome) -> (s: RowState)
    ensures
        row_state_view(s) == step_state(*o),
{
    match o {
        StepOutcome::Complete => RowState::Complete { elapsed_ms: 0 },
        StepOutcome::Degraded { reason } => RowState::Degraded { reason: own(reason), elapsed_ms: 0 },
        StepOutcome::Failed { reason } => RowState::Failed { reason: own(reason) },
        StepOutcome::Skipped { reason } => RowState::Skipped { reason: own(reason) },
        StepOutcome::Interrupted => RowState::Interrupted,
    }
}

fn pending(step: StepId) -> (s: SubStepRow)
    ensures
        sub_view(s) == pending_step(step),
{
    SubStepRow { step, state: RowState::Pending, metric: None }
}

fn prepopulated_exec(id: InspectorId, current: Vec<SubStepRow>) -> (v: Vec<SubStepRow>)
    ensures
        subs_view(v@) == prepopulated(id, subs_view(current@)),
{
    match id {
        InspectorId::Rpm => {
            let v = vec![
                pending(StepId::QueryingPackages),
                pending(StepId::ClassifyingPackages),
                pending(StepId::ResolvingSourceRepos),
                pending(StepId::ResolvingDepTree),
                pending(StepId::VerifyingIntegrity),
                pending(StepId::MappingFileOwnership),
            ];
            assert(subs_view(v@) =~= prepopulated(id, subs_view(current@)));
            v
        },
        InspectorId::Config => {
            let v = vec![
                pending(StepId::ApplyingRpmVerification),
                pending(StepId::WalkingFilesystem),
                pending(StepId::ClassifyingConfigs),
            ];
            assert(subs_view(v@) =~= prepopulated(id, subs_view(current@)));
            v
        },
        _ => current,
    }
}

fn reconcile_exec(subs: Vec<SubStepRow>, o: &InspectorOutcome) -> (v: Vec<SubStepRow>)
    ensures
        subs_view(v@) == reconcile_all(subs_view(subs@), *o),
{
    let ghost sv = subs_view(subs@);
    let mut out: Vec<SubStepRow> = Vec::new();
    let mut i: usize = 0;
    while i < subs.len()
        invariant
            0 <= i <= subs@.len(),
            sv == subs_view(subs@),
            subs_view(out@) == reconcile_all(sv, *o).take(i as int),
        decreases subs@.len() - i,
    {
        let s = &subs[i];
        let open = match s.state {
            RowState::Active | RowState::Pending => true,
            _ => false,
        };
        let n = if open {
            SubStepRow { step: s.step, state: finished_state_exec(o, 0), metric: s.metric }
        } else {
            SubStepRow { step: s.step, state: clone_state(&s.state), metric: s.metric }
        };
        assert(sub_view(n) == reconcile(sv[i as int], *o));
        let ghost before = out@;
        out.push(n);
        assert(subs_view(out@) =~= subs_view(before).push(sub_view(n)));
        assert(reconcile_all(sv, *o).take(i + 1) =~= reconcile_all(sv, *o).take(i as int).push(reconcile(sv[i as int], *o)));
        i = i + 1;
    }
    assert(reconcile_all(sv, *o).take(subs@.len() as int) =~= reconcile_all(sv, *o));
    out
}

fn clone_state(s: &RowState) -> (r: RowState)
    ensures
        row_state_view(r) == row_state_view(*s),
{
    match s {
        RowState::Pending => RowState::Pending,
        RowState::Active => RowState::Active,
        RowState::Complete { elapsed_ms } => RowState::Complete { elapsed_ms: *elapsed_ms },
        RowState::Skipped { reason } => RowState::Skipped { reason: own(reason) },
        RowState::Degraded { reason, elapsed_ms } => RowState::Degraded { reason: own(reason), elapsed_ms: *elapsed_ms },
        RowState::Failed { reason } => RowState::Failed { reason: own(reason) },
        RowState::Interrupted => RowState::Interrupted,
    }
}

fn count_found(ps: &Vec<ProbeRow>) -> (n: usize)
    ensures
        n == found_count(ps@),
{
    let mut n: usize = 0;
    let mut i: usize = 0;
    while i < ps.len()
        invariant
            0 <= i <= ps@.len(),
            n == found_count(ps@.take(i as int)),
            n <= i,
        decreases ps@.len() - i,
    {
        assert(ps@.take(i + 1).drop_last() =~= ps@.take(i as int));
        match ps[i].state {
            ProbeRowState::Found { .. } => {
                n = n + 1;
            },
            ProbeRowState::Active => {},
        }
        i = i + 1;
    }
    assert(ps@.take(ps@.len() as int) =~= ps@);
    n
}

fn find_step(subs: &Vec<SubStepRow>, step: StepId) -> (r: Option<usize>)
    ensures
        match r {
            Some(j) => find_step_from(subs_view(subs@), step, 0) == Some(j as int) && j < subs@.len(),
            None => find_step_from(subs_view(subs@), step, 0) is None,
        },
{
    let ghost sv = subs_view(subs@);
    let mut i: usize = 0;
    while i < subs.len()
        invariant
            0 <= i <= subs@.len(),
            sv == subs_view(subs@),
            find_step_from(sv, step, 0) == find_step_from(sv, step, i as int),
        decreases subs@.len() - i,
    {
        assert(sv[i as int] == sub_view(subs@[i as int]));
        if subs[i].step == step {
            return Some(i);
        }
        i = i + 1;
    }
    None
}

fn find_probe(ps: &Vec<ProbeRow>, probe: ProbeId) -> (r: Option<usize>)
    ensures
        match r {
            Some(j) => find_probe_from(ps@, probe, 0) == Some(j as int) && j < ps@.len(),
            None => find_probe_from(ps@, probe, 0) is None,
        },
{
    let mut i: usize = 0;
    while i < ps.len()
        invariant
            0 <= i <= ps@.len(),
            find_probe_from(ps@, probe, 0) == find_probe_from(ps@, probe, i as int),
        decreases ps@.len() - i,
    {
        if ps[i].probe == probe {
            return Some(i);
        }
        i = i + 1;
    }
    None
}

fn without_probe_exec(ps: &Vec<ProbeRow>, probe: ProbeId) -> (v: Vec<ProbeRow>)
    ensures
        v@ == without_probe(ps@, probe),
{
    let mut out: Vec<ProbeRow> = Vec::new();
    let mut i: usize = 0;
    while i < ps.len()
        invariant
            0 <= i <= ps@.len(),
            out@ == without_probe(ps@.take(i as int), probe),
        decreases ps@.len() - i,
    {
        assert(ps@.take(i + 1).drop_last() =~= ps@.take(i as int));
        if ps[i].probe != probe {
            out.push(ps[i]);
        }
        assert(out@ =~= without_probe(ps@.take(i + 1), probe));
        i = i + 1;
    }
    assert(ps@.take(ps@.len() as int) =~= ps@);
    out
}

/// The row after an event about it.
fn row_after(r: InspectorRow, e: &ProgressEvent, now: u64) -> (out: InspectorRow)
    ensures
        row_view(out) == row_step(row_view(r), *e, now),
{
    let ghost rv = row_view(r);
    let mut r = r;
    match e {
        ProgressEvent::InspectorStarted(id) => {
            let mut subs: Vec<SubStepRow> = Vec::new();
            std::mem::swap(&mut subs, &mut r.sub_steps);
            r.state = RowState::Active;
            r.started_at_ms = Some(now);
            r.last_metric = None;
            r.inspector_metric = None;
            r.sub_steps = prepopulated_exec(*id, subs);
        },
        ProgressEvent::InspectorFinished { id, outcome } => {
            let elapsed: u64 = match r.started_at_ms {
                Some(t) => now.saturating_sub(t),
                None => 0,
            };
            if *id == InspectorId::NonRpmSoftware && outcome_is_complete(outcome) {
                r.probes_found_count = Some(count_found(&r.probes));
            }
            let mut subs: Vec<SubStepRow> = Vec::new();
            std::mem::swap(&mut subs, &mut r.sub_steps);
            r.sub_steps = reconcile_exec(subs, outcome);
            r.state = finished_state_exec(outcome, elapsed);
        },
        ProgressEvent::StepStarted { step, .. } => {
            match find_step(&r.sub_steps, *step) {
                Some(j) => {
                    let cur = &r.sub_steps[j];
                    let n = SubStepRow { step: cur.step, state: RowState::Active, metric: cur.metric };
                    r.sub_steps.set(j, n);
                },
                None => {
                    r.sub_steps.push(SubStepRow { step: *step, state: RowState::Active, metric: None });
                },
            }
        },
        ProgressEvent::StepFinished { step, outcome, .. } => {
            let captured = r.last_metric;
            match find_step(&r.sub_steps, *step) {
                Some(j) => {
                    let cur_step = r.sub_steps[j].step;
                    let n = SubStepRow { step: cur_step, state: step_state_exec(outcome), metric: captured };
                    r.sub_steps.set(j, n);
                },
                None => {},
            }
            r.last_metric = None;
        },
        ProgressEvent::Metric { kind, value, .. } => {
            r.last_metric = Some((*kind, *value));
            r.inspector_metric = Some((*kind, *value));
        },
        ProgressEvent::ProbeStarted { probe, .. } => {
            r.probes.push(ProbeRow { probe: *probe, state: ProbeRowState::Active });
        },
        ProgressEvent::ProbeFinished { probe, outcome, .. } => {
            match outcome {
                ProbeOutcome::Empty => {
                    r.probes = without_probe_exec(&r.probes, *probe);
                },
                ProbeOutcome::Found { count } => {
                    match find_probe(&r.probes, *probe) {
                        Some(j) => {
                            let p = r.probes[j].probe;
                            r.probes.set(j, ProbeRow { probe: p, state: ProbeRowState::Found { count: *count } });
                        },
                        None => {},
                    }
                },
            }
        },
    }
    assert(row_view(r) =~= row_step(rv, *e, now));
    r
}

fn outcome_is_complete(o: &InspectorOutcome) -> (b: bool)
    ensures
        b == (*o is Complete),
{
    match o {
        InspectorOutcome::Complete => true,
        _ => false,
    }
}

} // verus!

verus! {

pub open spec fn step_index(s: StepId) -> int {
    match s {
        StepId::QueryingPackages => 0,
        StepId::ClassifyingPackages => 1,
        StepId::ResolvingSourceRepos => 2,
        StepId::ResolvingDepTree => 3,
        StepId::VerifyingIntegrity => 4,
        StepId::MappingFileOwnership => 5,
        StepId::ApplyingRpmVerification => 6,
        StepId::WalkingFilesystem => 7,
        StepId::ClassifyingConfigs => 8,
    }
}

pub open spec fn probe_index(p: ProbeId) -> int {
    match p {
        ProbeId::PipPackages => 0,
        ProbeId::NpmPackages => 1,
        ProbeId::PythonVenvs => 2,
        ProbeId::ElfBinaries => 3,
    }
}

pub(crate) fn step_slot(s: StepId) -> (i: usize)
    ensures
        i == step_index(s),
{
    match s {
        StepId::QueryingPackages => 0,
        StepId::ClassifyingPackages => 1,
        StepId::ResolvingSourceRepos => 2,
        StepId::ResolvingDepTree => 3,
        StepId::VerifyingIntegrity => 4,
        StepId::MappingFileOwnership => 5,
        StepId::ApplyingRpmVerification => 6,
        StepId::WalkingFilesystem => 7,
        StepId::ClassifyingConfigs => 8,
    }
}

pub(crate) fn probe_slot(p: ProbeId) -> (i: usize)
    ensures
        i == probe_index(p),
{
    match p {
        ProbeId::PipPackages => 0,
        ProbeId::NpmPackages => 1,
        ProbeId::PythonVenvs => 2,
        ProbeId::ElfBinaries => 3,
    }
}

impl ChecklistState {
    /// Well-formedness: a name for every step and every probe.
    pub open spec fn wf(&self) -> bool {
        self.step_names@.len() == 9 && self.probe_names@.len() == 4
    }

    /// A checklist with one pending row per inspector of `order` (id and
    /// display name, in display order), nothing rendered yet.
    pub fn new(order: Vec<(InspectorId, String)>, step_names: Vec<String>, probe_names: Vec<String>, use_color: bool, terminal_height: usize) -> (c: ChecklistState)
        requires
            step_names@.len() == 9,
            probe_names@.len() == 4,
        ensures
            c.wf(),
            rows_view(c.rows@) == order@.map_values(|o: (InspectorId, String)| fresh_row(o.0, o.1@)),
            c.tick_count == 0,
            c.terminal_height == terminal_height,
            c.use_color == use_color,
            c.lines_rendered == 0,
            c.step_names@ == step_names@,
            c.probe_names@ == probe_names@,
    {
        let mut rows: Vec<InspectorRow> = Vec::new();
        let mut i: usize = 0;
        while i < order.len()
            invariant
                0 <= i <= order@.len(),
                rows_view(rows@) == order@.map_values(|o: (InspectorId, String)| fresh_row(o.0, o.1@)).take(i as int),
            decreases order@.len() - i,
        {
            let row = InspectorRow {
                id: order[i].0,
                name: own(&order[i].1),
                state: RowState::Pending,
                started_at_ms: None,
                sub_steps: Vec::new(),
                probes: Vec::new(),
                last_metric: None,
                inspector_metric: None,
                probes_found_count: None,
            };
            let ghost before = rows@;
            rows.push(row);
            assert(row_view(row) =~= fresh_row(order@[i as int].0, order@[i as int].1@));
            assert(rows_view(rows@) =~= rows_view(before).push(row_view(row)));
            assert(order@.map_values(|o: (InspectorId, String)| fresh_row(o.0, o.1@)).take(i + 1)
                =~= order@.map_values(|o: (InspectorId, String)| fresh_row(o.0, o.1@)).take(i as int).push(fresh_row(order@[i as int].0, order@[i as int].1@)));
            i = i + 1;
        }
        assert(order@.map_values(|o: (InspectorId, String)| fresh_row(o.0, o.1@)).take(order@.len() as int)
            =~= order@.map_values(|o: (InspectorId, String)| fresh_row(o.0, o.1@)));
        ChecklistState { rows, tick_count: 0, terminal_height, use_color, lines_rendered: 0, step_names, probe_names }
    }

    /// The row of inspector `id`.
    pub fn find_row(&self, id: InspectorId) -> (r: Option<usize>)
        ensures
            match r {
                Some(i) => find_row_from(rows_view(self.rows@), id, 0) == Some(i as int) && i < self.rows@.len(),
                None => find_row_from(rows_view(self.rows@), id, 0) is None,
            },
    {
        let ghost rv = rows_view(self.rows@);
        let mut i: usize = 0;
        while i < self.rows.len()
            invariant
                0 <= i <= self.rows@.len(),
                rv == rows_view(self.rows@),
                find_row_from(rv, id, 0) == find_row_from(rv, id, i as int),
            decreases self.rows@.len() - i,
        {
            assert(rv[i as int] == row_view(self.rows@[i as int]));
            if self.rows[i].id == id {
                return Some(i);
            }
            i = i + 1;
        }
        None
    }

    /// Apply a progress event received at `now_ms`.
    pub fn handle_event(&mut self, event: ProgressEvent, now_ms: u64)
        ensures
            rows_view(final(self).rows@) == checklist_step(rows_view(old(self).rows@), event, now_ms),
            final(self).tick_count == old(self).tick_count,
            final(self).terminal_height == old(self).terminal_height,
            final(self).use_color == old(self).use_color,
            final(self).lines_rendered == old(self).lines_rendered,
            final(self).step_names@ == old(self).step_names@,
            final(self).probe_names@ == old(self).probe_names@,
    {
        let id = match &event {
            ProgressEvent::InspectorStarted(id) => *id,
            ProgressEvent::InspectorFinished { id, .. } => *id,
            ProgressEvent::StepStarted { inspector, .. } => *inspector,
            ProgressEvent::StepFinished { inspector, .. } => *inspector,
            ProgressEvent::Metric { inspector, .. } => *inspector,
            ProgressEvent::ProbeStarted { inspector, .. } => *inspector,
            ProgressEvent::ProbeFinished { inspector, .. } => *inspector,
        };
        if let Some(idx) = self.find_row(id) {
            let ghost before = self.rows@;
            let row = self.rows.remove(idx);
            let updated = row_after(row, &event, now_ms);
            self.rows.insert(idx, updated);
            assert(self.rows@ =~= before.update(idx as int, updated));
            assert(rows_view(self.rows@) =~= rows_view(before).update(idx as int, row_view(updated)));
        }
    }

    /// Advance the spinner (wrapping).
    pub fn tick(&mut self)
        ensures
            final(self).tick_count == (if old(self).tick_count == u32::MAX { 0 } else { (old(self).tick_count + 1) as u32 }),
            final(self).rows@ == old(self).rows@,
            final(self).terminal_height == old(self).terminal_height,
            final(self).use_color == old(self).use_color,
            final(self).step_names@ == old(self).step_names@,
            final(self).probe_names@ == old(self).probe_names@,
            final(self).lines_rendered == old(self).lines_rendered,
    {
        self.tick_count = if self.tick_count == u32::MAX { 0 } else { self.tick_count + 1 };
    }
}

/// A pending row with nothing recorded.
pub open spec fn fresh_row(id: InspectorId, name: Seq<char>) -> RowV {
    RowV {
        id,
        name,
        state: RowStateV::Pending,
        started_at_ms: None,
        sub_steps: Seq::empty(),
        probes: Seq::empty(),
        last_metric: None,
        inspector_metric: None,
        probes_found_count: None,
    }
}

} // verus!

verus! {

/// Braille spinner frames.
pub open spec fn spinner_frames() -> Seq<char> {
    seq!['\u{280b}', '\u{2819}', '\u{2839}', '\u{2838}', '\u{283c}', '\u{2834}', '\u{2826}', '\u{2827}', '\u{2807}', '\u{280f}']
}

fn spinner_frame(tick: u32) -> (c: char)
    ensures
        c == spinner_frames()[(tick % 10) as int],
{
    let frames = ['\u{280b}', '\u{2819}', '\u{2839}', '\u{2838}', '\u{283c}', '\u{2834}', '\u{2826}', '\u{2827}', '\u{2807}', '\u{280f}'];
    assert(frames@ == spinner_frames());
    frames[(tick % 10) as usize]
}

pub open spec fn dim() -> Seq<char> { "\x1b[2m"@ }
pub open spec fn green() -> Seq<char> { "\x1b[32m"@ }
pub open spec fn yellow() -> Seq<char> { "\x1b[33m"@ }
pub open spec fn red() -> Seq<char> { "\x1b[31m"@ }

/// The label of a metric: `847 found`, `8 repos mapped`.
pub open spec fn metric_label(kind: MetricKind, value: usize) -> Seq<char> {
    decimal(value as nat) + match kind {
        MetricKind::PackagesFound => " found"@,
        MetricKind::ReposMapped => " repos mapped"@,
    }
}

pub open spec fn metric_or_done(m: Option<(MetricKind, usize)>) -> Seq<char> {
    match m {
        Some((k, v)) => metric_label(k, v),
        None => "done"@,
    }
}

/// The completion label of an inspector: the ecosystem count when probes
/// were counted, else its last metric, else `done`.
pub open spec fn completion_label(r: RowV) -> Seq<char> {
    match r.probes_found_count {
        Some(n) => if n == 0 { "none found"@ } else if n == 1 { "1 ecosystem"@ } else { decimal(n as nat) + " ecosystems"@ },
        None => metric_or_done(r.inspector_metric),
    }
}

/// ` (Ns)` on a running row once 3.5 s have passed, whole seconds.
pub open spec fn running_elapsed(started: Option<u64>, now: u64) -> Seq<char> {
    match started {
        Some(t) => if now >= t && now - t >= 3500 { " ("@ + decimal(((now - t) / 1000) as nat) + "s)"@ } else { Seq::empty() },
        None => Seq::empty(),
    }
}

/// The main line of a row; `suf` is its elapsed-time suffix.
pub open spec fn main_line(r: RowV, spin: char, c: bool, now: u64, suf: Seq<char>) -> Seq<char> {
    let name40 = pad_right(r.name, 40);
    match r.state {
        RowStateV::Pending => "  "@ + colored_spec("\u{25cc}"@, dim(), c) + " "@ + r.name,
        RowStateV::Active => "  "@ + seq![spin] + " "@ + r.name + running_elapsed(r.started_at_ms, now),
        RowStateV::Complete { .. } => "  "@ + colored_spec("\u{2713}"@, green(), c) + " "@ + name40 + " "@ + completion_label(r) + suf,
        RowStateV::Skipped { reason } => "  "@ + colored_spec("\u{2013}"@, dim(), c) + " "@ + name40 + " skipped ("@ + reason + ")"@,
        RowStateV::Degraded { reason, .. } => "  "@ + colored_spec("~"@, yellow(), c) + " "@ + name40 + " degraded: "@ + reason + suf,
        RowStateV::Failed { reason } => "  "@ + colored_spec("\u{2717}"@, red(), c) + " "@ + name40 + " failed: "@ + reason,
        RowStateV::Interrupted => "  "@ + colored_spec("\u{25a0}"@, red(), c) + " "@ + name40 + " interrupted"@,
    }
}

/// The line of a sub-step.
pub open spec fn sub_line(s: SubStepV, name: Seq<char>, spin: char, c: bool) -> Seq<char> {
    let n36 = pad_right(name, 36);
    match s.state {
        RowStateV::Active => "       "@ + seq![spin] + " "@ + name,
        RowStateV::Complete { .. } => "       "@ + colored_spec("\u{2713}"@, green(), c) + " "@ + n36 + " "@ + metric_or_done(s.metric),
        RowStateV::Degraded { reason, .. } => "       "@ + colored_spec("~"@, yellow(), c) + " "@ + n36 + " degraded: "@ + reason,
        RowStateV::Failed { reason } => "       "@ + colored_spec("\u{2717}"@, red(), c) + " "@ + n36 + " failed: "@ + reason,
        RowStateV::Skipped { reason } => "       "@ + colored_spec("\u{2013}"@, dim(), c) + " "@ + n36 + " skipped ("@ + reason + ")"@,
        RowStateV::Interrupted => "       "@ + colored_spec("\u{25a0}"@, red(), c) + " "@ + n36 + " interrupted"@,
        RowStateV::Pending => "       \u{25cc} "@ + name,
    }
}

/// The line of a probe.
pub open spec fn probe_line(p: ProbeRow, name: Seq<char>, spin: char, c: bool) -> Seq<char> {
    match p.state {
        ProbeRowState::Active => "       "@ + seq![spin] + " "@ + name,
        ProbeRowState::Found { count } => "       "@ + colored_spec("\u{2713}"@, green(), c) + " "@ + pad_right(name, 36) + " "@ + decimal(count as nat) + " found"@,
    }
}

/// A rendered line and whether it belongs to something still pending
/// (such lines are dropped first when the block does not fit).
pub open spec fn sub_lines(subs: Seq<SubStepV>, names: Seq<Seq<char>>, spin: char, c: bool) -> Seq<(Seq<char>, bool)>
    decreases subs.len(),
{
    if subs.len() == 0 {
        Seq::empty()
    } else {
        let s = subs.last();
        sub_lines(subs.drop_last(), names, spin, c).push((sub_line(s, names[step_index(s.step)], spin, c), s.state is Pending))
    }
}

pub open spec fn probe_lines(ps: Seq<ProbeRow>, names: Seq<Seq<char>>, spin: char, c: bool) -> Seq<(Seq<char>, bool)>
    decreases ps.len(),
{
    if ps.len() == 0 {
        Seq::empty()
    } else {
        let p = ps.last();
        probe_lines(ps.drop_last(), names, spin, c).push((probe_line(p, names[probe_index(p.probe)], spin, c), false))
    }
}

/// All candidate lines: each row's line, then its sub-steps, then its probes.
pub open spec fn all_lines(rows: Seq<RowV>, sufs: Seq<Seq<char>>, steps: Seq<Seq<char>>, probes: Seq<Seq<char>>, spin: char, c: bool, now: u64) -> Seq<(Seq<char>, bool)>
    decreases rows.len(),
{
    if rows.len() == 0 {
        Seq::empty()
    } else {
        let k = rows.len() - 1;
        let r = rows[k];
        all_lines(rows.drop_last(), sufs, steps, probes, spin, c, now)
            .push((main_line(r, spin, c, now, sufs[k]), r.state is Pending))
            + sub_lines(r.sub_steps, steps, spin, c) + probe_lines(r.probes, probes, spin, c)
    }
}

/// Lines kept and lines hidden after the first `n` candidates, when the
/// block is cut to `max` lines: the last line is reserved for the footer
/// and pending lines are hidden.
pub open spec fn overflow(lines: Seq<(Seq<char>, bool)>, max: int, n: nat) -> (Seq<Seq<char>>, nat)
    decreases n,
{
    if n == 0 {
        (Seq::empty(), 0)
    } else {
        let (kept, hidden) = overflow(lines, max, (n - 1) as nat);
        let l = lines[n - 1];
        if kept.len() + 1 >= max {
            (kept, hidden + 1)
        } else if l.1 {
            (kept, hidden + 1)
        } else {
            (kept.push(l.0), hidden)
        }
    }
}

/// The rendered checklist: every line when they fit in the terminal
/// height less two; otherwise the kept lines and a `... and N more` footer.
pub open spec fn render_spec(all: Seq<(Seq<char>, bool)>, height: usize, c: bool) -> Seq<Seq<char>> {
    let max = if height >= 2 { height - 2 } else { 0 };
    if all.len() <= max {
        all.map_values(|l: (Seq<char>, bool)| l.0)
    } else {
        let (kept, hidden) = overflow(all, max, all.len());
        if hidden > 0 {
            kept.push("  "@ + colored_spec("\u{00b7}"@, dim(), c) + " ... and "@ + decimal(hidden) + " more"@)
        } else {
            kept
        }
    }
}

pub(crate) fn push_colored(s: &mut String, symbol: &str, code: &str, c: bool)
    ensures
        final(s)@ == old(s)@ + colored_spec(symbol@, code@, c),
{
    let t = crate::progress::colored(symbol, code, c);
    push_str(s, t.as_str());
}

pub(crate) fn push_metric(s: &mut String, m: Option<(MetricKind, usize)>)
    ensures
        final(s)@ == old(s)@ + metric_or_done(m),
{
    match m {
        Some((k, v)) => {
            push_decimal(s, v);
            match k {
                MetricKind::PackagesFound => push_str(s, " found"),
                MetricKind::ReposMapped => push_str(s, " repos mapped"),
            }
        },
        None => push_str(s, "done"),
    }
}

fn main_line_exec(r: &InspectorRow, spin: char, c: bool, now: u64, suf: &str) -> (s: String)
    ensures
        s@ == main_line(row_view(*r), spin, c, now, suf@),
{
    let mut s = String::new();
    push_str(&mut s, "  ");
    match &r.state {
        RowState::Pending => {
            push_colored(&mut s, "\u{25cc}", "\x1b[2m", c);
            push_str(&mut s, " ");
            push_str(&mut s, r.name.as_str());
        },
        RowState::Active => {
            crate::text::push_char(&mut s, spin);
            push_str(&mut s, " ");
            push_str(&mut s, r.name.as_str());
            match r.started_at_ms {
                Some(t) => {
                    if now >= t && now - t >= 3500 {
                        push_str(&mut s, " (");
                        push_decimal_u64(&mut s, (now - t) / 1000);
                        push_str(&mut s, "s)");
                    }
                },
                None => {},
            }
        },
        RowState::Complete { .. } => {
            push_colored(&mut s, "\u{2713}", "\x1b[32m", c);
            push_str(&mut s, " ");
            push_padded(&mut s, r.name.as_str(), 40);
            push_str(&mut s, " ");
            match r.probes_found_count {
                Some(n) => {
                    if n == 0 {
                        push_str(&mut s, "none found");
                    } else if n == 1 {
                        push_str(&mut s, "1 ecosystem");
                    } else {
                        push_decimal(&mut s, n);
                        push_str(&mut s, " ecosystems");
                    }
                },
                None => push_metric(&mut s, r.inspector_metric),
            }
            push_str(&mut s, suf);
        },
        RowState::Skipped { reason } => {
            push_colored(&mut s, "\u{2013}", "\x1b[2m", c);
            push_str(&mut s, " ");
            push_padded(&mut s, r.name.as_str(), 40);
            push_str(&mut s, " skipped (");
            push_str(&mut s, reason.as_str());
            push_str(&mut s, ")");
        },
        RowState::Degraded { reason, .. } => {
            push_colored(&mut s, "~", "\x1b[33m", c);
            push_str(&mut s, " ");
            push_padded(&mut s, r.name.as_str(), 40);
            push_str(&mut s, " degraded: ");
            push_str(&mut s, reason.as_str());
            push_str(&mut s, suf);
        },
        RowState::Failed { reason } => {
            push_colored(&mut s, "\u{2717}", "\x1b[31m", c);
            push_str(&mut s, " ");
            push_padded(&mut s, r.name.as_str(), 40);
            push_str(&mut s, " failed: ");
            push_str(&mut s, reason.as_str());
        },
        RowState::Interrupted => {
            push_colored(&mut s, "\u{25a0}", "\x1b[31m", c);
            push_str(&mut s, " ");
            push_padded(&mut s, r.name.as_str(), 40);
            push_str(&mut s, " interrupted");
        },
    }
    assert(s@ =~= main_line(row_view(*r), spin, c, now, suf@));
    s
}

fn sub_line_exec(sub: &SubStepRow, name: &str, spin: char, c: bool) -> (s: String)
    ensures
        s@ == sub_line(sub_view(*sub), name@, spin, c),
{
    let mut s = String::new();
    push_str(&mut s, "       ");
    match &sub.state {
        RowState::Active => {
            crate::text::push_char(&mut s, spin);
            push_str(&mut s, " ");
            push_str(&mut s, name);
        },
        RowState::Complete { .. } => {
            push_colored(&mut s, "\u{2713}", "\x1b[32m", c);
            push_str(&mut s, " ");
            push_padded(&mut s, name, 36);
            push_str(&mut s, " ");
            push_metric(&mut s, sub.metric);
        },
        RowState::Degraded { reason, .. } => {
            push_colored(&mut s, "~", "\x1b[33m", c);
            push_str(&mut s, " ");
            push_padded(&mut s, name, 36);
            push_str(&mut s, " degraded: ");
            push_str(&mut s, reason.as_str());
        },
        RowState::Failed { reason } => {
            push_colored(&mut s, "\u{2717}", "\x1b[31m", c);
            push_str(&mut s, " ");
            push_padded(&mut s, name, 36);
            push_str(&mut s, " failed: ");
            push_str(&mut s, reason.as_str());
        },
        RowState::Skipped { reason } => {
            push_colored(&mut s, "\u{2013}", "\x1b[2m", c);
            push_str(&mut s, " ");
            push_padded(&mut s, name, 36);
            push_str(&mut s, " skipped (");
            push_str(&mut s, reason.as_str());
            push_str(&mut s, ")");
        },
        RowState::Interrupted => {
            push_colored(&mut s, "\u{25a0}", "\x1b[31m", c);
            push_str(&mut s, " ");
            push_padded(&mut s, name, 36);
            push_str(&mut s, " interrupted");
        },
        RowState::Pending => {
            push_str(&mut s, "\u{25cc} ");
            push_str(&mut s, name);
        },
    }
    assert(s@ =~= sub_line(sub_view(*sub), name@, spin, c)) by {
        reveal_strlit("       ");
        reveal_strlit("\u{25cc} ");
        reveal_strlit("       \u{25cc} ");
    }
    s
}

fn probe_line_exec(p: &ProbeRow, name: &str, spin: char, c: bool) -> (s: String)
    ensures
        s@ == probe_line(*p, name@, spin, c),
{
    let mut s = String::new();
    push_str(&mut s, "       ");
    match p.state {
        ProbeRowState::Active => {
            crate::text::push_char(&mut s, spin);
            push_str(&mut s, " ");
            push_str(&mut s, name);
        },
        ProbeRowState::Found { count } => {
            push_colored(&mut s, "\u{2713}", "\x1b[32m", c);
            push_str(&mut s, " ");
            push_padded(&mut s, name, 36);
            push_str(&mut s, " ");
            push_decimal(&mut s, count);
            push_str(&mut s, " found");
        },
    }
    assert(s@ =~= probe_line(*p, name@, spin, c));
    s
}


/// Rendered lines paired with their pending flags.
pub open spec fn paired(lines: Seq<String>, pend: Seq<bool>) -> Seq<(Seq<char>, bool)> {
    Seq::new(lines.len(), |k: int| (lines[k]@, pend[k]))
}

fn push_line(lines: &mut Vec<String>, pend: &mut Vec<bool>, l: String, p: bool)
    requires
        old(lines)@.len() == old(pend)@.len(),
    ensures
        final(lines)@.len() == final(pend)@.len(),
        paired(final(lines)@, final(pend)@) == paired(old(lines)@, old(pend)@).push((l@, p)),
{
    let ghost l0 = lines@;
    let ghost p0 = pend@;
    lines.push(l);
    pend.push(p);
    assert(paired(lines@, pend@) =~= paired(l0, p0).push((l@, p)));
}

fn push_sub_lines(lines: &mut Vec<String>, pend: &mut Vec<bool>, subs: &Vec<SubStepRow>, names: &Vec<String>, spin: char, c: bool)
    requires
        old(lines)@.len() == old(pend)@.len(),
        names@.len() == 9,
    ensures
        final(lines)@.len() == final(pend)@.len(),
        paired(final(lines)@, final(pend)@) == paired(old(lines)@, old(pend)@) + sub_lines(subs_view(subs@), string_views(names@), spin, c),
{
    let ghost base = paired(lines@, pend@);
    let mut j: usize = 0;
    while j < subs.len()
        invariant
            0 <= j <= subs@.len(),
            names@.len() == 9,
            lines@.len() == pend@.len(),
            paired(lines@, pend@) == base + sub_lines(subs_view(subs@).take(j as int), string_views(names@), spin, c),
        decreases subs@.len() - j,
    {
        let sub = &subs[j];
        let k = step_slot(sub.step);
        let line = sub_line_exec(sub, names[k].as_str(), spin, c);
        let p = match sub.state {
            RowState::Pending => true,
            _ => false,
        };
        push_line(lines, pend, line, p);
        assert(subs_view(subs@).take(j + 1).drop_last() =~= subs_view(subs@).take(j as int));
        j = j + 1;
    }
    assert(subs_view(subs@).take(subs@.len() as int) =~= subs_view(subs@));
}

fn push_probe_lines(lines: &mut Vec<String>, pend: &mut Vec<bool>, ps: &Vec<ProbeRow>, names: &Vec<String>, spin: char, c: bool)
    requires
        old(lines)@.len() == old(pend)@.len(),
        names@.len() == 4,
    ensures
        final(lines)@.len() == final(pend)@.len(),
        paired(final(lines)@, final(pend)@) == paired(old(lines)@, old(pend)@) + probe_lines(ps@, string_views(names@), spin, c),
{
    let ghost base = paired(lines@, pend@);
    let mut j: usize = 0;
    while j < ps.len()
        invariant
            0 <= j <= ps@.len(),
            names@.len() == 4,
            lines@.len() == pend@.len(),
            paired(lines@, pend@) == base + probe_lines(ps@.take(j as int), string_views(names@), spin, c),
        decreases ps@.len() - j,
    {
        let p = ps[j];
        let k = probe_slot(p.probe);
        let line = probe_line_exec(&p, names[k].as_str(), spin, c);
        push_line(lines, pend, line, false);
        assert(ps@.take(j + 1).drop_last() =~= ps@.take(j as int));
        j = j + 1;
    }
    assert(ps@.take(ps@.len() as int) =~= ps@);
}

impl ChecklistState {
    /// Every candidate line of the checklist with its pending flag; the
    /// spinner shows the current tick and `suffixes` holds each row's
    /// elapsed-time suffix.
    fn candidate_lines(&self, now_ms: u64, suffixes: &Vec<String>) -> (r: (Vec<String>, Vec<bool>))
        requires
            self.wf(),
            suffixes@.len() == self.rows@.len(),
        ensures
            r.0@.len() == r.1@.len(),
            paired(r.0@, r.1@) == all_lines(rows_view(self.rows@), string_views(suffixes@), string_views(self.step_names@),
                string_views(self.probe_names@), spinner_frames()[(self.tick_count % 10) as int], self.use_color, now_ms),
    {
        let spin = spinner_frame(self.tick_count);
        let c = self.use_color;
        let ghost sufs = string_views(suffixes@);
        let ghost steps = string_views(self.step_names@);
        let ghost probes = string_views(self.probe_names@);
        let mut lines: Vec<String> = Vec::new();
        let mut pend: Vec<bool> = Vec::new();
        let mut i: usize = 0;
        assert(paired(lines@, pend@) =~= Seq::<(Seq<char>, bool)>::empty());
        while i < self.rows.len()
            invariant
                0 <= i <= self.rows@.len(),
                self.wf(),
                suffixes@.len() == self.rows@.len(),
                sufs == string_views(suffixes@),
                steps == string_views(self.step_names@),
                probes == string_views(self.probe_names@),
                spin == spinner_frames()[(self.tick_count % 10) as int],
                c == self.use_color,
                lines@.len() == pend@.len(),
                paired(lines@, pend@) == all_lines(rows_view(self.rows@).take(i as int), sufs, steps, probes, spin, c, now_ms),
            decreases self.rows@.len() - i,
        {
            let row = &self.rows[i];
            let line = main_line_exec(row, spin, c, now_ms, suffixes[i].as_str());
            let p = match row.state {
                RowState::Pending => true,
                _ => false,
            };
            push_line(&mut lines, &mut pend, line, p);
            push_sub_lines(&mut lines, &mut pend, &row.sub_steps, &self.step_names, spin, c);
            push_probe_lines(&mut lines, &mut pend, &row.probes, &self.probe_names, spin, c);
            proof {
                let t = rows_view(self.rows@).take(i + 1);
                assert(t.drop_last() =~= rows_view(self.rows@).take(i as int));
                assert(t[i as int] == row_view(self.rows@[i as int]));
                assert(sufs[i as int] == suffixes@[i as int]@);
            }
            i = i + 1;
        }
        assert(rows_view(self.rows@).take(self.rows@.len() as int) =~= rows_view(self.rows@));
        (lines, pend)
    }

    /// The lines of the checklist block at `now_ms`: every candidate line
    /// when they fit in the terminal height less two, else the non-pending
    /// lines that fit and a `... and N more` footer. `suffixes` holds each
    /// row's elapsed-time suffix.
    pub fn render_lines(&self, now_ms: u64, suffixes: &Vec<String>) -> (v: Vec<String>)
        requires
            self.wf(),
            suffixes@.len() == self.rows@.len(),
        ensures
            string_views(v@) == render_spec(
                all_lines(rows_view(self.rows@), string_views(suffixes@), string_views(self.step_names@),
                    string_views(self.probe_names@), spinner_frames()[(self.tick_count % 10) as int], self.use_color, now_ms),
                self.terminal_height, self.use_color),
    {
        let (lines, pend) = self.candidate_lines(now_ms, suffixes);
        let ghost all = paired(lines@, pend@);
        let max: usize = if self.terminal_height >= 2 { self.terminal_height - 2 } else { 0 };
        if lines.len() <= max {
            assert(string_views(lines@) =~= all.map_values(|l: (Seq<char>, bool)| l.0));
            return lines;
        }
        let mut result: Vec<String> = Vec::new();
        let mut hidden: usize = 0;
        let mut k: usize = 0;
        while k < lines.len()
            invariant
                0 <= k <= lines@.len(),
                lines@.len() == pend@.len(),
                all == paired(lines@, pend@),
                hidden <= k,
                result@.len() <= k,
                (string_views(result@), hidden as nat) == overflow(all, max as int, k as nat),
            decreases lines@.len() - k,
        {
            let ghost r0 = result@;
            if result.len() + 1 >= max {
                hidden = hidden + 1;
            } else if pend[k] {
                hidden = hidden + 1;
            } else {
                result.push(own(&lines[k]));
                assert(string_views(result@) =~= string_views(r0).push(lines@[k as int]@));
            }
            k = k + 1;
        }
        if hidden > 0 {
            let mut f = String::new();
            push_str(&mut f, "  ");
            push_colored(&mut f, "\u{00b7}", "\x1b[2m", self.use_color);
            push_str(&mut f, " ... and ");
            push_decimal(&mut f, hidden);
            push_str(&mut f, " more");
            let ghost r0 = result@;
            result.push(f);
            assert(string_views(result@) =~= string_views(r0).push(f@));
        }
        result
    }
}


/// When an inspector finishes, none of its sub-steps is left pending or
/// running: each open one takes the inspector's outcome.
pub proof fn law_finished_inspector_closes_steps(rows: Seq<RowV>, id: InspectorId, outcome: InspectorOutcome, now: u64)
    ensures
        match find_row_from(rows, id, 0) {
            Some(i) => forall|j: int| 0 <= j < checklist_step(rows, ProgressEvent::InspectorFinished { id, outcome }, now)[i].sub_steps.len() ==> {
                let st = #[trigger] checklist_step(rows, ProgressEvent::InspectorFinished { id, outcome }, now)[i].sub_steps[j].state;
                !(st is Pending) && !(st is Active)
            },
            None => checklist_step(rows, ProgressEvent::InspectorFinished { id, outcome }, now) == rows,
        },
{
    lemma_find_row_from_bounds(rows, id, 0);
}

proof fn lemma_find_row_from_bounds(rows: Seq<RowV>, id: InspectorId, i: int)
    ensures
        find_row_from(rows, id, i) matches Some(k) ==> i <= k < rows.len() && rows[k].id == id,
    decreases rows.len() - i,
{
    if 0 <= i < rows.len() && rows[i].id != id {
        lemma_find_row_from_bounds(rows, id, i + 1);
    }
}

proof fn lemma_without_probe(ps: Seq<ProbeRow>, probe: ProbeId)
    ensures
        forall|k: int| 0 <= k < without_probe(ps, probe).len() ==> (#[trigger] without_probe(ps, probe)[k]).probe != probe,
    decreases ps.len(),
{
    if ps.len() > 0 {
        lemma_without_probe(ps.drop_last(), probe);
        let w = without_probe(ps.drop_last(), probe);
        let tail: Seq<ProbeRow> = if ps.last().probe != probe { seq![ps.last()] } else { Seq::empty() };
        assert forall|k: int| 0 <= k < without_probe(ps, probe).len() implies (#[trigger] without_probe(ps, probe)[k]).probe != probe by {
            if k < w.len() {
                assert(without_probe(ps, probe)[k] == w[k]);
            } else {
                assert(without_probe(ps, probe)[k] == tail[k - w.len()]);
            }
        }
    }
}

/// A probe that finished empty leaves its inspector's row.
pub proof fn law_empty_probe_disappears(rows: Seq<RowV>, inspector: InspectorId, probe: ProbeId, now: u64)
    ensures
        match find_row_from(rows, inspector, 0) {
            Some(i) => forall|k: int| 0 <= k < checklist_step(rows, ProgressEvent::ProbeFinished { inspector, probe, outcome: ProbeOutcome::Empty }, now)[i].probes.len()
                ==> (#[trigger] checklist_step(rows, ProgressEvent::ProbeFinished { inspector, probe, outcome: ProbeOutcome::Empty }, now)[i].probes[k]).probe != probe,
            None => true,
        },
{
    lemma_find_row_from_bounds(rows, inspector, 0);
    if let Some(i) = find_row_from(rows, inspector, 0) {
        lemma_without_probe(rows[i].probes, probe);
    }
}

/// `s` is the text of a non-pending line among the first `n` candidates.
pub open spec fn shown_candidate(lines: Seq<(Seq<char>, bool)>, n: int, s: Seq<char>) -> bool {
    exists|j: int| 0 <= j < n && !lines[j].1 && lines[j].0 == s
}

proof fn lemma_shown_candidate_grows(lines: Seq<(Seq<char>, bool)>, n: int, s: Seq<char>)
    requires
        shown_candidate(lines, n - 1, s),
    ensures
        shown_candidate(lines, n, s),
{
    let j = choose|j: int| 0 <= j < n - 1 && !lines[j].1 && lines[j].0 == s;
    assert(0 <= j < n && !lines[j].1 && lines[j].0 == s);
}

#[verifier::spinoff_prover]
proof fn lemma_overflow(lines: Seq<(Seq<char>, bool)>, max: int, n: nat)
    requires
        n <= lines.len(),
        max >= 1,
    ensures
        overflow(lines, max, n).0.len() + 1 <= max,
        overflow(lines, max, n).0.len() + overflow(lines, max, n).1 == n,
        forall|k: int| 0 <= k < overflow(lines, max, n).0.len() ==> shown_candidate(lines, n as int, #[trigger] overflow(lines, max, n).0[k]),
    decreases n,
{
    if n > 0 {
        lemma_overflow(lines, max, (n - 1) as nat);
        let kept = overflow(lines, max, (n - 1) as nat).0;
        let out = overflow(lines, max, n).0;
        let pushed = !(kept.len() + 1 >= max) && !lines[n - 1].1;
        assert forall|k: int| 0 <= k < out.len() implies shown_candidate(lines, n as int, #[trigger] out[k]) by {
            if pushed && k == kept.len() {
                assert(out[k] == lines[n - 1].0);
                assert(0 <= n - 1 < n && !lines[n - 1].1 && lines[n - 1].0 == out[k]);
            } else {
                assert(out[k] == kept[k]);
                assert(shown_candidate(lines, n - 1, kept[k]));
                lemma_shown_candidate_grows(lines, n as int, kept[k]);
            }
        }
    } else {
        assert(overflow(lines, max, n).0.len() == 0);
    }
}

/// The block never takes more than the terminal height less two lines
/// (once there is room for one), and a pending line is never shown when
/// the block is cut: each line of a cut block other than the footer is a
/// non-pending candidate line.
pub proof fn law_render_fits(all: Seq<(Seq<char>, bool)>, height: usize, c: bool)
    requires
        height >= 3,
    ensures
        render_spec(all, height, c).len() <= height - 2,
        forall|k: int| 0 <= k < overflow(all, height - 2, all.len()).0.len() ==>
            shown_candidate(all, all.len() as int, #[trigger] overflow(all, height - 2, all.len()).0[k]),
{
    lemma_overflow(all, height - 2, all.len());
}

/// The candidate positions that the first `n` steps of `overflow` keep, in
/// order.
pub open spec fn kept_positions(lines: Seq<(Seq<char>, bool)>, max: int, n: nat) -> Seq<int>
    decreases n,
{
    if n == 0 {
        Seq::empty()
    } else {
        let ks = kept_positions(lines, max, (n - 1) as nat);
        let kept = overflow(lines, max, (n - 1) as nat).0;
        if kept.len() + 1 >= max {
            ks
        } else if lines[n - 1].1 {
            ks
        } else {
            ks.push(n - 1)
        }
    }
}

pub proof fn lemma_kept_positions(lines: Seq<(Seq<char>, bool)>, max: int, n: nat)
    requires
        n <= lines.len(),
    ensures
        kept_positions(lines, max, n).len() == overflow(lines, max, n).0.len(),
        overflow(lines, max, n).0.len() + overflow(lines, max, n).1 == n,
        overflow(lines, max, n).0.len() <= (if max >= 1 { max - 1 } else { 0 }),
        forall|k: int| 0 <= k < kept_positions(lines, max, n).len() ==> {
            let p = #[trigger] kept_positions(lines, max, n)[k];
            &&& 0 <= p < n
            &&& !lines[p].1
            &&& lines[p].0 == overflow(lines, max, n).0[k]
        },
        forall|j: int, k: int| 0 <= j < k < kept_positions(lines, max, n).len()
            ==> #[trigger] kept_positions(lines, max, n)[j] < #[trigger] kept_positions(lines, max, n)[k],
    decreases n,
{
    if n > 0 {
        lemma_kept_positions(lines, max, (n - 1) as nat);
        let ks = kept_positions(lines, max, (n - 1) as nat);
        let kept = overflow(lines, max, (n - 1) as nat).0;
        let pos = kept_positions(lines, max, n);
        let out = overflow(lines, max, n).0;
        if !(kept.len() + 1 >= max) && !lines[n - 1].1 {
            assert(pos == ks.push(n - 1));
            assert(out == kept.push(lines[n - 1].0));
            assert forall|k: int| 0 <= k < pos.len() implies {
                let p = #[trigger] pos[k];
                &&& 0 <= p < n
                &&& !lines[p].1
                &&& lines[p].0 == out[k]
            } by {
                if k < ks.len() {
                    assert(pos[k] == ks[k]);
                    assert(out[k] == kept[k]);
                }
            }
            assert forall|j: int, k: int| 0 <= j < k < pos.len() implies #[trigger] pos[j] < #[trigger] pos[k] by {
                assert(pos[j] == ks[j]);
                if k < ks.len() {
                    assert(pos[k] == ks[k]);
                }
            }
        }
    }
}

/// The footer of a cut block: `  · ... and N more`.
pub open spec fn footer_line(hidden: nat, c: bool) -> Seq<char> {
    "  "@ + colored_spec("\u{00b7}"@, dim(), c) + " ... and "@ + decimal(hidden) + " more"@
}

/// Candidate lines that fit in the terminal height less two are all shown
/// as they are. Otherwise the block is the kept lines and a footer: the
/// kept lines are non-pending candidates in their original order, and the
/// footer counts exactly the candidates left out.
pub proof fn law_render_keeps_order(all: Seq<(Seq<char>, bool)>, height: usize, c: bool)
    ensures
        all.len() <= (if height >= 2 { height - 2 } else { 0 }) ==> render_spec(all, height, c) == all.map_values(|l: (Seq<char>, bool)| l.0),
        all.len() > (if height >= 2 { height - 2 } else { 0 }) ==> {
            let max = if height >= 2 { height - 2 } else { 0 };
            let kept = overflow(all, max, all.len()).0;
            let hidden = overflow(all, max, all.len()).1;
            &&& hidden == all.len() - kept.len()
            &&& hidden > 0
            &&& render_spec(all, height, c) == kept.push(footer_line(hidden, c))
            &&& exists|pos: Seq<int>| {
                &&& pos.len() == kept.len()
                &&& forall|k: int| 0 <= k < pos.len() ==> 0 <= #[trigger] pos[k] < all.len() && !all[pos[k]].1 && all[pos[k]].0 == kept[k]
                &&& forall|j: int, k: int| 0 <= j < k < pos.len() ==> #[trigger] pos[j] < #[trigger] pos[k]
            }
        },
{
    let max: int = if height >= 2 { height - 2 } else { 0 };
    if all.len() > max {
        lemma_kept_positions(all, max, all.len());
        let pos = kept_positions(all, max, all.len());
        let kept = overflow(all, max, all.len()).0;
        assert(pos.len() == kept.len());
        assert(forall|k: int| 0 <= k < pos.len() ==> 0 <= #[trigger] pos[k] < all.len() && !all[pos[k]].1 && all[pos[k]].0 == kept[k]);
    }
}

/// The checklist after a run of events, each with the time it arrived.
pub open spec fn checklist_run(rows: Seq<RowV>, events: Seq<(ProgressEvent, u64)>) -> Seq<RowV>
    decreases events.len(),
{
    if events.len() == 0 {
        rows
    } else {
        checklist_step(checklist_run(rows, events.drop_last()), events.last().0, events.last().1)
    }
}

/// An event never adds, removes, reorders or renames rows, and leaves the
/// rows of every other inspector as they were.
pub proof fn law_event_keeps_rows(rows: Seq<RowV>, e: ProgressEvent, now: u64)
    ensures
        checklist_step(rows, e, now).len() == rows.len(),
        forall|i: int| 0 <= i < rows.len() ==> (#[trigger] checklist_step(rows, e, now)[i]).id == rows[i].id
            && checklist_step(rows, e, now)[i].name == rows[i].name,
        forall|i: int| 0 <= i < rows.len() && rows[i].id != event_inspector(e) ==> #[trigger] checklist_step(rows, e, now)[i] == rows[i],
{
    lemma_find_row_from_bounds(rows, event_inspector(e), 0);
}

/// Whatever events arrive, the checklist keeps one row per inspector it
/// started with, in the same order and under the same names.
pub proof fn law_run_keeps_rows(rows: Seq<RowV>, events: Seq<(ProgressEvent, u64)>)
    ensures
        checklist_run(rows, events).len() == rows.len(),
        forall|i: int| 0 <= i < rows.len() ==> (#[trigger] checklist_run(rows, events)[i]).id == rows[i].id
            && checklist_run(rows, events)[i].name == rows[i].name,
    decreases events.len(),
{
    if events.len() > 0 {
        law_run_keeps_rows(rows, events.drop_last());
        let prev = checklist_run(rows, events.drop_last());
        law_event_keeps_rows(prev, events.last().0, events.last().1);
        assert forall|i: int| 0 <= i < rows.len() implies (#[trigger] checklist_run(rows, events)[i]).id == rows[i].id
            && checklist_run(rows, events)[i].name == rows[i].name by {
            assert(prev[i].id == rows[i].id);
        }
    }
}

} // verus!
