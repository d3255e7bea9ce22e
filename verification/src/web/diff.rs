//! The fleet view's diff of two variants of a config file: which request
//! is refused and why, which two snapshot entries are compared, and how a
//! computed diff is answered.

use vstd::prelude::*;
use crate::text::push_str;
use crate::tui_types::ItemId;
use crate::web::aggregate::{
    strings_view, AggregateDiffChange, AggregateDiffHunk, AggregateDiffResponse, AggregateDiffStats, AggregateLineRange,
};
use crate::web::fleet::{config_keys, hosts_spec, path_entries, ConfigFileVariant};
use crate::web::grouping::{indices_with, keys_view, lemma_indices_with};

verus! {

/// A request to diff two variants of a config file, by content hash.
pub struct AggregateDiffRequest {
    pub item_id: ItemId,
    pub base: String,
    pub target: String,
}

/// Why a diff request is refused (all answered with status 422).
#[derive(Clone, Debug, PartialEq, Eq)]
pub enum AggregateDiffError {
    NotConfig,
    NoConfigSection,
    UnknownPath(String),
    UnknownBase(String),
    UnknownTarget(String),
    BinaryContent,
    InputTooLarge,
}

/// The kind of a diff line.
#[derive(Clone, Copy, Debug, PartialEq, Eq, Structural)]
pub enum ChangeKind {
    Equal,
    Delete,
    Insert,
}

/// One line of a computed diff.
pub struct DiffChange {
    pub kind: ChangeKind,
    pub content: String,
}

/// A hunk of a computed diff.
pub struct DiffHunk {
    pub base_range: AggregateLineRange,
    pub target_range: AggregateLineRange,
    pub changes: Vec<DiffChange>,
}

/// A computed diff of two contents.
pub struct DiffResult {
    pub hunks: Vec<DiffHunk>,
    pub stats: AggregateDiffStats,
}

/// Why two contents could not be diffed.
#[derive(Clone, Copy, Debug, PartialEq, Eq, Structural)]
pub enum DiffError {
    BinaryContent,
    InputTooLarge,
}

/// The two entries to diff and the hosts each is on.
pub struct DiffPlan {
    pub base_index: usize,
    pub target_index: usize,
    pub base_hosts: Vec<String>,
    pub target_hosts: Vec<String>,
}

pub enum DiffErrorView {
    NotConfig,
    NoConfigSection,
    UnknownPath(Seq<char>),
    UnknownBase(Seq<char>),
    UnknownTarget(Seq<char>),
    BinaryContent,
    InputTooLarge,
}

pub open spec fn diff_error_view(e: AggregateDiffError) -> DiffErrorView {
    match e {
        AggregateDiffError::NotConfig => DiffErrorView::NotConfig,
        AggregateDiffError::NoConfigSection => DiffErrorView::NoConfigSection,
        AggregateDiffError::UnknownPath(p) => DiffErrorView::UnknownPath(p@),
        AggregateDiffError::UnknownBase(h) => DiffErrorView::UnknownBase(h@),
        AggregateDiffError::UnknownTarget(h) => DiffErrorView::UnknownTarget(h@),
        AggregateDiffError::BinaryContent => DiffErrorView::BinaryContent,
        AggregateDiffError::InputTooLarge => DiffErrorView::InputTooLarge,
    }
}

/// The message a refusal is answered with.
pub open spec fn diff_error_message(e: DiffErrorView) -> Seq<char> {
    match e {
        DiffErrorView::NotConfig => "diff is only supported for config items"@,
        DiffErrorView::NoConfigSection => "no config section in snapshot"@,
        DiffErrorView::UnknownPath(p) => "unknown config path: "@ + p,
        DiffErrorView::UnknownBase(h) => "unknown base hash: "@ + h,
        DiffErrorView::UnknownTarget(h) => "unknown target hash: "@ + h,
        DiffErrorView::BinaryContent => "binary content cannot be diffed"@,
        DiffErrorView::InputTooLarge => "content exceeds size limit for diffing"@,
    }
}

fn own(x: &str) -> (r: String)
    ensures
        r@ == x@,
{
    x.to_owned()
}

fn cat(a: &str, b: &str) -> (r: String)
    ensures
        r@ == a@ + b@,
{
    let mut r = own(a);
    push_str(&mut r, b);
    r
}

impl AggregateDiffError {
    pub fn message(&self) -> (m: String)
        ensures
            m@ == diff_error_message(diff_error_view(*self)),
    {
        match self {
            AggregateDiffError::NotConfig => own("diff is only supported for config items"),
            AggregateDiffError::NoConfigSection => own("no config section in snapshot"),
            AggregateDiffError::UnknownPath(p) => cat("unknown config path: ", p.as_str()),
            AggregateDiffError::UnknownBase(h) => cat("unknown base hash: ", h.as_str()),
            AggregateDiffError::UnknownTarget(h) => cat("unknown target hash: ", h.as_str()),
            AggregateDiffError::BinaryContent => own("binary content cannot be diffed"),
            AggregateDiffError::InputTooLarge => own("content exceeds size limit for diffing"),
        }
    }

    /// The HTTP status of the refusal: 422 (Unprocessable Entity) for every
    /// refusal of a well-formed request.
    pub fn status(&self) -> (s: u16)
        ensures
            s == 422,
    {
        422
    }
}

/// The reply to a request body that is not a diff request: status 400 and
/// `invalid request: ` followed by what the parser reported.
pub fn malformed_request_reply(detail: &str) -> (r: (u16, String))
    ensures
        r.0 == 400,
        r.1@ == "invalid request: "@ + detail@,
{
    (400, cat("invalid request: ", detail))
}

/// The first of the entries at `ix`, in order, whose content hash is `h`.
pub open spec fn first_with_hash(fs: Seq<ConfigFileVariant>, ix: Seq<int>, h: Seq<char>) -> Option<int>
    decreases ix.len(),
{
    if ix.len() == 0 {
        None
    } else if fs[ix[0]].variant.content_hash@ == h {
        Some(ix[0])
    } else {
        first_with_hash(fs, ix.drop_first(), h)
    }
}

pub struct PlanView {
    pub base_index: int,
    pub target_index: int,
    pub base_hosts: Seq<Seq<char>>,
    pub target_hosts: Seq<Seq<char>>,
}

pub open spec fn plan_view(p: DiffPlan) -> PlanView {
    PlanView {
        base_index: p.base_index as int,
        target_index: p.target_index as int,
        base_hosts: strings_view(p.base_hosts@),
        target_hosts: strings_view(p.target_hosts@),
    }
}

/// What a diff request is answered with before any diff is computed: the
/// item must be a config file, the snapshot must have config files, the
/// path must have entries, and each hash must be that of one of them (the
/// first such entry is taken).
pub open spec fn plan_spec(id: ItemId, base: Seq<char>, target: Seq<char>, files: Option<Vec<ConfigFileVariant>>) -> Result<PlanView, DiffErrorView> {
    match id {
        ItemId::Config { path } => match files {
            None => Err(DiffErrorView::NoConfigSection),
            Some(fv) => {
                let fs = fv@;
                let ix = path_entries(fs, path@);
                if ix.len() == 0 {
                    Err(DiffErrorView::UnknownPath(path@))
                } else {
                    match first_with_hash(fs, ix, base) {
                        None => Err(DiffErrorView::UnknownBase(base)),
                        Some(b) => match first_with_hash(fs, ix, target) {
                            None => Err(DiffErrorView::UnknownTarget(target)),
                            Some(t) => Ok(PlanView {
                                base_index: b,
                                target_index: t,
                                base_hosts: hosts_spec(fs[b].variant.aggregate),
                                target_hosts: hosts_spec(fs[t].variant.aggregate),
                            }),
                        },
                    }
                }
            },
        },
        _ => Err(DiffErrorView::NotConfig),
    }
}

proof fn lemma_first_with_hash(fs: Seq<ConfigFileVariant>, ix: Seq<int>, h: Seq<char>)
    requires
        forall|j: int| 0 <= j < ix.len() ==> 0 <= #[trigger] ix[j] < fs.len(),
    ensures
        match first_with_hash(fs, ix, h) {
            Some(k) => 0 <= k < fs.len() && fs[k].variant.content_hash@ == h,
            None => true,
        },
    decreases ix.len(),
{
    if ix.len() > 0 && fs[ix[0]].variant.content_hash@ != h {
        assert forall|j: int| 0 <= j < ix.drop_first().len() implies 0 <= #[trigger] ix.drop_first()[j] < fs.len() by {
            assert(ix.drop_first()[j] == ix[j + 1]);
        }
        lemma_first_with_hash(fs, ix.drop_first(), h);
    }
}

fn find_hash(fs: &Vec<ConfigFileVariant>, ix: &Vec<usize>, h: &str) -> (r: Option<usize>)
    requires
        forall|j: int| 0 <= j < ix@.len() ==> #[trigger] ix@[j] < fs@.len(),
    ensures
        match r {
            Some(k) => k < fs@.len() && first_with_hash(fs@, ix@.map_values(|m: usize| m as int), h@) == Some(k as int),
            None => first_with_hash(fs@, ix@.map_values(|m: usize| m as int), h@) is None,
        },
{
    let ghost iv = ix@.map_values(|m: usize| m as int);
    let mut i: usize = 0;
    assert(iv.skip(0) =~= iv);
    while i < ix.len()
        invariant
            0 <= i <= ix@.len(),
            iv == ix@.map_values(|m: usize| m as int),
            forall|j: int| 0 <= j < ix@.len() ==> #[trigger] ix@[j] < fs@.len(),
            first_with_hash(fs@, iv, h@) == first_with_hash(fs@, iv.skip(i as int), h@),
        decreases ix@.len() - i,
    {
        assert(iv.skip(i as int)[0] == ix@[i as int] as int);
        if crate::text::str_eq(fs[ix[i]].variant.content_hash.as_str(), h) {
            return Some(ix[i]);
        }
        assert(iv.skip(i as int).drop_first() =~= iv.skip(i + 1));
        i = i + 1;
    }
    None
}

fn copy_hosts(v: &Vec<String>) -> (r: Vec<String>)
    ensures
        strings_view(r@) == strings_view(v@),
{
    let mut r: Vec<String> = Vec::new();
    let mut i: usize = 0;
    while i < v.len()
        invariant
            0 <= i <= v@.len(),
            strings_view(r@) == strings_view(v@).take(i as int),
        decreases v@.len() - i,
    {
        let ghost before = r@;
        r.push(own(v[i].as_str()));
        assert(strings_view(r@) =~= strings_view(before).push(v@[i as int]@));
        assert(strings_view(v@).take(i + 1) =~= strings_view(v@).take(i as int).push(v@[i as int]@));
        i = i + 1;
    }
    assert(strings_view(v@).take(v@.len() as int) =~= strings_view(v@));
    r
}

fn hosts_of_entry(f: &ConfigFileVariant) -> (r: Vec<String>)
    ensures
        strings_view(r@) == hosts_spec(f.variant.aggregate),
{
    match &f.variant.aggregate {
        Some(a) => copy_hosts(&a.hosts),
        None => Vec::new(),
    }
}

fn path_positions(fs: &Vec<ConfigFileVariant>, path: &str) -> (v: Vec<usize>)
    ensures
        v@.map_values(|m: usize| m as int) == path_entries(fs@, path@),
        forall|j: int| 0 <= j < v@.len() ==> #[trigger] v@[j] < fs@.len(),
{
    let ghost kv = config_keys(fs@);
    let mut v: Vec<usize> = Vec::new();
    let mut i: usize = 0;
    while i < fs.len()
        invariant
            0 <= i <= fs@.len(),
            kv == config_keys(fs@),
            v@.map_values(|m: usize| m as int) == indices_with(kv.take(i as int), (path@, Seq::<char>::empty())),
            forall|j: int| 0 <= j < v@.len() ==> #[trigger] v@[j] < i,
        decreases fs@.len() - i,
    {
        let ghost before = v@;
        assert(kv.take(i + 1).drop_last() =~= kv.take(i as int));
        assert(kv.take(i + 1).last() == kv[i as int]);
        if crate::text::str_eq(fs[i].path.as_str(), path) {
            v.push(i);
            assert(v@.map_values(|m: usize| m as int) =~= before.map_values(|m: usize| m as int).push(i as int));
        }
        i = i + 1;
    }
    assert(kv.take(fs@.len() as int) =~= kv);
    v
}

/// Checks a diff request and finds the two entries to diff.
pub fn plan_aggregate_diff(req: &AggregateDiffRequest, files: &Option<Vec<ConfigFileVariant>>) -> (r: Result<DiffPlan, AggregateDiffError>)
    ensures
        match r {
            Ok(p) => plan_spec(req.item_id, req.base@, req.target@, *files) == Ok::<PlanView, DiffErrorView>(plan_view(p)),
            Err(e) => plan_spec(req.item_id, req.base@, req.target@, *files) == Err::<PlanView, DiffErrorView>(diff_error_view(e)),
        },
{
    let path = match &req.item_id {
        ItemId::Config { path } => path,
        _ => {
            return Err(AggregateDiffError::NotConfig);
        },
    };
    let fs = match files {
        Some(fs) => fs,
        None => {
            return Err(AggregateDiffError::NoConfigSection);
        },
    };
    let ix = path_positions(fs, path.as_str());
    if ix.len() == 0 {
        return Err(AggregateDiffError::UnknownPath(own(path.as_str())));
    }
    let ghost iv = ix@.map_values(|m: usize| m as int);
    let b = match find_hash(fs, &ix, req.base.as_str()) {
        Some(b) => b,
        None => {
            return Err(AggregateDiffError::UnknownBase(own(req.base.as_str())));
        },
    };
    let t = match find_hash(fs, &ix, req.target.as_str()) {
        Some(t) => t,
        None => {
            return Err(AggregateDiffError::UnknownTarget(own(req.target.as_str())));
        },
    };
    let p = DiffPlan { base_index: b, target_index: t, base_hosts: hosts_of_entry(&fs[b]), target_hosts: hosts_of_entry(&fs[t]) };
    assert(plan_view(p) == PlanView {
        base_index: b as int,
        target_index: t as int,
        base_hosts: hosts_spec(fs@[b as int].variant.aggregate),
        target_hosts: hosts_spec(fs@[t as int].variant.aggregate),
    });
    Ok(p)
}

// ---- the answer ----

pub open spec fn kind_name(k: ChangeKind) -> Seq<char> {
    match k {
        ChangeKind::Equal => "equal"@,
        ChangeKind::Delete => "delete"@,
        ChangeKind::Insert => "insert"@,
    }
}

pub open spec fn change_view(c: AggregateDiffChange) -> (Seq<char>, Seq<char>) {
    (c.kind@, c.content@)
}

pub open spec fn computed_change_view(c: DiffChange) -> (Seq<char>, Seq<char>) {
    (kind_name(c.kind), c.content@)
}

pub open spec fn hunk_view(h: AggregateDiffHunk) -> (AggregateLineRange, AggregateLineRange, Seq<(Seq<char>, Seq<char>)>) {
    (h.base_range, h.target_range, h.changes@.map_values(|c: AggregateDiffChange| change_view(c)))
}

pub open spec fn computed_hunk_view(h: DiffHunk) -> (AggregateLineRange, AggregateLineRange, Seq<(Seq<char>, Seq<char>)>) {
    (h.base_range, h.target_range, h.changes@.map_values(|c: DiffChange| computed_change_view(c)))
}

fn change_dto(c: DiffChange) -> (r: AggregateDiffChange)
    ensures
        change_view(r) == computed_change_view(c),
{
    let kind = match c.kind {
        ChangeKind::Equal => own("equal"),
        ChangeKind::Delete => own("delete"),
        ChangeKind::Insert => own("insert"),
    };
    AggregateDiffChange { kind, content: c.content }
}

fn hunk_dto(h: DiffHunk) -> (r: AggregateDiffHunk)
    ensures
        hunk_view(r) == computed_hunk_view(h),
{
    let ghost want = h.changes@.map_values(|c: DiffChange| computed_change_view(c));
    let n = h.changes.len();
    let mut rest = h.changes;
    let mut changes: Vec<AggregateDiffChange> = Vec::new();
    let mut k: usize = 0;
    while rest.len() > 0
        invariant
            0 <= k <= n,
            rest@.len() == n - k,
            want.len() == n,
            rest@.map_values(|c: DiffChange| computed_change_view(c)) == want.skip(k as int),
            changes@.map_values(|c: AggregateDiffChange| change_view(c)) == want.take(k as int),
        decreases rest@.len(),
    {
        let ghost r0 = rest@;
        let c = rest.remove(0);
        assert(r0.map_values(|c: DiffChange| computed_change_view(c))[0] == computed_change_view(c));
        assert(want.skip(k as int)[0] == want[k as int]);
        assert(rest@ =~= r0.skip(1));
        assert(rest@.map_values(|c: DiffChange| computed_change_view(c)) =~= r0.map_values(|c: DiffChange| computed_change_view(c)).skip(1));
        assert(want.skip(k as int).skip(1) =~= want.skip(k + 1));
        let d = change_dto(c);
        let ghost before = changes@;
        changes.push(d);
        assert(changes@.map_values(|c: AggregateDiffChange| change_view(c)) =~= before.map_values(|c: AggregateDiffChange| change_view(c)).push(change_view(d)));
        assert(want.take(k + 1) =~= want.take(k as int).push(want[k as int]));
        k = k + 1;
    }
    assert(want.take(n as int) =~= want);
    AggregateDiffHunk { base_range: h.base_range, target_range: h.target_range, changes }
}

pub struct DiffResponseView {
    pub base_hash: Seq<char>,
    pub target_hash: Seq<char>,
    pub base_hosts: Seq<Seq<char>>,
    pub target_hosts: Seq<Seq<char>>,
    pub hunks: Seq<(AggregateLineRange, AggregateLineRange, Seq<(Seq<char>, Seq<char>)>)>,
    pub stats: AggregateDiffStats,
}

pub open spec fn response_view(r: AggregateDiffResponse) -> DiffResponseView {
    DiffResponseView {
        base_hash: r.base_hash@,
        target_hash: r.target_hash@,
        base_hosts: strings_view(r.base_hosts@),
        target_hosts: strings_view(r.target_hosts@),
        hunks: r.hunks@.map_values(|h: AggregateDiffHunk| hunk_view(h)),
        stats: r.stats,
    }
}

/// The answer to a diff request once the diff was computed: the hashes as
/// requested, the hosts of each entry, and the hunks and totals of the
/// diff with each line's kind named; a refusal when the contents could not
/// be diffed.
pub fn aggregate_diff_response(base: String, target: String, plan: DiffPlan, diff: Result<DiffResult, DiffError>) -> (r: Result<AggregateDiffResponse, AggregateDiffError>)
    ensures
        match diff {
            Err(DiffError::BinaryContent) => r matches Err(e) && e == AggregateDiffError::BinaryContent,
            Err(DiffError::InputTooLarge) => r matches Err(e) && e == AggregateDiffError::InputTooLarge,
            Ok(d) => r matches Ok(resp) && response_view(resp) == DiffResponseView {
                base_hash: base@,
                target_hash: target@,
                base_hosts: strings_view(plan.base_hosts@),
                target_hosts: strings_view(plan.target_hosts@),
                hunks: d.hunks@.map_values(|h: DiffHunk| computed_hunk_view(h)),
                stats: d.stats,
            },
        },
{
    let d = match diff {
        Ok(d) => d,
        Err(DiffError::BinaryContent) => {
            return Err(AggregateDiffError::BinaryContent);
        },
        Err(DiffError::InputTooLarge) => {
            return Err(AggregateDiffError::InputTooLarge);
        },
    };
    let ghost want = d.hunks@.map_values(|h: DiffHunk| computed_hunk_view(h));
    let stats = d.stats;
    let n = d.hunks.len();
    let mut rest = d.hunks;
    let mut hunks: Vec<AggregateDiffHunk> = Vec::new();
    let mut k: usize = 0;
    while rest.len() > 0
        invariant
            0 <= k <= n,
            rest@.len() == n - k,
            want.len() == n,
            rest@.map_values(|h: DiffHunk| computed_hunk_view(h)) == want.skip(k as int),
            hunks@.map_values(|h: AggregateDiffHunk| hunk_view(h)) == want.take(k as int),
        decreases rest@.len(),
    {
        let ghost r0 = rest@;
        let h = rest.remove(0);
        assert(r0.map_values(|h: DiffHunk| computed_hunk_view(h))[0] == computed_hunk_view(h));
        assert(want.skip(k as int)[0] == want[k as int]);
        assert(rest@ =~= r0.skip(1));
        assert(rest@.map_values(|h: DiffHunk| computed_hunk_view(h)) =~= r0.map_values(|h: DiffHunk| computed_hunk_view(h)).skip(1));
        assert(want.skip(k as int).skip(1) =~= want.skip(k + 1));
        let dto = hunk_dto(h);
        let ghost before = hunks@;
        hunks.push(dto);
        assert(hunks@.map_values(|h: AggregateDiffHunk| hunk_view(h)) =~= before.map_values(|h: AggregateDiffHunk| hunk_view(h)).push(hunk_view(dto)));
        assert(want.take(k + 1) =~= want.take(k as int).push(want[k as int]));
        k = k + 1;
    }
    assert(want.take(n as int) =~= want);
    let resp = AggregateDiffResponse { base_hash: base, target_hash: target, base_hosts: plan.base_hosts, target_hosts: plan.target_hosts, hunks, stats };
    Ok(resp)
}

} // verus!
