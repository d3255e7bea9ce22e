//! The package-group part of the web view: each installed DNF group with
//! its render state, members (new packages first, then those of the base
//! image, by name) and counts; and why a package is shown on its own
//! rather than inside its group.

use vstd::prelude::*;

use crate::text::{str_eq, string_views};
use crate::web::web_types::{
    GroupInfo, GroupMemberInfo, LanguagePackageEnvDto, PackageProvenance, ProvenanceSignalsDto, UnmanagedFileGroupDto,
    UnmanagedFileItemDto, VersionChangeEntry,
};
use crate::web::adapter::{VersionChange, VersionChangeDirection};

verus! {

/// An installed DNF group of the host.
pub struct InstalledGroup {
    pub name: String,
    pub members: Vec<String>,
    /// Optional members that were installed.
    pub optional_installed: Vec<String>,
}

/// Why a group cannot be rendered as a whole.
#[derive(Debug, Clone, Copy, PartialEq, Eq, Structural)]
pub enum DegradationReason {
    MemberExcluded,
    MemberOverridden,
    MultilibConflict,
}

/// How a group is rendered into the Containerfile.
#[derive(Debug, Clone, Copy, PartialEq, Eq, Structural)]
pub enum GroupRenderState {
    Renderable,
    Excluded,
    Ungrouped,
    Degraded { reason: DegradationReason },
}

/// A package of the projected snapshot (what the image adds).
pub struct ProjectedPackage {
    pub name: String,
    pub locked: bool,
}

/// A package of the session view, by name and architecture.
pub struct ViewPackage {
    pub name: String,
    pub arch: String,
}

// ---- names and lookups ----

/// Lexicographic order of character sequences (the order of `String`:
/// byte order of UTF-8 is code-point order).
pub open spec fn chars_lt(a: Seq<char>, b: Seq<char>) -> bool
    decreases a.len(),
{
    if b.len() == 0 {
        false
    } else if a.len() == 0 {
        true
    } else if a[0] != b[0] {
        (a[0] as u32) < (b[0] as u32)
    } else {
        chars_lt(a.drop_first(), b.drop_first())
    }
}

/// `a` comes before `b` in `String` order.
pub fn str_lt(a: &str, b: &str) -> (r: bool)
    ensures
        r == chars_lt(a@, b@),
{
    let x = crate::text::chars_of(a);
    let y = crate::text::chars_of(b);
    let mut i: usize = 0;
    assert(x@.skip(0) =~= x@);
    assert(y@.skip(0) =~= y@);
    while i < x.len() && i < y.len()
        invariant
            0 <= i <= x@.len(),
            i <= y@.len(),
            x@ == a@,
            y@ == b@,
            x@.take(i as int) == y@.take(i as int),
            chars_lt(x@, y@) == chars_lt(x@.skip(i as int), y@.skip(i as int)),
        decreases x@.len() - i,
    {
        let c = x[i];
        let d = y[i];
        assert(x@.skip(i as int)[0] == c && y@.skip(i as int)[0] == d);
        if c != d {
            let r = (c as u32) < (d as u32);
            assert(x@.skip(i as int).len() > 0 && y@.skip(i as int).len() > 0);
            assert(chars_lt(x@.skip(i as int), y@.skip(i as int)) == r);
            return r;
        }
        assert(x@.skip(i as int).drop_first() =~= x@.skip(i + 1));
        assert(y@.skip(i as int).drop_first() =~= y@.skip(i + 1));
        assert(x@.take(i + 1) =~= x@.take(i as int).push(c));
        assert(y@.take(i + 1) =~= y@.take(i as int).push(d));
        i = i + 1;
    }
    i < y.len()
}

/// `name` occurs among `names`.
pub open spec fn has_name(names: Seq<String>, name: Seq<char>) -> bool {
    exists|i: int| 0 <= i < names.len() && (#[trigger] names[i])@ == name
}

fn has_name_exec(names: &Vec<String>, name: &str) -> (b: bool)
    ensures
        b == has_name(names@, name@),
{
    let mut i: usize = 0;
    while i < names.len()
        invariant
            0 <= i <= names@.len(),
            forall|j: int| 0 <= j < i ==> (#[trigger] names@[j])@ != name@,
        decreases names@.len() - i,
    {
        if str_eq(names[i].as_str(), name) {
            return true;
        }
        i = i + 1;
    }
    false
}

/// The recorded render state of the group named `name` (first entry).
pub open spec fn state_of(states: Seq<(String, GroupRenderState)>, name: Seq<char>) -> Option<GroupRenderState>
    decreases states.len(),
{
    if states.len() == 0 {
        None
    } else if states[0].0@ == name {
        Some(states[0].1)
    } else {
        state_of(states.drop_first(), name)
    }
}

fn state_of_exec(states: &Vec<(String, GroupRenderState)>, name: &str) -> (r: Option<GroupRenderState>)
    ensures
        r == state_of(states@, name@),
{
    let mut i: usize = 0;
    assert(states@.skip(0) =~= states@);
    while i < states.len()
        invariant
            0 <= i <= states@.len(),
            state_of(states@, name@) == state_of(states@.skip(i as int), name@),
        decreases states@.len() - i,
    {
        assert(states@.skip(i as int)[0] == states@[i as int]);
        if str_eq(states[i].0.as_str(), name) {
            return Some(states[i].1);
        }
        assert(states@.skip(i as int).drop_first() =~= states@.skip(i + 1));
        i = i + 1;
    }
    None
}

/// The projected snapshot adds a package named `name`.
pub open spec fn projected_has(ps: Seq<ProjectedPackage>, name: Seq<char>) -> bool {
    exists|i: int| 0 <= i < ps.len() && (#[trigger] ps[i]).name@ == name
}

/// The projected snapshot adds a locked package named `name`.
pub open spec fn projected_locked(ps: Seq<ProjectedPackage>, name: Seq<char>) -> bool {
    exists|i: int| 0 <= i < ps.len() && (#[trigger] ps[i]).name@ == name && ps[i].locked
}

fn projected_flags(ps: &Vec<ProjectedPackage>, name: &str) -> (r: (bool, bool))
    ensures
        r.0 == projected_has(ps@, name@),
        r.1 == projected_locked(ps@, name@),
{
    let mut found = false;
    let mut locked = false;
    let mut i: usize = 0;
    while i < ps.len()
        invariant
            0 <= i <= ps@.len(),
            found == exists|j: int| 0 <= j < i && (#[trigger] ps@[j]).name@ == name@,
            locked == exists|j: int| 0 <= j < i && (#[trigger] ps@[j]).name@ == name@ && ps@[j].locked,
        decreases ps@.len() - i,
    {
        if str_eq(ps[i].name.as_str(), name) {
            found = true;
            if ps[i].locked {
                locked = true;
            }
        }
        i = i + 1;
    }
    (found, locked)
}

// ---- members ----

/// A member of a group, by value.
pub struct MemberView {
    pub name: Seq<char>,
    pub locked: bool,
    pub overlap_groups: Seq<Seq<char>>,
    pub in_base_image: bool,
}

pub open spec fn member_view(m: GroupMemberInfo) -> MemberView {
    MemberView {
        name: m.name@,
        locked: m.locked,
        overlap_groups: string_views(m.overlap_groups@),
        in_base_image: m.in_base_image,
    }
}

pub open spec fn members_view(ms: Seq<GroupMemberInfo>) -> Seq<MemberView> {
    ms.map_values(|m: GroupMemberInfo| member_view(m))
}

/// The other groups (by name) that also list `member`, in order.
pub open spec fn overlap_names(groups: Seq<InstalledGroup>, own: Seq<char>, member: Seq<char>) -> Seq<Seq<char>>
    decreases groups.len(),
{
    if groups.len() == 0 {
        Seq::empty()
    } else {
        let g = groups.last();
        overlap_names(groups.drop_last(), own, member)
            + (if g.name@ != own && has_name(g.members@, member) { seq![g.name@] } else { Seq::empty() })
    }
}

/// A member's entry: locked when the image adds it locked; in the base
/// image when the image does not add it; the other groups listing it.
pub open spec fn member_entry(m: Seq<char>, own: Seq<char>, groups: Seq<InstalledGroup>, projected: Seq<ProjectedPackage>) -> MemberView {
    MemberView {
        name: m,
        locked: projected_locked(projected, m),
        overlap_groups: overlap_names(groups, own, m),
        in_base_image: !projected_has(projected, m),
    }
}

/// Member order: members the image adds first, then base-image members;
/// by name within each.
pub open spec fn member_before(a: MemberView, b: MemberView) -> bool {
    (!a.in_base_image && b.in_base_image) || (a.in_base_image == b.in_base_image && chars_lt(a.name, b.name))
}

/// Where `x` goes in sorted `s`: before the first element it precedes.
pub open spec fn insert_pos(s: Seq<MemberView>, x: MemberView, j: int) -> int
    decreases s.len() - j,
{
    if j >= s.len() || j < 0 {
        s.len() as int
    } else if member_before(x, s[j]) {
        j
    } else {
        insert_pos(s, x, j + 1)
    }
}

/// Stable insertion sort of members.
pub open spec fn sort_members(s: Seq<MemberView>) -> Seq<MemberView>
    decreases s.len(),
{
    if s.len() == 0 {
        Seq::empty()
    } else {
        let r = sort_members(s.drop_last());
        r.insert(insert_pos(r, s.last(), 0), s.last())
    }
}

/// Number of members for which `p` holds.
pub open spec fn count_members(s: Seq<MemberView>, p: spec_fn(MemberView) -> bool) -> nat
    decreases s.len(),
{
    if s.len() == 0 {
        0
    } else {
        count_members(s.drop_last(), p) + (if p(s.last()) { 1nat } else { 0nat })
    }
}

/// Label of a render state and the degradation reason, if any.
pub open spec fn state_label(st: GroupRenderState) -> (Seq<char>, Option<Seq<char>>) {
    match st {
        GroupRenderState::Renderable => ("renderable"@, None),
        GroupRenderState::Excluded => ("excluded"@, None),
        GroupRenderState::Ungrouped => ("ungrouped"@, None),
        GroupRenderState::Degraded { reason } => ("degraded"@, Some(match reason {
            DegradationReason::MemberExcluded => "member_excluded"@,
            DegradationReason::MemberOverridden => "member_overridden"@,
            DegradationReason::MultilibConflict => "multilib_conflict"@,
        })),
    }
}

/// The render state of a group; one without a recorded state renders.
pub open spec fn group_state(states: Seq<(String, GroupRenderState)>, name: Seq<char>) -> GroupRenderState {
    match state_of(states, name) {
        Some(s) => s,
        None => GroupRenderState::Renderable,
    }
}

/// A group's summary, by value.
pub struct GroupView {
    pub name: Seq<char>,
    pub member_count: nat,
    pub added_count: nat,
    pub locked_count: nat,
    pub optional_spillover_count: nat,
    pub render_state: Seq<char>,
    pub degradation_reason: Option<Seq<char>>,
    pub members: Seq<MemberView>,
}

pub open spec fn group_view(g: GroupInfo) -> GroupView {
    GroupView {
        name: g.name@,
        member_count: g.member_count as nat,
        added_count: g.added_count as nat,
        locked_count: g.locked_count as nat,
        optional_spillover_count: g.optional_spillover_count as nat,
        render_state: g.render_state@,
        degradation_reason: match g.degradation_reason {
            Some(s) => Some(s@),
            None => None,
        },
        members: members_view(g.members@),
    }
}

/// The members of `g`, in the group's order.
pub open spec fn member_entries(g: InstalledGroup, groups: Seq<InstalledGroup>, projected: Seq<ProjectedPackage>) -> Seq<MemberView> {
    g.members@.map_values(|m: String| member_entry(m@, g.name@, groups, projected))
}

/// The summary of installed group `g`.
pub open spec fn group_summary(g: InstalledGroup, groups: Seq<InstalledGroup>, states: Seq<(String, GroupRenderState)>, projected: Seq<ProjectedPackage>) -> GroupView {
    let entries = member_entries(g, groups, projected);
    let (label, reason) = state_label(group_state(states, g.name@));
    GroupView {
        name: g.name@,
        member_count: entries.len(),
        added_count: count_members(entries, |m: MemberView| !m.in_base_image),
        locked_count: count_members(entries, |m: MemberView| m.locked),
        optional_spillover_count: g.optional_installed@.len(),
        render_state: label,
        degradation_reason: reason,
        members: sort_members(entries),
    }
}

// ---- building group summaries ----

fn own(x: &str) -> (r: String)
    ensures
        r@ == x@,
{
    x.to_owned()
}

fn overlap_exec(groups: &Vec<InstalledGroup>, own_name: &str, member: &str) -> (v: Vec<String>)
    ensures
        string_views(v@) == overlap_names(groups@, own_name@, member@),
{
    let mut v: Vec<String> = Vec::new();
    let mut i: usize = 0;
    while i < groups.len()
        invariant
            0 <= i <= groups@.len(),
            string_views(v@) == overlap_names(groups@.take(i as int), own_name@, member@),
        decreases groups@.len() - i,
    {
        let g = &groups[i];
        let ghost before = v@;
        if !str_eq(g.name.as_str(), own_name) && has_name_exec(&g.members, member) {
            v.push(own(g.name.as_str()));
            assert(string_views(v@) =~= string_views(before).push(g.name@));
        }
        assert(groups@.take(i + 1).drop_last() =~= groups@.take(i as int));
        assert(string_views(v@) =~= overlap_names(groups@.take(i + 1), own_name@, member@));
        i = i + 1;
    }
    assert(groups@.take(groups@.len() as int) =~= groups@);
    v
}

fn member_entry_exec(m: &str, own_name: &str, groups: &Vec<InstalledGroup>, projected: &Vec<ProjectedPackage>) -> (r: GroupMemberInfo)
    ensures
        member_view(r) == member_entry(m@, own_name@, groups@, projected@),
{
    let (found, locked) = projected_flags(projected, m);
    let overlap_groups = overlap_exec(groups, own_name, m);
    GroupMemberInfo { name: own(m), locked, overlap_groups, in_base_image: !found }
}

fn member_before_exec(a: &GroupMemberInfo, b: &GroupMemberInfo) -> (r: bool)
    ensures
        r == member_before(member_view(*a), member_view(*b)),
{
    (!a.in_base_image && b.in_base_image) || (a.in_base_image == b.in_base_image && str_lt(a.name.as_str(), b.name.as_str()))
}

/// Inserts `x` into sorted members after every member it does not precede.
fn insert_member(v: &mut Vec<GroupMemberInfo>, x: GroupMemberInfo)
    ensures
        members_view(final(v)@) == members_view(old(v)@).insert(insert_pos(members_view(old(v)@), member_view(x), 0), member_view(x)),
{
    let ghost sv = members_view(v@);
    let mut j: usize = 0;
    while j < v.len() && !member_before_exec(&x, &v[j])
        invariant
            0 <= j <= v@.len(),
            sv == members_view(v@),
            insert_pos(sv, member_view(x), 0) == insert_pos(sv, member_view(x), j as int),
        decreases v@.len() - j,
    {
        j = j + 1;
    }
    assert(insert_pos(sv, member_view(x), j as int) == j);
    let ghost before = v@;
    v.insert(j, x);
    assert(members_view(v@) =~= members_view(before).insert(j as int, member_view(x)));
}

fn label_exec(st: GroupRenderState) -> (r: (String, Option<String>))
    ensures
        r.0@ == state_label(st).0,
        match r.1 {
            Some(s) => state_label(st).1 == Some(s@),
            None => state_label(st).1 is None,
        },
{
    match st {
        GroupRenderState::Renderable => (own("renderable"), None),
        GroupRenderState::Excluded => (own("excluded"), None),
        GroupRenderState::Ungrouped => (own("ungrouped"), None),
        GroupRenderState::Degraded { reason } => {
            let r = match reason {
                DegradationReason::MemberExcluded => own("member_excluded"),
                DegradationReason::MemberOverridden => own("member_overridden"),
                DegradationReason::MultilibConflict => own("multilib_conflict"),
            };
            (own("degraded"), Some(r))
        },
    }
}

/// The summary of installed group `g`, given all installed groups, the
/// recorded render states and the packages the image adds.
pub fn build_group_info(
    g: &InstalledGroup,
    groups: &Vec<InstalledGroup>,
    states: &Vec<(String, GroupRenderState)>,
    projected: &Vec<ProjectedPackage>,
) -> (r: GroupInfo)
    ensures
        group_view(r) == group_summary(*g, groups@, states@, projected@),
{
    let ghost entries = member_entries(*g, groups@, projected@);
    let mut members: Vec<GroupMemberInfo> = Vec::new();
    let mut added: usize = 0;
    let mut locked: usize = 0;
    let mut i: usize = 0;
    while i < g.members.len()
        invariant
            0 <= i <= g.members@.len(),
            entries == member_entries(*g, groups@, projected@),
            entries.len() == g.members@.len(),
            members_view(members@) == sort_members(entries.take(i as int)),
            added as nat == count_members(entries.take(i as int), |m: MemberView| !m.in_base_image),
            locked as nat == count_members(entries.take(i as int), |m: MemberView| m.locked),
            added <= i,
            locked <= i,
        decreases g.members@.len() - i,
    {
        let e = member_entry_exec(g.members[i].as_str(), g.name.as_str(), groups, projected);
        assert(member_view(e) == entries[i as int]);
        assert(entries.take(i + 1).drop_last() =~= entries.take(i as int));
        if !e.in_base_image {
            added = added + 1;
        }
        if e.locked {
            locked = locked + 1;
        }
        insert_member(&mut members, e);
        i = i + 1;
    }
    assert(entries.take(g.members@.len() as int) =~= entries);
    let st = match state_of_exec(states, g.name.as_str()) {
        Some(s) => s,
        None => GroupRenderState::Renderable,
    };
    let (label, reason) = label_exec(st);
    let r = GroupInfo {
        name: own(g.name.as_str()),
        member_count: g.members.len(),
        added_count: added,
        locked_count: locked,
        optional_spillover_count: g.optional_installed.len(),
        render_state: label,
        degradation_reason: reason,
        members,
    };
    assert(group_view(r) =~= group_summary(*g, groups@, states@, projected@));
    r
}

/// The summaries of all installed groups, in order.
pub fn build_package_groups(
    groups: &Vec<InstalledGroup>,
    states: &Vec<(String, GroupRenderState)>,
    projected: &Vec<ProjectedPackage>,
) -> (v: Vec<GroupInfo>)
    ensures
        v@.map_values(|x: GroupInfo| group_view(x)) == groups@.map_values(|g: InstalledGroup| group_summary(g, groups@, states@, projected@)),
{
    let mut v: Vec<GroupInfo> = Vec::new();
    let mut i: usize = 0;
    while i < groups.len()
        invariant
            0 <= i <= groups@.len(),
            v@.map_values(|x: GroupInfo| group_view(x))
                == groups@.map_values(|g: InstalledGroup| group_summary(g, groups@, states@, projected@)).take(i as int),
        decreases groups@.len() - i,
    {
        let gi = build_group_info(&groups[i], groups, states, projected);
        let ghost before = v@;
        v.push(gi);
        assert(v@.map_values(|x: GroupInfo| group_view(x)) =~= before.map_values(|x: GroupInfo| group_view(x)).push(group_view(gi)));
        assert(groups@.map_values(|g: InstalledGroup| group_summary(g, groups@, states@, projected@)).take(i + 1)
            =~= groups@.map_values(|g: InstalledGroup| group_summary(g, groups@, states@, projected@)).take(i as int)
                .push(group_summary(groups@[i as int], groups@, states@, projected@)));
        i = i + 1;
    }
    assert(groups@.map_values(|g: InstalledGroup| group_summary(g, groups@, states@, projected@)).take(groups@.len() as int)
        =~= groups@.map_values(|g: InstalledGroup| group_summary(g, groups@, states@, projected@)));
    v
}

// ---- package provenance ----

/// The first group, from `i` on, whose installed optional packages
/// include `name`.
pub open spec fn optional_group_from(groups: Seq<InstalledGroup>, name: Seq<char>, i: int) -> Option<int>
    decreases groups.len() - i,
{
    if i < 0 || i >= groups.len() {
        None
    } else if has_name(groups[i].optional_installed@, name) {
        Some(i)
    } else {
        optional_group_from(groups, name, i + 1)
    }
}

/// A recorded state that leaves a group's members on their own.
pub open spec fn loose_state(s: Option<GroupRenderState>) -> bool {
    match s {
        Some(GroupRenderState::Ungrouped) => true,
        Some(GroupRenderState::Degraded { .. }) => true,
        _ => false,
    }
}

/// The first group, from `i` on, that lists `name` and is ungrouped or
/// degraded.
pub open spec fn loose_group_from(groups: Seq<InstalledGroup>, states: Seq<(String, GroupRenderState)>, name: Seq<char>, i: int) -> Option<int>
    decreases groups.len() - i,
{
    if i < 0 || i >= groups.len() {
        None
    } else if has_name(groups[i].members@, name) && loose_state(state_of(states, groups[i].name@)) {
        Some(i)
    } else {
        loose_group_from(groups, states, name, i + 1)
    }
}

/// Why package `name` is shown on its own (kind and group), if it is: an
/// installed optional member of some group; else a member of an
/// ungrouped or degraded group.
pub open spec fn provenance_of(name: Seq<char>, groups: Seq<InstalledGroup>, states: Seq<(String, GroupRenderState)>) -> Option<(Seq<char>, Seq<char>)> {
    match optional_group_from(groups, name, 0) {
        Some(i) => Some(("optional_spillover"@, groups[i].name@)),
        None => match loose_group_from(groups, states, name, 0) {
            Some(i) => Some((
                if state_of(states, groups[i].name@) == Some(GroupRenderState::Ungrouped) {
                    "ungrouped_member"@
                } else {
                    "degraded_member"@
                },
                groups[i].name@,
            )),
            None => None,
        },
    }
}

/// The provenance entries of the view's packages, keyed `name.arch`, in
/// package order, for the packages that have one.
pub open spec fn provenance_entries(pkgs: Seq<ViewPackage>, groups: Seq<InstalledGroup>, states: Seq<(String, GroupRenderState)>) -> Seq<(Seq<char>, Seq<char>, Seq<char>)>
    decreases pkgs.len(),
{
    if pkgs.len() == 0 {
        Seq::empty()
    } else {
        let p = pkgs.last();
        provenance_entries(pkgs.drop_last(), groups, states) + match provenance_of(p.name@, groups, states) {
            Some((kind, group)) => seq![(p.name@ + "."@ + p.arch@, kind, group)],
            None => Seq::empty(),
        }
    }
}

pub open spec fn provenance_view(e: (String, PackageProvenance)) -> (Seq<char>, Seq<char>, Seq<char>) {
    (e.0@, e.1.kind@, e.1.group_name@)
}

fn optional_group_exec(groups: &Vec<InstalledGroup>, name: &str) -> (r: Option<usize>)
    ensures
        match r {
            Some(i) => optional_group_from(groups@, name@, 0) == Some(i as int) && i < groups@.len(),
            None => optional_group_from(groups@, name@, 0) is None,
        },
{
    let mut i: usize = 0;
    while i < groups.len()
        invariant
            0 <= i <= groups@.len(),
            optional_group_from(groups@, name@, 0) == optional_group_from(groups@, name@, i as int),
        decreases groups@.len() - i,
    {
        if has_name_exec(&groups[i].optional_installed, name) {
            return Some(i);
        }
        i = i + 1;
    }
    None
}

fn loose_group_exec(groups: &Vec<InstalledGroup>, states: &Vec<(String, GroupRenderState)>, name: &str) -> (r: Option<usize>)
    ensures
        match r {
            Some(i) => loose_group_from(groups@, states@, name@, 0) == Some(i as int) && i < groups@.len(),
            None => loose_group_from(groups@, states@, name@, 0) is None,
        },
{
    let mut i: usize = 0;
    while i < groups.len()
        invariant
            0 <= i <= groups@.len(),
            loose_group_from(groups@, states@, name@, 0) == loose_group_from(groups@, states@, name@, i as int),
        decreases groups@.len() - i,
    {
        if has_name_exec(&groups[i].members, name) {
            let st = state_of_exec(states, groups[i].name.as_str());
            let loose = match st {
                Some(GroupRenderState::Ungrouped) => true,
                Some(GroupRenderState::Degraded { .. }) => true,
                _ => false,
            };
            if loose {
                return Some(i);
            }
        }
        i = i + 1;
    }
    None
}

fn provenance_exec(name: &str, groups: &Vec<InstalledGroup>, states: &Vec<(String, GroupRenderState)>) -> (r: Option<PackageProvenance>)
    ensures
        match r {
            Some(p) => provenance_of(name@, groups@, states@) == Some((p.kind@, p.group_name@)),
            None => provenance_of(name@, groups@, states@) is None,
        },
{
    match optional_group_exec(groups, name) {
        Some(i) => Some(PackageProvenance { kind: own("optional_spillover"), group_name: own(groups[i].name.as_str()) }),
        None => match loose_group_exec(groups, states, name) {
            Some(i) => {
                let st = state_of_exec(states, groups[i].name.as_str());
                let kind = match st {
                    Some(GroupRenderState::Ungrouped) => own("ungrouped_member"),
                    _ => own("degraded_member"),
                };
                Some(PackageProvenance { kind, group_name: own(groups[i].name.as_str()) })
            },
            None => None,
        },
    }
}

/// Why each package of the view is shown on its own rather than in its
/// group, keyed `name.arch`, for the packages where that holds.
pub fn build_package_provenances(
    pkgs: &Vec<ViewPackage>,
    groups: &Vec<InstalledGroup>,
    states: &Vec<(String, GroupRenderState)>,
) -> (v: Vec<(String, PackageProvenance)>)
    ensures
        v@.map_values(|e: (String, PackageProvenance)| provenance_view(e)) == provenance_entries(pkgs@, groups@, states@),
{
    let mut v: Vec<(String, PackageProvenance)> = Vec::new();
    let mut i: usize = 0;
    while i < pkgs.len()
        invariant
            0 <= i <= pkgs@.len(),
            v@.map_values(|e: (String, PackageProvenance)| provenance_view(e)) == provenance_entries(pkgs@.take(i as int), groups@, states@),
        decreases pkgs@.len() - i,
    {
        let p = &pkgs[i];
        let ghost before = v@;
        assert(pkgs@.take(i + 1).drop_last() =~= pkgs@.take(i as int));
        match provenance_exec(p.name.as_str(), groups, states) {
            Some(prov) => {
                let mut key = own(p.name.as_str());
                crate::text::push_str(&mut key, ".");
                crate::text::push_str(&mut key, p.arch.as_str());
                v.push((key, prov));
                assert(v@.map_values(|e: (String, PackageProvenance)| provenance_view(e))
                    =~= before.map_values(|e: (String, PackageProvenance)| provenance_view(e)).push(provenance_view((key, prov))));
            },
            None => {},
        }
        assert(v@.map_values(|e: (String, PackageProvenance)| provenance_view(e)) =~= provenance_entries(pkgs@.take(i + 1), groups@, states@));
        i = i + 1;
    }
    assert(pkgs@.take(pkgs@.len() as int) =~= pkgs@);
    v
}

// ---- laws ----

pub(crate) proof fn lemma_chars_lt_trans(a: Seq<char>, b: Seq<char>, c: Seq<char>)
    requires
        chars_lt(a, b),
        chars_lt(b, c),
    ensures
        chars_lt(a, c),
    decreases a.len(),
{
    if a.len() > 0 {
        if a[0] == b[0] && b[0] == c[0] {
            lemma_chars_lt_trans(a.drop_first(), b.drop_first(), c.drop_first());
        }
    }
}

pub(crate) proof fn lemma_chars_lt_irrefl(a: Seq<char>)
    ensures
        !chars_lt(a, a),
    decreases a.len(),
{
    if a.len() > 0 {
        lemma_chars_lt_irrefl(a.drop_first());
    }
}

proof fn lemma_member_before_trans(a: MemberView, b: MemberView, c: MemberView)
    requires
        member_before(a, b),
        member_before(b, c),
    ensures
        member_before(a, c),
{
    if a.in_base_image == b.in_base_image && b.in_base_image == c.in_base_image {
        lemma_chars_lt_trans(a.name, b.name, c.name);
    }
}

proof fn lemma_insert_pos(s: Seq<MemberView>, x: MemberView, j: int)
    requires
        0 <= j <= s.len(),
    ensures
        j <= insert_pos(s, x, j) <= s.len(),
        forall|k: int| j <= k < insert_pos(s, x, j) ==> !member_before(x, #[trigger] s[k]),
        insert_pos(s, x, j) < s.len() ==> member_before(x, s[insert_pos(s, x, j)]),
    decreases s.len() - j,
{
    if j < s.len() && !member_before(x, s[j]) {
        lemma_insert_pos(s, x, j + 1);
    }
}

pub open spec fn members_sorted(s: Seq<MemberView>) -> bool {
    forall|i: int, j: int| 0 <= i < j < s.len() ==> !member_before(#[trigger] s[j], #[trigger] s[i])
}

proof fn lemma_insert_sorted(s: Seq<MemberView>, x: MemberView)
    requires
        members_sorted(s),
    ensures
        members_sorted(s.insert(insert_pos(s, x, 0), x)),
        s.insert(insert_pos(s, x, 0), x).len() == s.len() + 1,
{
    lemma_insert_pos(s, x, 0);
    let p = insert_pos(s, x, 0);
    let t = s.insert(p, x);
    assert forall|i: int, j: int| 0 <= i < j < t.len() implies !member_before(#[trigger] t[j], #[trigger] t[i]) by {
        if j < p {
            assert(t[i] == s[i] && t[j] == s[j]);
        } else if j == p {
            assert(t[j] == x && t[i] == s[i]);
        } else if i > p {
            assert(t[i] == s[i - 1] && t[j] == s[j - 1]);
        } else if i == p {
            assert(t[i] == x && t[j] == s[j - 1]);
            assert(member_before(x, s[p]));
            if member_before(s[j - 1], x) {
                lemma_member_before_trans(s[j - 1], x, s[p]);
                if j - 1 > p {
                    assert(!member_before(s[j - 1], s[p]));
                } else {
                    lemma_chars_lt_irrefl(s[p].name);
                }
            }
        } else {
            assert(t[i] == s[i] && t[j] == s[j - 1]);
        }
    }
}

proof fn lemma_sort_members_sorted(s: Seq<MemberView>)
    ensures
        members_sorted(sort_members(s)),
        sort_members(s).len() == s.len(),
    decreases s.len(),
{
    if s.len() > 0 {
        lemma_sort_members_sorted(s.drop_last());
        lemma_insert_sorted(sort_members(s.drop_last()), s.last());
    }
}

/// A group's members come sorted: no member precedes an earlier one —
/// those the image adds first, then those of the base image, each by
/// name — and the member count is the number of members listed.
pub proof fn law_group_members_sorted(g: InstalledGroup, groups: Seq<InstalledGroup>, states: Seq<(String, GroupRenderState)>, projected: Seq<ProjectedPackage>)
    ensures
        members_sorted(group_summary(g, groups, states, projected).members),
        group_summary(g, groups, states, projected).members.len() == group_summary(g, groups, states, projected).member_count,
{
    lemma_sort_members_sorted(member_entries(g, groups, projected));
}

// ---- unmanaged files ----

/// Kind of an unmanaged file.
#[derive(Debug, Clone, Copy, PartialEq, Eq, Structural)]
pub enum FileType {
    ElfBinary,
    Jar,
    Script,
    DataFile,
    Config,
    Symlink,
    Other,
}

/// Provenance signals of an unmanaged file.
pub struct FileProvenance {
    pub last_modified: u64,
    pub uid: u32,
    pub gid: u32,
    pub permissions: String,
    pub mutable: bool,
    pub writable_mount: bool,
    pub service_working_dir: bool,
}

/// A file no package owns, found by the unmanaged-file scan.
pub struct UnmanagedFile {
    pub path: String,
    pub size: u64,
    pub under_var: bool,
    pub included: bool,
    pub file_type: FileType,
    pub provenance: FileProvenance,
}

/// The snake_case name of a file type.
pub open spec fn file_type_name(ft: FileType) -> Seq<char> {
    match ft {
        FileType::ElfBinary => "elf_binary"@,
        FileType::Jar => "jar"@,
        FileType::Script => "script"@,
        FileType::DataFile => "data_file"@,
        FileType::Config => "config"@,
        FileType::Symlink => "symlink"@,
        FileType::Other => "other"@,
    }
}

pub fn file_type_str(ft: FileType) -> (s: String)
    ensures
        s@ == file_type_name(ft),
{
    match ft {
        FileType::ElfBinary => own("elf_binary"),
        FileType::Jar => own("jar"),
        FileType::Script => own("script"),
        FileType::DataFile => own("data_file"),
        FileType::Config => own("config"),
        FileType::Symlink => own("symlink"),
        FileType::Other => own("other"),
    }
}

/// The parent directory `std::path::Path::parent` gives for a path, if
/// any.
pub uninterp spec fn path_parent(path: Seq<char>) -> Option<Seq<char>>;

/// `std::path::Path::parent`, as text: the path without its last
/// component, or none for a root or an empty path. The contract names the
/// result and claims only that it depends on the path alone.
#[verifier::external_body]
fn parent_of(path: &str) -> (r: Option<String>)
    ensures
        match r {
            Some(p) => path_parent(path@) == Some(p@),
            None => path_parent(path@) is None,
        },
{
    std::path::Path::new(path).parent().map(|p| p.to_string_lossy().into_owned())
}

/// The directory a file is grouped under: its parent, or `/` when it has
/// none.
pub open spec fn file_dir(f: UnmanagedFile) -> Seq<char> {
    match path_parent(f.path@) {
        Some(d) => d,
        None => "/"@,
    }
}

/// An unmanaged file's entry, by value.
pub struct FileEntryView {
    pub path: Seq<char>,
    pub size: u64,
    pub is_var_path: bool,
    pub included: bool,
    pub file_type: Seq<char>,
    pub last_modified: u64,
    pub uid: u32,
    pub gid: u32,
    pub permissions: Seq<char>,
    pub mutability: bool,
    pub writable_mount: bool,
    pub service_working_dir: bool,
}

pub open spec fn file_entry(f: UnmanagedFile) -> FileEntryView {
    FileEntryView {
        path: f.path@,
        size: f.size,
        is_var_path: f.under_var,
        included: f.included,
        file_type: file_type_name(f.file_type),
        last_modified: f.provenance.last_modified,
        uid: f.provenance.uid,
        gid: f.provenance.gid,
        permissions: f.provenance.permissions@,
        mutability: f.provenance.mutable,
        writable_mount: f.provenance.writable_mount,
        service_working_dir: f.provenance.service_working_dir,
    }
}

pub open spec fn file_item_view(i: UnmanagedFileItemDto) -> FileEntryView {
    FileEntryView {
        path: i.path@,
        size: i.size,
        is_var_path: i.is_var_path,
        included: i.included,
        file_type: i.provenance.file_type@,
        last_modified: i.provenance.last_modified,
        uid: i.provenance.uid,
        gid: i.provenance.gid,
        permissions: i.provenance.permissions@,
        mutability: i.provenance.mutability,
        writable_mount: i.provenance.writable_mount,
        service_working_dir: i.provenance.service_working_dir,
    }
}

pub open spec fn file_group_view(g: UnmanagedFileGroupDto) -> (Seq<char>, Seq<FileEntryView>) {
    (g.directory@, g.items@.map_values(|i: UnmanagedFileItemDto| file_item_view(i)))
}

pub open spec fn file_groups_view(gs: Seq<UnmanagedFileGroupDto>) -> Seq<(Seq<char>, Seq<FileEntryView>)> {
    gs.map_values(|g: UnmanagedFileGroupDto| file_group_view(g))
}

/// The entries of the files under `dir`, in file order.
pub open spec fn files_in(files: Seq<UnmanagedFile>, dir: Seq<char>) -> Seq<FileEntryView>
    decreases files.len(),
{
    if files.len() == 0 {
        Seq::empty()
    } else {
        files_in(files.drop_last(), dir) + (if file_dir(files.last()) == dir { seq![file_entry(files.last())] } else { Seq::empty() })
    }
}

pub open spec fn dirs_sorted(groups: Seq<(Seq<char>, Seq<FileEntryView>)>) -> bool {
    forall|i: int, j: int| 0 <= i < j < groups.len() ==> chars_lt(#[trigger] groups[i].0, #[trigger] groups[j].0)
}

/// Some file lies in directory `d`.
pub open spec fn has_file_in(files: Seq<UnmanagedFile>, d: Seq<char>) -> bool {
    exists|f: int| 0 <= f < files.len() && file_dir(#[trigger] files[f]) == d
}

/// Some group has directory `d`.
pub open spec fn has_group_for(groups: Seq<(Seq<char>, Seq<FileEntryView>)>, d: Seq<char>) -> bool {
    exists|k: int| 0 <= k < groups.len() && (#[trigger] groups[k]).0 == d
}

pub open spec fn dirs_from_files(files: Seq<UnmanagedFile>, groups: Seq<(Seq<char>, Seq<FileEntryView>)>) -> bool {
    forall|k: int| 0 <= k < groups.len() ==> has_file_in(files, (#[trigger] groups[k]).0)
}

pub open spec fn files_have_dirs(files: Seq<UnmanagedFile>, groups: Seq<(Seq<char>, Seq<FileEntryView>)>) -> bool {
    forall|f: int| 0 <= f < files.len() ==> has_group_for(groups, file_dir(#[trigger] files[f]))
}

pub open spec fn items_match(files: Seq<UnmanagedFile>, groups: Seq<(Seq<char>, Seq<FileEntryView>)>) -> bool {
    forall|k: int| 0 <= k < groups.len() ==> (#[trigger] groups[k]).1 == files_in(files, groups[k].0)
}

/// `groups` groups `files` by directory: one group per directory of a
/// file, in increasing directory order, each holding the entries of its
/// files in file order.
pub open spec fn grouped_by_dir(files: Seq<UnmanagedFile>, groups: Seq<(Seq<char>, Seq<FileEntryView>)>) -> bool {
    &&& dirs_sorted(groups)
    &&& dirs_from_files(files, groups)
    &&& files_have_dirs(files, groups)
    &&& items_match(files, groups)
}

pub(crate) proof fn lemma_chars_lt_total(a: Seq<char>, b: Seq<char>)
    requires
        a != b,
        !chars_lt(a, b),
    ensures
        chars_lt(b, a),
    decreases a.len(),
{
    if a.len() == 0 {
        if b.len() == 0 {
            assert(a =~= b);
        }
    } else if b.len() == 0 {
    } else if a[0] != b[0] {
        let x = a[0];
        let y = b[0];
        vstd::utf8::char_u32_cast(x, x as u32);
        vstd::utf8::char_u32_cast(y, y as u32);
    } else {
        if a.drop_first() == b.drop_first() {
            assert(a =~= seq![a[0]] + a.drop_first());
            assert(b =~= seq![b[0]] + b.drop_first());
        }
        lemma_chars_lt_total(a.drop_first(), b.drop_first());
    }
}

proof fn lemma_files_in_absent(files: Seq<UnmanagedFile>, d: Seq<char>)
    requires
        forall|f: int| 0 <= f < files.len() ==> file_dir(#[trigger] files[f]) != d,
    ensures
        files_in(files, d) == Seq::<FileEntryView>::empty(),
    decreases files.len(),
{
    if files.len() > 0 {
        let init = files.drop_last();
        assert forall|f: int| 0 <= f < init.len() implies file_dir(#[trigger] init[f]) != d by {
            assert(init[f] == files[f]);
        }
        lemma_files_in_absent(init, d);
        assert(file_dir(files[files.len() - 1]) != d);
    }
}

proof fn lemma_distinct_dirs(g: Seq<(Seq<char>, Seq<FileEntryView>)>, a: int, b: int)
    requires
        forall|i: int, j: int| 0 <= i < j < g.len() ==> chars_lt(#[trigger] g[i].0, #[trigger] g[j].0),
        0 <= a < g.len(),
        0 <= b < g.len(),
        a != b,
    ensures
        g[a].0 != g[b].0,
{
    lemma_chars_lt_irrefl(g[a].0);
    if a < b {
        assert(chars_lt(g[a].0, g[b].0));
    } else {
        assert(chars_lt(g[b].0, g[a].0));
    }
}

proof fn lemma_found_sorted(g: Seq<(Seq<char>, Seq<FileEntryView>)>, k: int, e: FileEntryView)
    requires
        dirs_sorted(g),
        0 <= k < g.len(),
    ensures
        dirs_sorted(g.update(k, (g[k].0, g[k].1.push(e)))),
{
    let ng = g.update(k, (g[k].0, g[k].1.push(e)));
    assert forall|i1: int, j1: int| 0 <= i1 < j1 < ng.len() implies chars_lt(#[trigger] ng[i1].0, #[trigger] ng[j1].0) by {
        assert(ng[i1].0 == g[i1].0 && ng[j1].0 == g[j1].0);
    }
}

proof fn lemma_found_from_files(files: Seq<UnmanagedFile>, i: int, g: Seq<(Seq<char>, Seq<FileEntryView>)>, k: int, e: FileEntryView)
    requires
        0 <= i < files.len(),
        dirs_from_files(files.take(i), g),
        0 <= k < g.len(),
    ensures
        dirs_from_files(files.take(i + 1), g.update(k, (g[k].0, g[k].1.push(e)))),
{
    let f0 = files.take(i);
    let f1 = files.take(i + 1);
    let ng = g.update(k, (g[k].0, g[k].1.push(e)));
    assert forall|kk: int| 0 <= kk < ng.len() implies has_file_in(f1, (#[trigger] ng[kk]).0) by {
        assert(ng[kk].0 == g[kk].0);
        assert(has_file_in(f0, g[kk].0));
        let f = choose|f: int| 0 <= f < f0.len() && file_dir(#[trigger] f0[f]) == g[kk].0;
        assert(f1[f] == f0[f]);
        assert(file_dir(f1[f]) == ng[kk].0);
    }
}

proof fn lemma_found_have_dirs(files: Seq<UnmanagedFile>, i: int, g: Seq<(Seq<char>, Seq<FileEntryView>)>, k: int, e: FileEntryView)
    requires
        0 <= i < files.len(),
        files_have_dirs(files.take(i), g),
        0 <= k < g.len(),
        g[k].0 == file_dir(files[i]),
    ensures
        files_have_dirs(files.take(i + 1), g.update(k, (g[k].0, g[k].1.push(e)))),
{
    let f0 = files.take(i);
    let f1 = files.take(i + 1);
    let ng = g.update(k, (g[k].0, g[k].1.push(e)));
    assert forall|f: int| 0 <= f < f1.len() implies has_group_for(ng, file_dir(#[trigger] f1[f])) by {
        if f < i {
            assert(f1[f] == f0[f]);
            assert(has_group_for(g, file_dir(f0[f])));
            let kk = choose|kk: int| 0 <= kk < g.len() && (#[trigger] g[kk]).0 == file_dir(f0[f]);
            assert(ng[kk].0 == file_dir(f1[f]));
        } else {
            assert(f1[f] == files[i]);
            assert(ng[k].0 == file_dir(f1[f]));
        }
    }
}

proof fn lemma_found_items(files: Seq<UnmanagedFile>, i: int, g: Seq<(Seq<char>, Seq<FileEntryView>)>, k: int)
    requires
        0 <= i < files.len(),
        dirs_sorted(g),
        items_match(files.take(i), g),
        0 <= k < g.len(),
        g[k].0 == file_dir(files[i]),
    ensures
        items_match(files.take(i + 1), g.update(k, (g[k].0, g[k].1.push(file_entry(files[i]))))),
{
    let f0 = files.take(i);
    let f1 = files.take(i + 1);
    let d = file_dir(files[i]);
    let ng = g.update(k, (g[k].0, g[k].1.push(file_entry(files[i]))));
    assert(f1.drop_last() =~= f0);
    assert(f1.last() == files[i]);
    assert forall|kk: int| 0 <= kk < ng.len() implies (#[trigger] ng[kk]).1 == files_in(f1, ng[kk].0) by {
        if kk == k {
            assert(files_in(f1, d) =~= files_in(f0, d).push(file_entry(files[i])));
        } else {
            lemma_distinct_dirs(g, kk, k);
            assert(files_in(f1, g[kk].0) =~= files_in(f0, g[kk].0));
        }
    }
}

/// One more file whose directory already has a group.
proof fn lemma_group_step_found(files: Seq<UnmanagedFile>, i: int, g: Seq<(Seq<char>, Seq<FileEntryView>)>, k: int)
    requires
        0 <= i < files.len(),
        grouped_by_dir(files.take(i), g),
        0 <= k < g.len(),
        g[k].0 == file_dir(files[i]),
    ensures
        grouped_by_dir(files.take(i + 1), g.update(k, (g[k].0, g[k].1.push(file_entry(files[i]))))),
{
    lemma_found_sorted(g, k, file_entry(files[i]));
    lemma_found_from_files(files, i, g, k, file_entry(files[i]));
    lemma_found_have_dirs(files, i, g, k, file_entry(files[i]));
    lemma_found_items(files, i, g, k);
}

proof fn lemma_new_sorted(g: Seq<(Seq<char>, Seq<FileEntryView>)>, p: int, d: Seq<char>, es: Seq<FileEntryView>)
    requires
        dirs_sorted(g),
        forall|k: int| 0 <= k < g.len() ==> (#[trigger] g[k]).0 != d,
        0 <= p <= g.len(),
        forall|j: int| 0 <= j < p ==> !chars_lt(d, #[trigger] g[j].0),
        p < g.len() ==> chars_lt(d, g[p].0),
    ensures
        dirs_sorted(g.insert(p, (d, es))),
{
    let ng = g.insert(p, (d, es));
    assert forall|i1: int, j1: int| 0 <= i1 < j1 < ng.len() implies chars_lt(#[trigger] ng[i1].0, #[trigger] ng[j1].0) by {
        if j1 < p {
            assert(ng[i1] == g[i1] && ng[j1] == g[j1]);
        } else if j1 == p {
            assert(ng[i1] == g[i1]);
            assert(g[i1].0 != d);
            assert(!chars_lt(d, g[i1].0));
            lemma_chars_lt_total(d, g[i1].0);
        } else if i1 > p {
            assert(ng[i1] == g[i1 - 1] && ng[j1] == g[j1 - 1]);
        } else if i1 == p {
            assert(ng[j1] == g[j1 - 1]);
            if j1 - 1 > p {
                assert(chars_lt(g[p].0, g[j1 - 1].0));
                lemma_chars_lt_trans(d, g[p].0, g[j1 - 1].0);
            }
        } else {
            assert(ng[i1] == g[i1] && ng[j1] == g[j1 - 1]);
        }
    }
}

proof fn lemma_new_from_files(files: Seq<UnmanagedFile>, i: int, g: Seq<(Seq<char>, Seq<FileEntryView>)>, p: int, es: Seq<FileEntryView>)
    requires
        0 <= i < files.len(),
        dirs_from_files(files.take(i), g),
        0 <= p <= g.len(),
    ensures
        dirs_from_files(files.take(i + 1), g.insert(p, (file_dir(files[i]), es))),
{
    let f0 = files.take(i);
    let f1 = files.take(i + 1);
    let ng = g.insert(p, (file_dir(files[i]), es));
    assert forall|kk: int| 0 <= kk < ng.len() implies has_file_in(f1, (#[trigger] ng[kk]).0) by {
        if kk == p {
            assert(f1[i] == files[i]);
            assert(file_dir(f1[i]) == ng[kk].0);
        } else {
            let ok = if kk < p { kk } else { kk - 1 };
            assert(ng[kk] == g[ok]);
            assert(has_file_in(f0, g[ok].0));
            let f = choose|f: int| 0 <= f < f0.len() && file_dir(#[trigger] f0[f]) == g[ok].0;
            assert(f1[f] == f0[f]);
            assert(file_dir(f1[f]) == ng[kk].0);
        }
    }
}

proof fn lemma_new_have_dirs(files: Seq<UnmanagedFile>, i: int, g: Seq<(Seq<char>, Seq<FileEntryView>)>, p: int, es: Seq<FileEntryView>)
    requires
        0 <= i < files.len(),
        files_have_dirs(files.take(i), g),
        0 <= p <= g.len(),
    ensures
        files_have_dirs(files.take(i + 1), g.insert(p, (file_dir(files[i]), es))),
{
    let f0 = files.take(i);
    let f1 = files.take(i + 1);
    let ng = g.insert(p, (file_dir(files[i]), es));
    assert forall|f: int| 0 <= f < f1.len() implies has_group_for(ng, file_dir(#[trigger] f1[f])) by {
        if f < i {
            assert(f1[f] == f0[f]);
            assert(has_group_for(g, file_dir(f0[f])));
            let kk = choose|kk: int| 0 <= kk < g.len() && (#[trigger] g[kk]).0 == file_dir(f0[f]);
            if kk < p {
                assert(ng[kk] == g[kk]);
                assert(ng[kk].0 == file_dir(f1[f]));
            } else {
                assert(ng[kk + 1] == g[kk]);
                assert(ng[kk + 1].0 == file_dir(f1[f]));
            }
        } else {
            assert(f1[f] == files[i]);
            assert(ng[p].0 == file_dir(f1[f]));
        }
    }
}

proof fn lemma_new_items(files: Seq<UnmanagedFile>, i: int, g: Seq<(Seq<char>, Seq<FileEntryView>)>, p: int)
    requires
        0 <= i < files.len(),
        files_have_dirs(files.take(i), g),
        items_match(files.take(i), g),
        forall|k: int| 0 <= k < g.len() ==> (#[trigger] g[k]).0 != file_dir(files[i]),
        0 <= p <= g.len(),
    ensures
        items_match(files.take(i + 1), g.insert(p, (file_dir(files[i]), seq![file_entry(files[i])]))),
{
    let f0 = files.take(i);
    let f1 = files.take(i + 1);
    let d = file_dir(files[i]);
    let ng = g.insert(p, (d, seq![file_entry(files[i])]));
    assert(f1.drop_last() =~= f0);
    assert(f1.last() == files[i]);
    assert forall|f: int| 0 <= f < f0.len() implies file_dir(#[trigger] f0[f]) != d by {
        assert(has_group_for(g, file_dir(f0[f])));
        let kk = choose|kk: int| 0 <= kk < g.len() && (#[trigger] g[kk]).0 == file_dir(f0[f]);
        assert(g[kk].0 != d);
    }
    lemma_files_in_absent(f0, d);
    assert forall|kk: int| 0 <= kk < ng.len() implies (#[trigger] ng[kk]).1 == files_in(f1, ng[kk].0) by {
        if kk == p {
            assert(files_in(f1, d) =~= files_in(f0, d).push(file_entry(files[i])));
            assert(ng[kk].1 =~= seq![file_entry(files[i])]);
        } else {
            let ok = if kk < p { kk } else { kk - 1 };
            assert(ng[kk] == g[ok]);
            assert(g[ok].0 != d);
            assert(files_in(f1, g[ok].0) =~= files_in(f0, g[ok].0));
        }
    }
}

/// One more file whose directory has no group yet: a new group at its
/// place in directory order.
proof fn lemma_group_step_new(files: Seq<UnmanagedFile>, i: int, g: Seq<(Seq<char>, Seq<FileEntryView>)>, p: int)
    requires
        0 <= i < files.len(),
        grouped_by_dir(files.take(i), g),
        forall|k: int| 0 <= k < g.len() ==> (#[trigger] g[k]).0 != file_dir(files[i]),
        0 <= p <= g.len(),
        forall|j: int| 0 <= j < p ==> !chars_lt(file_dir(files[i]), #[trigger] g[j].0),
        p < g.len() ==> chars_lt(file_dir(files[i]), g[p].0),
    ensures
        grouped_by_dir(files.take(i + 1), g.insert(p, (file_dir(files[i]), seq![file_entry(files[i])]))),
{
    lemma_new_sorted(g, p, file_dir(files[i]), seq![file_entry(files[i])]);
    lemma_new_from_files(files, i, g, p, seq![file_entry(files[i])]);
    lemma_new_have_dirs(files, i, g, p, seq![file_entry(files[i])]);
    lemma_new_items(files, i, g, p);
}

fn file_item(f: &UnmanagedFile) -> (i: UnmanagedFileItemDto)
    ensures
        file_item_view(i) == file_entry(*f),
{
    UnmanagedFileItemDto {
        path: own(f.path.as_str()),
        size: f.size,
        is_var_path: f.under_var,
        included: f.included,
        provenance: ProvenanceSignalsDto {
            file_type: file_type_str(f.file_type),
            last_modified: f.provenance.last_modified,
            uid: f.provenance.uid,
            gid: f.provenance.gid,
            permissions: own(f.provenance.permissions.as_str()),
            mutability: f.provenance.mutable,
            writable_mount: f.provenance.writable_mount,
            service_working_dir: f.provenance.service_working_dir,
        },
    }
}

fn file_dir_exec(f: &UnmanagedFile) -> (d: String)
    ensures
        d@ == file_dir(*f),
{
    match parent_of(f.path.as_str()) {
        Some(p) => p,
        None => own("/"),
    }
}

fn find_group(groups: &Vec<UnmanagedFileGroupDto>, d: &str) -> (r: Option<usize>)
    ensures
        match r {
            Some(k) => k < groups@.len() && groups@[k as int].directory@ == d@,
            None => forall|k: int| 0 <= k < groups@.len() ==> (#[trigger] groups@[k]).directory@ != d@,
        },
{
    let mut i: usize = 0;
    while i < groups.len()
        invariant
            0 <= i <= groups@.len(),
            forall|k: int| 0 <= k < i ==> (#[trigger] groups@[k]).directory@ != d@,
        decreases groups@.len() - i,
    {
        if str_eq(groups[i].directory.as_str(), d) {
            return Some(i);
        }
        i = i + 1;
    }
    None
}

fn dir_insert_pos(groups: &Vec<UnmanagedFileGroupDto>, d: &str) -> (p: usize)
    ensures
        p <= groups@.len(),
        forall|j: int| 0 <= j < p ==> !chars_lt(d@, (#[trigger] groups@[j]).directory@),
        p < groups@.len() ==> chars_lt(d@, groups@[p as int].directory@),
{
    let mut j: usize = 0;
    while j < groups.len()
        invariant
            0 <= j <= groups@.len(),
            forall|k: int| 0 <= k < j ==> !chars_lt(d@, (#[trigger] groups@[k]).directory@),
        decreases groups@.len() - j,
    {
        if str_lt(d, groups[j].directory.as_str()) {
            return j;
        }
        j = j + 1;
    }
    j
}

/// Unmanaged files grouped by parent directory (`/` for a file without
/// one): one group per directory, directories in increasing order, each
/// with its files in scan order.
pub fn group_unmanaged_files(files: &Vec<UnmanagedFile>) -> (v: Vec<UnmanagedFileGroupDto>)
    ensures
        grouped_by_dir(files@, file_groups_view(v@)),
{
    let mut groups: Vec<UnmanagedFileGroupDto> = Vec::new();
    let mut i: usize = 0;
    assert(grouped_by_dir(files@.take(0), file_groups_view(groups@)));
    while i < files.len()
        invariant
            0 <= i <= files@.len(),
            grouped_by_dir(files@.take(i as int), file_groups_view(groups@)),
        decreases files@.len() - i,
    {
        let ghost gv = file_groups_view(groups@);
        let d = file_dir_exec(&files[i]);
        let item = file_item(&files[i]);
        match find_group(&groups, d.as_str()) {
            Some(k) => {
                let ghost before = groups@;
                let mut g = groups.remove(k);
                let ghost old_items = g.items@;
                g.items.push(item);
                groups.insert(k, g);
                assert(g.items@.map_values(|x: UnmanagedFileItemDto| file_item_view(x))
                    =~= old_items.map_values(|x: UnmanagedFileItemDto| file_item_view(x)).push(file_entry(files@[i as int])));
                assert(groups@ =~= before.update(k as int, g));
                assert(file_groups_view(groups@) =~= gv.update(k as int, (gv[k as int].0, gv[k as int].1.push(file_entry(files@[i as int])))));
                proof {
                    lemma_group_step_found(files@, i as int, gv, k as int);
                }
            },
            None => {
                let p = dir_insert_pos(&groups, d.as_str());
                let ghost before = groups@;
                let mut items: Vec<UnmanagedFileItemDto> = Vec::new();
                items.push(item);
                let g = UnmanagedFileGroupDto { directory: d, items };
                groups.insert(p, g);
                assert(g.items@.map_values(|x: UnmanagedFileItemDto| file_item_view(x)) =~= seq![file_entry(files@[i as int])]);
                assert(file_groups_view(groups@) =~= gv.insert(p as int, (file_dir(files@[i as int]), seq![file_entry(files@[i as int])])));
                proof {
                    assert forall|k: int| 0 <= k < gv.len() implies (#[trigger] gv[k]).0 != file_dir(files@[i as int]) by {
                        assert(gv[k].0 == before[k].directory@);
                    }
                    assert forall|j: int| 0 <= j < p implies !chars_lt(file_dir(files@[i as int]), #[trigger] gv[j].0) by {
                        assert(gv[j].0 == before[j].directory@);
                    }
                    lemma_group_step_new(files@, i as int, gv, p as int);
                }
            },
        }
        i = i + 1;
    }
    assert(files@.take(files@.len() as int) =~= files@);
    groups
}

// ---- language packages ----

/// A non-RPM software item of the snapshot; language environments have a
/// non-empty `lang`.
pub struct NonRpmItem {
    pub lang: String,
    pub path: String,
    pub method: String,
    /// Names of the packages found in the environment.
    pub packages: Vec<String>,
    pub confidence: String,
    /// Manifest files of the environment, in the order of the scan's map.
    pub manifest_files: Vec<String>,
    pub included: bool,
}

/// A language environment entry, by value.
pub struct LangEnvView {
    pub ecosystem: Seq<char>,
    pub path: Seq<char>,
    pub method: Seq<char>,
    pub packages: Seq<Seq<char>>,
    pub confidence: Seq<char>,
    pub manifest_basis: Seq<char>,
    pub included: bool,
}

pub open spec fn lang_env_view(d: LanguagePackageEnvDto) -> LangEnvView {
    LangEnvView {
        ecosystem: d.ecosystem@,
        path: d.path@,
        method: d.method@,
        packages: string_views(d.packages@),
        confidence: d.confidence@,
        manifest_basis: d.manifest_basis@,
        included: d.included,
    }
}

/// The entry of a language environment: its first manifest file is the
/// basis (empty when it has none).
pub open spec fn lang_env(it: NonRpmItem) -> LangEnvView {
    LangEnvView {
        ecosystem: it.lang@,
        path: it.path@,
        method: it.method@,
        packages: string_views(it.packages@),
        confidence: it.confidence@,
        manifest_basis: if it.manifest_files@.len() > 0 { it.manifest_files@[0]@ } else { Seq::empty() },
        included: it.included,
    }
}

/// The language environments among the items, in order.
pub open spec fn language_envs(items: Seq<NonRpmItem>) -> Seq<LangEnvView>
    decreases items.len(),
{
    if items.len() == 0 {
        Seq::empty()
    } else {
        language_envs(items.drop_last()) + (if items.last().lang@.len() > 0 { seq![lang_env(items.last())] } else { Seq::empty() })
    }
}

fn copy_strings(v: &Vec<String>) -> (r: Vec<String>)
    ensures
        string_views(r@) == string_views(v@),
{
    let mut r: Vec<String> = Vec::new();
    let mut i: usize = 0;
    while i < v.len()
        invariant
            0 <= i <= v@.len(),
            string_views(r@) == string_views(v@).take(i as int),
        decreases v@.len() - i,
    {
        let ghost before = r@;
        r.push(own(v[i].as_str()));
        assert(string_views(r@) =~= string_views(before).push(v@[i as int]@));
        assert(string_views(v@).take(i + 1) =~= string_views(v@).take(i as int).push(v@[i as int]@));
        i = i + 1;
    }
    assert(string_views(v@).take(v@.len() as int) =~= string_views(v@));
    r
}

/// The language package environments of the non-RPM items: those with a
/// language, in order.
pub fn build_language_packages(items: &Vec<NonRpmItem>) -> (v: Vec<LanguagePackageEnvDto>)
    ensures
        v@.map_values(|d: LanguagePackageEnvDto| lang_env_view(d)) == language_envs(items@),
{
    let mut v: Vec<LanguagePackageEnvDto> = Vec::new();
    let mut i: usize = 0;
    while i < items.len()
        invariant
            0 <= i <= items@.len(),
            v@.map_values(|d: LanguagePackageEnvDto| lang_env_view(d)) == language_envs(items@.take(i as int)),
        decreases items@.len() - i,
    {
        let it = &items[i];
        let ghost before = v@;
        assert(items@.take(i + 1).drop_last() =~= items@.take(i as int));
        if crate::text::char_count(it.lang.as_str()) > 0 {
            let basis = if it.manifest_files.len() > 0 { own(it.manifest_files[0].as_str()) } else { String::new() };
            let d = LanguagePackageEnvDto {
                ecosystem: own(it.lang.as_str()),
                path: own(it.path.as_str()),
                method: own(it.method.as_str()),
                packages: copy_strings(&it.packages),
                confidence: own(it.confidence.as_str()),
                manifest_basis: basis,
                included: it.included,
            };
            v.push(d);
            assert(lang_env_view(d) == lang_env(items@[i as int]));
            assert(v@.map_values(|d: LanguagePackageEnvDto| lang_env_view(d))
                =~= before.map_values(|d: LanguagePackageEnvDto| lang_env_view(d)).push(lang_env_view(d)));
        }
        assert(v@.map_values(|d: LanguagePackageEnvDto| lang_env_view(d)) =~= language_envs(items@.take(i + 1)));
        i = i + 1;
    }
    assert(items@.take(items@.len() as int) =~= items@);
    v
}

// ---- the view ----

/// What the package part of the web view is built from.
pub struct WebViewData {
    pub packages: Vec<ViewPackage>,
    pub version_changes: Vec<VersionChange>,
    pub installed_groups: Vec<InstalledGroup>,
    /// Recorded render states of groups, by group name.
    pub group_states: Vec<(String, GroupRenderState)>,
    /// Packages the projected image adds.
    pub projected: Vec<ProjectedPackage>,
    /// Non-RPM software items, when that inspector ran.
    pub non_rpm: Option<Vec<NonRpmItem>>,
    /// Unmanaged files, when the scan looked for them.
    pub unmanaged: Option<Vec<UnmanagedFile>>,
}

/// The package part of the web view.
pub struct WebView {
    pub version_changes: Vec<VersionChangeEntry>,
    pub package_groups: Vec<GroupInfo>,
    /// Provenance of packages shown on their own, keyed `name.arch`.
    pub package_provenances: Vec<(String, PackageProvenance)>,
    pub language_packages: Vec<LanguagePackageEnvDto>,
    pub unmanaged_files: Vec<UnmanagedFileGroupDto>,
    pub has_unmanaged_scan: bool,
}

/// A version change entry, by value.
pub struct ChangeView {
    pub name: Seq<char>,
    pub arch: Seq<char>,
    pub host_version: Seq<char>,
    pub base_version: Seq<char>,
    pub host_epoch: Seq<char>,
    pub base_epoch: Seq<char>,
    pub direction: Seq<char>,
}

pub open spec fn change_entry_view(e: VersionChangeEntry) -> ChangeView {
    ChangeView {
        name: e.name@,
        arch: e.arch@,
        host_version: e.host_version@,
        base_version: e.base_version@,
        host_epoch: e.host_epoch@,
        base_epoch: e.base_epoch@,
        direction: e.direction@,
    }
}

/// A version change as shown: its direction as `upgrade` or `downgrade`.
pub open spec fn change_entry(c: VersionChange) -> ChangeView {
    ChangeView {
        name: c.name@,
        arch: c.arch@,
        host_version: c.host_version@,
        base_version: c.base_version@,
        host_epoch: c.host_epoch@,
        base_epoch: c.base_epoch@,
        direction: match c.direction {
            VersionChangeDirection::Upgrade => "upgrade"@,
            VersionChangeDirection::Downgrade => "downgrade"@,
        },
    }
}

fn change_entry_exec(c: &VersionChange) -> (e: VersionChangeEntry)
    ensures
        change_entry_view(e) == change_entry(*c),
{
    VersionChangeEntry {
        name: own(c.name.as_str()),
        arch: own(c.arch.as_str()),
        host_version: own(c.host_version.as_str()),
        base_version: own(c.base_version.as_str()),
        host_epoch: own(c.host_epoch.as_str()),
        base_epoch: own(c.base_epoch.as_str()),
        direction: match c.direction {
            VersionChangeDirection::Upgrade => own("upgrade"),
            VersionChangeDirection::Downgrade => own("downgrade"),
        },
    }
}

fn build_version_changes(cs: &Vec<VersionChange>) -> (v: Vec<VersionChangeEntry>)
    ensures
        v@.map_values(|e: VersionChangeEntry| change_entry_view(e)) == cs@.map_values(|c: VersionChange| change_entry(c)),
{
    let mut v: Vec<VersionChangeEntry> = Vec::new();
    let mut i: usize = 0;
    while i < cs.len()
        invariant
            0 <= i <= cs@.len(),
            v@.map_values(|e: VersionChangeEntry| change_entry_view(e)) == cs@.map_values(|c: VersionChange| change_entry(c)).take(i as int),
        decreases cs@.len() - i,
    {
        let e = change_entry_exec(&cs[i]);
        let ghost before = v@;
        v.push(e);
        assert(v@.map_values(|e: VersionChangeEntry| change_entry_view(e))
            =~= before.map_values(|e: VersionChangeEntry| change_entry_view(e)).push(change_entry_view(e)));
        assert(cs@.map_values(|c: VersionChange| change_entry(c)).take(i + 1)
            =~= cs@.map_values(|c: VersionChange| change_entry(c)).take(i as int).push(change_entry(cs@[i as int])));
        i = i + 1;
    }
    assert(cs@.map_values(|c: VersionChange| change_entry(c)).take(cs@.len() as int) =~= cs@.map_values(|c: VersionChange| change_entry(c)));
    v
}

/// The package part of the web view: version changes with their
/// direction, group summaries, package provenances, language environments
/// (none when the non-RPM inspector did not run) and unmanaged files by
/// directory (none, and no scan flagged, when the scan did not look).
pub fn build_web_view(d: &WebViewData) -> (w: WebView)
    ensures
        w.version_changes@.map_values(|e: VersionChangeEntry| change_entry_view(e))
            == d.version_changes@.map_values(|c: VersionChange| change_entry(c)),
        w.package_groups@.map_values(|x: GroupInfo| group_view(x))
            == d.installed_groups@.map_values(|g: InstalledGroup| group_summary(g, d.installed_groups@, d.group_states@, d.projected@)),
        w.package_provenances@.map_values(|e: (String, PackageProvenance)| provenance_view(e))
            == provenance_entries(d.packages@, d.installed_groups@, d.group_states@),
        w.language_packages@.map_values(|x: LanguagePackageEnvDto| lang_env_view(x)) == match d.non_rpm {
            Some(items) => language_envs(items@),
            None => Seq::empty(),
        },
        match d.unmanaged {
            Some(files) => grouped_by_dir(files@, file_groups_view(w.unmanaged_files@)) && w.has_unmanaged_scan,
            None => w.unmanaged_files@.len() == 0 && !w.has_unmanaged_scan,
        },
{
    let version_changes = build_version_changes(&d.version_changes);
    let package_groups = build_package_groups(&d.installed_groups, &d.group_states, &d.projected);
    let package_provenances = build_package_provenances(&d.packages, &d.installed_groups, &d.group_states);
    let language_packages = match &d.non_rpm {
        Some(items) => build_language_packages(items),
        None => {
            let v: Vec<LanguagePackageEnvDto> = Vec::new();
            assert(v@.map_values(|x: LanguagePackageEnvDto| lang_env_view(x)) =~= Seq::<LangEnvView>::empty());
            v
        },
    };
    let (unmanaged_files, has_unmanaged_scan) = match &d.unmanaged {
        Some(files) => (group_unmanaged_files(files), true),
        None => (Vec::new(), false),
    };
    WebView { version_changes, package_groups, package_provenances, language_packages, unmanaged_files, has_unmanaged_scan }
}

} // verus!
