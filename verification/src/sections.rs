//! The sidebar's canonical section order, its navigation groups, and the
//! flat list of rows (group headers and sections) that the sidebar shows.

use vstd::prelude::*;

use crate::tui_types::{group_of, NavGroup, SectionEntry, SectionId};

verus! {

/// Sidebar sections in display order: grouped by navigation group, with
/// decision sections before reference-only ones within a group.
pub open spec fn section_order_spec() -> Seq<SectionId> {
    seq![
        SectionId::Packages,
        SectionId::VerChanges,
        SectionId::Configs,
        SectionId::Sysctls,
        SectionId::Tuned,
        SectionId::KernelBoot,
        SectionId::SELinux,
        SectionId::Services,
        SectionId::Containers,
        SectionId::ScheduledTasks,
        SectionId::Users,
        SectionId::Network,
        SectionId::Storage,
        SectionId::NonRpmSoftware,
    ]
}

/// Position of a section in the sidebar order.
pub open spec fn section_index_of(id: SectionId) -> usize {
    match id {
        SectionId::Packages => 0,
        SectionId::VerChanges => 1,
        SectionId::Configs => 2,
        SectionId::Sysctls => 3,
        SectionId::Tuned => 4,
        SectionId::KernelBoot => 5,
        SectionId::SELinux => 6,
        SectionId::Services => 7,
        SectionId::Containers => 8,
        SectionId::ScheduledTasks => 9,
        SectionId::Users => 10,
        SectionId::Network => 11,
        SectionId::Storage => 12,
        SectionId::NonRpmSoftware => 13,
    }
}

/// Navigation groups in display order.
pub open spec fn nav_group_order() -> Seq<NavGroup> {
    seq![
        NavGroup::Packages,
        NavGroup::SystemConfig,
        NavGroup::Services,
        NavGroup::Identity,
        NavGroup::Network,
        NavGroup::Storage,
        NavGroup::Software,
    ]
}

/// The member sections of a group, in display order.
pub open spec fn group_members(g: NavGroup) -> Seq<SectionId> {
    match g {
        NavGroup::Packages => seq![SectionId::Packages, SectionId::VerChanges],
        NavGroup::SystemConfig => seq![
            SectionId::Configs,
            SectionId::Sysctls,
            SectionId::Tuned,
            SectionId::KernelBoot,
            SectionId::SELinux,
        ],
        NavGroup::Services => seq![SectionId::Services, SectionId::Containers, SectionId::ScheduledTasks],
        NavGroup::Identity => seq![SectionId::Users],
        NavGroup::Network => seq![SectionId::Network],
        NavGroup::Storage => seq![SectionId::Storage],
        NavGroup::Software => seq![SectionId::NonRpmSoftware],
    }
}

/// The sections of the first `n` groups, concatenated.
pub open spec fn grouped_sections(n: nat) -> Seq<SectionId>
    decreases n,
{
    if n == 0 {
        Seq::empty()
    } else {
        grouped_sections((n - 1) as nat) + group_members(nav_group_order()[n - 1])
    }
}

/// The canonical section order.
pub fn section_order() -> (v: Vec<SectionId>)
    ensures
        v@ == section_order_spec(),
{
    let v = vec![
        SectionId::Packages,
        SectionId::VerChanges,
        SectionId::Configs,
        SectionId::Sysctls,
        SectionId::Tuned,
        SectionId::KernelBoot,
        SectionId::SELinux,
        SectionId::Services,
        SectionId::Containers,
        SectionId::ScheduledTasks,
        SectionId::Users,
        SectionId::Network,
        SectionId::Storage,
        SectionId::NonRpmSoftware,
    ];
    assert(v@ =~= section_order_spec());
    v
}

/// The navigation groups in display order.
pub fn nav_groups() -> (v: Vec<NavGroup>)
    ensures
        v@ == nav_group_order(),
{
    let v = vec![
        NavGroup::Packages,
        NavGroup::SystemConfig,
        NavGroup::Services,
        NavGroup::Identity,
        NavGroup::Network,
        NavGroup::Storage,
        NavGroup::Software,
    ];
    assert(v@ =~= nav_group_order());
    v
}

impl NavGroup {
    /// The group's member sections in display order.
    pub fn members(&self) -> (v: Vec<SectionId>)
        ensures
            v@ == group_members(*self),
    {
        let v = match self {
            NavGroup::Packages => vec![SectionId::Packages, SectionId::VerChanges],
            NavGroup::SystemConfig => vec![
                SectionId::Configs,
                SectionId::Sysctls,
                SectionId::Tuned,
                SectionId::KernelBoot,
                SectionId::SELinux,
            ],
            NavGroup::Services => vec![SectionId::Services, SectionId::Containers, SectionId::ScheduledTasks],
            NavGroup::Identity => vec![SectionId::Users],
            NavGroup::Network => vec![SectionId::Network],
            NavGroup::Storage => vec![SectionId::Storage],
            NavGroup::Software => vec![SectionId::NonRpmSoftware],
        };
        assert(v@ =~= group_members(*self));
        v
    }
}

/// Law: the groups list every section exactly once, in the canonical
/// section order, and each section sits in the group that `group()` names.
pub proof fn law_nav_groups_cover_section_order()
    ensures
        grouped_sections(7) == section_order_spec(),
        forall|g: NavGroup, k: int| 0 <= k < group_members(g).len() ==> group_of(#[trigger] group_members(g)[k]) == g,
        section_order_spec().no_duplicates(),
{
    reveal_with_fuel(grouped_sections, 8);
    assert(grouped_sections(7) =~= section_order_spec());
}

// ---------------------------------------------------------------------------
// Collapse state
// ---------------------------------------------------------------------------

/// Position of a group in the display order.
pub open spec fn group_index(g: NavGroup) -> int {
    match g {
        NavGroup::Packages => 0,
        NavGroup::SystemConfig => 1,
        NavGroup::Services => 2,
        NavGroup::Identity => 3,
        NavGroup::Network => 4,
        NavGroup::Storage => 5,
        NavGroup::Software => 6,
    }
}

fn group_slot(g: &NavGroup) -> (i: usize)
    ensures
        i == group_index(*g),
{
    match g {
        NavGroup::Packages => 0,
        NavGroup::SystemConfig => 1,
        NavGroup::Services => 2,
        NavGroup::Identity => 3,
        NavGroup::Network => 4,
        NavGroup::Storage => 5,
        NavGroup::Software => 6,
    }
}

/// A set of collapsed navigation groups.
#[derive(Debug)]
pub struct NavGroupSet {
    flags: Vec<bool>,
}

impl View for NavGroupSet {
    type V = Set<NavGroup>;

    closed spec fn view(&self) -> Set<NavGroup> {
        Set::new(|g: NavGroup| self.flags@[group_index(g)])
    }
}

impl NavGroupSet {
    /// Well-formedness: one flag per group.
    pub closed spec fn wf(&self) -> bool {
        self.flags@.len() == 7
    }

    /// The empty set.
    pub fn new() -> (s: Self)
        ensures
            s.wf(),
            s@ == Set::<NavGroup>::empty(),
    {
        let s = NavGroupSet { flags: vec![false, false, false, false, false, false, false] };
        assert(s@ =~= Set::<NavGroup>::empty());
        s
    }

    /// Whether `g` is in the set.
    pub fn contains(&self, g: &NavGroup) -> (b: bool)
        requires
            self.wf(),
        ensures
            b == self@.contains(*g),
    {
        self.flags[group_slot(g)]
    }

    /// Adds `g`; returns whether it was absent.
    pub fn insert(&mut self, g: NavGroup) -> (added: bool)
        requires
            old(self).wf(),
        ensures
            final(self).wf(),
            final(self)@ == old(self)@.insert(g),
            added == !old(self)@.contains(g),
    {
        let i = group_slot(&g);
        let was = self.flags[i];
        self.flags.set(i, true);
        proof {
            assert forall|x: NavGroup| #[trigger] self@.contains(x) == old(self)@.insert(g).contains(x) by {
                if x != g {
                    assert(group_index(x) != group_index(g));
                }
            }
            assert(self@ =~= old(self)@.insert(g));
        }
        !was
    }

    /// Removes `g`; returns whether it was present.
    pub fn remove(&mut self, g: &NavGroup) -> (removed: bool)
        requires
            old(self).wf(),
        ensures
            final(self).wf(),
            final(self)@ == old(self)@.remove(*g),
            removed == old(self)@.contains(*g),
    {
        let i = group_slot(g);
        let was = self.flags[i];
        self.flags.set(i, false);
        proof {
            assert forall|x: NavGroup| #[trigger] self@.contains(x) == old(self)@.remove(*g).contains(x) by {
                if x != *g {
                    assert(group_index(x) != group_index(*g));
                }
            }
            assert(self@ =~= old(self)@.remove(*g));
        }
        was
    }
}

// ---------------------------------------------------------------------------
// Nav rows
// ---------------------------------------------------------------------------

/// A row of the sidebar tree: a group header or a section.
#[derive(Debug, Clone)]
pub enum NavRow {
    /// Collapsible group header with its summary counts.
    Group {
        group: NavGroup,
        collapsed: bool,
        /// Sum of actionable (included + excluded) items in the group.
        actionable: usize,
        /// Items of the group that are not actionable decisions.
        advisories: usize,
    },
    /// One section of an expanded group.
    Section(SectionEntry),
}

/// The first entry for section `id` at or after position `i`.
pub open spec fn find_entry_from(entries: Seq<SectionEntry>, id: SectionId, i: int) -> Option<SectionEntry>
    decreases entries.len() - i,
{
    if i < 0 || i >= entries.len() {
        None
    } else if entries[i].id == id {
        Some(entries[i])
    } else {
        find_entry_from(entries, id, i + 1)
    }
}

/// The first entry for section `id`.
pub open spec fn find_entry(entries: Seq<SectionEntry>, id: SectionId) -> Option<SectionEntry> {
    find_entry_from(entries, id, 0)
}

/// The entries found for `ids`, in the order of `ids`; ids without an
/// entry are skipped.
pub open spec fn present_entries(entries: Seq<SectionEntry>, ids: Seq<SectionId>) -> Seq<SectionEntry>
    decreases ids.len(),
{
    if ids.len() == 0 {
        Seq::empty()
    } else {
        let prev = present_entries(entries, ids.drop_last());
        match find_entry(entries, ids.last()) {
            Some(e) => prev.push(e),
            None => prev,
        }
    }
}

/// Sum of `included + excluded` over `es`.
pub open spec fn sum_actionable(es: Seq<SectionEntry>) -> nat
    decreases es.len(),
{
    if es.len() == 0 {
        0
    } else {
        sum_actionable(es.drop_last()) + es.last().included as nat + es.last().excluded as nat
    }
}

/// Sum of `count` over `es`.
pub open spec fn sum_count(es: Seq<SectionEntry>) -> nat
    decreases es.len(),
{
    if es.len() == 0 {
        0
    } else {
        sum_count(es.drop_last()) + es.last().count as nat
    }
}

/// The header row of group `g`: advisories are whatever the group's total
/// leaves after the actionable decisions (never below zero).
pub open spec fn group_header(entries: Seq<SectionEntry>, collapsed: Set<NavGroup>, g: NavGroup) -> NavRow {
    let es = present_entries(entries, group_members(g));
    let actionable = sum_actionable(es);
    let total = sum_count(es);
    NavRow::Group {
        group: g,
        collapsed: collapsed.contains(g),
        actionable: actionable as usize,
        advisories: (if total >= actionable { total - actionable } else { 0 }) as usize,
    }
}

/// The rows of group `g`: its header, then its sections unless collapsed.
pub open spec fn group_rows(entries: Seq<SectionEntry>, collapsed: Set<NavGroup>, g: NavGroup) -> Seq<NavRow> {
    seq![group_header(entries, collapsed, g)] + if collapsed.contains(g) {
        Seq::<NavRow>::empty()
    } else {
        present_entries(entries, group_members(g)).map_values(|e: SectionEntry| NavRow::Section(e))
    }
}

/// The rows of the first `n` groups.
pub open spec fn nav_rows_upto(entries: Seq<SectionEntry>, collapsed: Set<NavGroup>, n: nat) -> Seq<NavRow>
    decreases n,
{
    if n == 0 {
        Seq::empty()
    } else {
        nav_rows_upto(entries, collapsed, (n - 1) as nat) + group_rows(entries, collapsed, nav_group_order()[n - 1])
    }
}

/// The whole sidebar tree.
pub open spec fn nav_rows(entries: Seq<SectionEntry>, collapsed: Set<NavGroup>) -> Seq<NavRow> {
    nav_rows_upto(entries, collapsed, 7)
}

/// Every group's sums fit in a `usize`.
pub open spec fn nav_sums_fit(entries: Seq<SectionEntry>) -> bool {
    forall|g: NavGroup|
        sum_actionable(#[trigger] present_entries(entries, group_members(g))) <= usize::MAX
            && sum_count(present_entries(entries, group_members(g))) <= usize::MAX
}

pub proof fn lemma_sums_monotone(entries: Seq<SectionEntry>, ids: Seq<SectionId>, k: int)
    requires
        0 <= k <= ids.len(),
    ensures
        sum_actionable(present_entries(entries, ids.take(k))) <= sum_actionable(present_entries(entries, ids)),
        sum_count(present_entries(entries, ids.take(k))) <= sum_count(present_entries(entries, ids)),
    decreases ids.len() - k,
{
    if k < ids.len() {
        lemma_sums_monotone(entries, ids, k + 1);
        let t1 = ids.take(k + 1);
        assert(t1.drop_last() =~= ids.take(k));
        let prev = present_entries(entries, ids.take(k));
        match find_entry(entries, t1.last()) {
            Some(e) => {
                assert(prev.push(e).drop_last() =~= prev);
            },
            None => {},
        }
    } else {
        assert(ids.take(k) =~= ids);
    }
}

/// The first entry for `id` in `entries`.
pub fn find_section_entry(entries: &[SectionEntry], id: SectionId) -> (r: Option<SectionEntry>)
    ensures
        r == find_entry(entries@, id),
{
    let mut i: usize = 0;
    while i < entries.len()
        invariant
            0 <= i <= entries@.len(),
            find_entry(entries@, id) == find_entry_from(entries@, id, i as int),
        decreases entries@.len() - i,
    {
        if entries[i].id == id {
            return Some(entries[i]);
        }
        i = i + 1;
    }
    None
}

/// Build the flat list of sidebar rows from section entries and the set of
/// collapsed groups: each group gets a header (with actionable and advisory
/// counts), followed by its section rows unless it is collapsed.
pub fn build_nav_rows(entries: &[SectionEntry], collapsed: &NavGroupSet) -> (rows: Vec<NavRow>)
    requires
        collapsed.wf(),
        nav_sums_fit(entries@),
    ensures
        rows@ == nav_rows(entries@, collapsed@),
{
    let groups = nav_groups();
    let mut rows: Vec<NavRow> = Vec::new();
    let mut gi: usize = 0;
    while gi < groups.len()
        invariant
            groups@ == nav_group_order(),
            collapsed.wf(),
            nav_sums_fit(entries@),
            0 <= gi <= 7,
            rows@ == nav_rows_upto(entries@, collapsed@, gi as nat),
        decreases 7 - gi,
    {
        let group = groups[gi];
        let is_collapsed = collapsed.contains(&group);
        let members = group.members();
        let ghost all = present_entries(entries@, group_members(group));
        assert(sum_actionable(all) <= usize::MAX && sum_count(all) <= usize::MAX);
        let mut found: Vec<SectionEntry> = Vec::new();
        let mut actionable: usize = 0;
        let mut total: usize = 0;
        let mut k: usize = 0;
        while k < members.len()
            invariant
                members@ == group_members(group),
                all == present_entries(entries@, members@),
                sum_actionable(all) <= usize::MAX,
                sum_count(all) <= usize::MAX,
                0 <= k <= members@.len(),
                found@ == present_entries(entries@, members@.take(k as int)),
                actionable == sum_actionable(found@),
                total == sum_count(found@),
            decreases members@.len() - k,
        {
            proof {
                assert(members@.take(k + 1).drop_last() =~= members@.take(k as int));
                lemma_sums_monotone(entries@, members@, k + 1);
            }
            match find_section_entry(entries, members[k]) {
                Some(e) => {
                    let ghost before = found@;
                    found.push(e);
                    assert(found@.drop_last() =~= before);
                    actionable = actionable + e.included + e.excluded;
                    total = total + e.count;
                },
                None => {},
            }
            k = k + 1;
        }
        proof {
            assert(members@.take(members@.len() as int) =~= members@);
        }
        let advisories = total.saturating_sub(actionable);
        let ghost before_rows = rows@;
        rows.push(NavRow::Group { group, collapsed: is_collapsed, actionable, advisories });
        if !is_collapsed {
            let mut j: usize = 0;
            while j < found.len()
                invariant
                    0 <= j <= found@.len(),
                    rows@ == before_rows.push(group_header(entries@, collapsed@, group))
                        + found@.take(j as int).map_values(|e: SectionEntry| NavRow::Section(e)),
                decreases found@.len() - j,
            {
                rows.push(NavRow::Section(found[j]));
                proof {
                    assert(found@.take(j + 1).map_values(|e: SectionEntry| NavRow::Section(e))
                        =~= found@.take(j as int).map_values(|e: SectionEntry| NavRow::Section(e)).push(NavRow::Section(found@[j as int])));
                }
                j = j + 1;
            }
            proof {
                assert(found@.take(found@.len() as int) =~= found@);
            }
        }
        proof {
            assert(rows@ =~= nav_rows_upto(entries@, collapsed@, gi as nat) + group_rows(entries@, collapsed@, group));
        }
        gi = gi + 1;
    }
    rows
}

// ---------------------------------------------------------------------------
// Visible sections
// ---------------------------------------------------------------------------

/// Indices (into the section order) of the first `n` sections whose group
/// is not collapsed.
pub open spec fn visible_upto(collapsed: Set<NavGroup>, n: nat) -> Seq<usize>
    decreases n,
{
    if n == 0 {
        Seq::empty()
    } else {
        let prev = visible_upto(collapsed, (n - 1) as nat);
        if collapsed.contains(group_of(section_order_spec()[n - 1])) {
            prev
        } else {
            prev.push((n - 1) as usize)
        }
    }
}

/// Indices into the section order of the sections whose group is expanded.
pub fn visible_sections(collapsed: &NavGroupSet) -> (v: Vec<usize>)
    requires
        collapsed.wf(),
    ensures
        v@ == visible_upto(collapsed@, 14),
{
    let order = section_order();
    let mut visible: Vec<usize> = Vec::new();
    let mut idx: usize = 0;
    while idx < order.len()
        invariant
            order@ == section_order_spec(),
            collapsed.wf(),
            0 <= idx <= 14,
            visible@ == visible_upto(collapsed@, idx as nat),
        decreases 14 - idx,
    {
        if !collapsed.contains(&order[idx].group()) {
            visible.push(idx);
        }
        idx = idx + 1;
    }
    visible
}

/// Law: a section index is visible exactly when its group is expanded, and
/// the visible indices are increasing.
pub proof fn law_visible_sections(collapsed: Set<NavGroup>, n: nat)
    requires
        n <= 14,
    ensures
        forall|i: usize| #[trigger] visible_upto(collapsed, n).contains(i) <==> (i < n && !collapsed.contains(group_of(section_order_spec()[i as int]))),
        forall|a: int, b: int| 0 <= a < b < visible_upto(collapsed, n).len() ==> visible_upto(collapsed, n)[a] < visible_upto(collapsed, n)[b],
        forall|a: int| 0 <= a < visible_upto(collapsed, n).len() ==> visible_upto(collapsed, n)[a] < n,
    decreases n,
{
    if n > 0 {
        law_visible_sections(collapsed, (n - 1) as nat);
        let prev = visible_upto(collapsed, (n - 1) as nat);
        let cur = visible_upto(collapsed, n);
        assert forall|i: usize| #[trigger] cur.contains(i) <==> (i < n && !collapsed.contains(group_of(section_order_spec()[i as int]))) by {
            if cur.contains(i) && !prev.contains(i) {
                let k = choose|k: int| 0 <= k < cur.len() && cur[k] == i;
                assert(k == prev.len());
            }
            if prev.contains(i) {
                let k = choose|k: int| 0 <= k < prev.len() && prev[k] == i;
                if !collapsed.contains(group_of(section_order_spec()[n - 1])) {
                    assert(cur[k] == i);
                }
            }
            if i == n - 1 && !collapsed.contains(group_of(section_order_spec()[i as int])) {
                assert(cur[prev.len() as int] == i);
            }
        }
    }
}

// ---------------------------------------------------------------------------
// Section entries from session counts
// ---------------------------------------------------------------------------

/// Totals that the session's statistics keep for a section.
#[derive(Debug, Clone, Copy, PartialEq, Eq, Structural)]
pub struct StatsCounts {
    pub total: usize,
    pub included: usize,
    pub excluded: usize,
}

/// What the sidebar reads from a refine session: the statistics of the
/// package and config sections, the include flag of every decision item,
/// and the length of every reference-only collection.
#[derive(Debug, Clone)]
pub struct SectionSources {
    pub packages: StatsCounts,
    pub configs: StatsCounts,
    /// Include flags of the service state decisions.
    pub service_states: Vec<bool>,
    /// Include flags of the service drop-in decisions.
    pub service_dropins: Vec<bool>,
    /// Lengths of the read-only service collections (divergent,
    /// preset-matched with drop-ins, preset-unknown enabled and disabled,
    /// standalone drop-ins, omitted, advisories, warnings).
    pub service_references: Vec<usize>,
    /// Include flags of the quadlet decisions.
    pub quadlets: Vec<bool>,
    /// Include flags of the flatpak decisions.
    pub flatpaks: Vec<bool>,
    /// Lengths of the read-only container collections (running
    /// containers, compose files, quadlets, flatpaks).
    pub container_references: Vec<usize>,
    /// Include flags of the sysctl decisions.
    pub sysctls: Vec<bool>,
    /// Include flags of the tuned profile decisions.
    pub tuned: Vec<bool>,
    /// Include flags of the user and group decisions.
    pub users_groups: Vec<bool>,
    /// Downgrades plus upgrades.
    pub version_changes: Vec<usize>,
    /// Lengths of the kernel & boot collections.
    pub kernel_boot: Vec<usize>,
    /// Lengths of the network collections.
    pub network: Vec<usize>,
    /// Lengths of the storage collections.
    pub storage: Vec<usize>,
    pub scheduled_tasks: usize,
    pub non_rpm_software: usize,
    pub selinux: usize,
}

/// Number of `true` flags.
pub open spec fn count_true(s: Seq<bool>) -> nat
    decreases s.len(),
{
    if s.len() == 0 {
        0
    } else {
        count_true(s.drop_last()) + if s.last() { 1nat } else { 0nat }
    }
}

/// Sum of a sequence of lengths.
pub open spec fn sum_lens(s: Seq<usize>) -> nat
    decreases s.len(),
{
    if s.len() == 0 {
        0
    } else {
        sum_lens(s.drop_last()) + s.last() as nat
    }
}

pub proof fn lemma_count_true_le(s: Seq<bool>)
    ensures
        count_true(s) <= s.len(),
    decreases s.len(),
{
    if s.len() > 0 {
        lemma_count_true_le(s.drop_last());
    }
}

/// `(count, included, excluded)` of a section, computed as exact integers.
pub open spec fn section_counts_spec(src: SectionSources, id: SectionId) -> (int, int, int) {
    match id {
        SectionId::Packages => (src.packages.total as int, src.packages.included as int, src.packages.excluded as int),
        SectionId::Configs => (src.configs.total as int, src.configs.included as int, src.configs.excluded as int),
        SectionId::Services => {
            let dec = src.service_states@.len() + src.service_dropins@.len();
            let inc = count_true(src.service_states@) + count_true(src.service_dropins@);
            ((dec + sum_lens(src.service_references@)) as int, inc as int, dec - inc)
        },
        SectionId::Containers => {
            let dec = src.quadlets@.len() + src.flatpaks@.len();
            let inc = count_true(src.quadlets@) + count_true(src.flatpaks@);
            ((dec + sum_lens(src.container_references@)) as int, inc as int, dec - inc)
        },
        SectionId::Sysctls => (src.sysctls@.len() as int, count_true(src.sysctls@) as int, src.sysctls@.len() - count_true(src.sysctls@)),
        SectionId::Tuned => (src.tuned@.len() as int, count_true(src.tuned@) as int, src.tuned@.len() - count_true(src.tuned@)),
        SectionId::Users => (src.users_groups@.len() as int, count_true(src.users_groups@) as int, src.users_groups@.len() - count_true(src.users_groups@)),
        SectionId::VerChanges => (sum_lens(src.version_changes@) as int, 0, 0),
        SectionId::KernelBoot => (sum_lens(src.kernel_boot@) as int, 0, 0),
        SectionId::Network => (sum_lens(src.network@) as int, 0, 0),
        SectionId::Storage => (sum_lens(src.storage@) as int, 0, 0),
        SectionId::ScheduledTasks => (src.scheduled_tasks as int, 0, 0),
        SectionId::NonRpmSoftware => (src.non_rpm_software as int, 0, 0),
        SectionId::SELinux => (src.selinux as int, 0, 0),
    }
}

/// Every section's counts fit in a `usize`.
pub open spec fn section_sources_fit(src: SectionSources) -> bool {
    &&& src.service_states@.len() + src.service_dropins@.len() + sum_lens(src.service_references@) <= usize::MAX
    &&& src.quadlets@.len() + src.flatpaks@.len() + sum_lens(src.container_references@) <= usize::MAX
    &&& sum_lens(src.version_changes@) <= usize::MAX
    &&& sum_lens(src.kernel_boot@) <= usize::MAX
    &&& sum_lens(src.network@) <= usize::MAX
    &&& sum_lens(src.storage@) <= usize::MAX
    &&& src.sysctls@.len() <= usize::MAX
    &&& src.tuned@.len() <= usize::MAX
    &&& src.users_groups@.len() <= usize::MAX
}

/// The sidebar entry of a section.
pub open spec fn section_entry_spec(src: SectionSources, id: SectionId) -> SectionEntry {
    let c = section_counts_spec(src, id);
    SectionEntry { id, count: c.0 as usize, included: c.1 as usize, excluded: c.2 as usize }
}

fn count_flags(v: &Vec<bool>) -> (n: usize)
    ensures
        n == count_true(v@),
{
    let mut n: usize = 0;
    let mut i: usize = 0;
    while i < v.len()
        invariant
            0 <= i <= v@.len(),
            n == count_true(v@.take(i as int)),
            n <= i,
        decreases v@.len() - i,
    {
        assert(v@.take(i + 1).drop_last() =~= v@.take(i as int));
        if v[i] {
            n = n + 1;
        }
        i = i + 1;
    }
    assert(v@.take(v@.len() as int) =~= v@);
    n
}

pub proof fn lemma_sum_lens_prefix(s: Seq<usize>, k: int)
    requires
        0 <= k <= s.len(),
    ensures
        sum_lens(s.take(k)) <= sum_lens(s),
    decreases s.len() - k,
{
    if k < s.len() {
        lemma_sum_lens_prefix(s, k + 1);
        assert(s.take(k + 1).drop_last() =~= s.take(k));
    } else {
        assert(s.take(k) =~= s);
    }
}

fn sum_lengths(v: &Vec<usize>) -> (n: usize)
    requires
        sum_lens(v@) <= usize::MAX,
    ensures
        n == sum_lens(v@),
{
    let mut n: usize = 0;
    let mut i: usize = 0;
    while i < v.len()
        invariant
            0 <= i <= v@.len(),
            sum_lens(v@) <= usize::MAX,
            n == sum_lens(v@.take(i as int)),
        decreases v@.len() - i,
    {
        assert(v@.take(i + 1).drop_last() =~= v@.take(i as int));
        proof {
            lemma_sum_lens_prefix(v@, i + 1);
        }
        n = n + v[i];
        i = i + 1;
    }
    assert(v@.take(v@.len() as int) =~= v@);
    n
}

/// The sidebar entry of one section.
pub fn section_entry(src: &SectionSources, id: SectionId) -> (e: SectionEntry)
    requires
        section_sources_fit(*src),
    ensures
        e == section_entry_spec(*src, id),
{
    proof {
        lemma_count_true_le(src.service_states@);
        lemma_count_true_le(src.service_dropins@);
        lemma_count_true_le(src.quadlets@);
        lemma_count_true_le(src.flatpaks@);
        lemma_count_true_le(src.sysctls@);
        lemma_count_true_le(src.tuned@);
        lemma_count_true_le(src.users_groups@);
    }
    let (count, included, excluded) = match id {
        SectionId::Packages => (src.packages.total, src.packages.included, src.packages.excluded),
        SectionId::Configs => (src.configs.total, src.configs.included, src.configs.excluded),
        SectionId::Services => {
            let dec = src.service_states.len() + src.service_dropins.len();
            let inc = count_flags(&src.service_states) + count_flags(&src.service_dropins);
            (dec + sum_lengths(&src.service_references), inc, dec - inc)
        },
        SectionId::Containers => {
            let dec = src.quadlets.len() + src.flatpaks.len();
            let inc = count_flags(&src.quadlets) + count_flags(&src.flatpaks);
            (dec + sum_lengths(&src.container_references), inc, dec - inc)
        },
        SectionId::Sysctls => {
            let total = src.sysctls.len();
            let inc = count_flags(&src.sysctls);
            (total, inc, total - inc)
        },
        SectionId::Tuned => {
            let total = src.tuned.len();
            let inc = count_flags(&src.tuned);
            (total, inc, total - inc)
        },
        SectionId::Users => {
            let total = src.users_groups.len();
            let inc = count_flags(&src.users_groups);
            (total, inc, total - inc)
        },
        SectionId::VerChanges => (sum_lengths(&src.version_changes), 0, 0),
        SectionId::KernelBoot => (sum_lengths(&src.kernel_boot), 0, 0),
        SectionId::Network => (sum_lengths(&src.network), 0, 0),
        SectionId::Storage => (sum_lengths(&src.storage), 0, 0),
        SectionId::ScheduledTasks => (src.scheduled_tasks, 0, 0),
        SectionId::NonRpmSoftware => (src.non_rpm_software, 0, 0),
        SectionId::SELinux => (src.selinux, 0, 0),
    };
    SectionEntry { id, count, included, excluded }
}

/// Sidebar entries, in section order, with item counts: statistics for
/// packages and configs, decisions (plus read-only collections) for the
/// composite sections, and collection lengths for reference-only sections,
/// whose included and excluded counts are always zero.
pub fn build_section_entries(src: &SectionSources) -> (v: Vec<SectionEntry>)
    requires
        section_sources_fit(*src),
    ensures
        v@ == section_order_spec().map_values(|id: SectionId| section_entry_spec(*src, id)),
{
    let order = section_order();
    let mut v: Vec<SectionEntry> = Vec::new();
    let mut i: usize = 0;
    while i < order.len()
        invariant
            order@ == section_order_spec(),
            section_sources_fit(*src),
            0 <= i <= 14,
            v@ == order@.take(i as int).map_values(|id: SectionId| section_entry_spec(*src, id)),
        decreases 14 - i,
    {
        v.push(section_entry(src, order[i]));
        assert(order@.take(i + 1).map_values(|id: SectionId| section_entry_spec(*src, id))
            =~= order@.take(i as int).map_values(|id: SectionId| section_entry_spec(*src, id)).push(section_entry_spec(*src, order@[i as int])));
        i = i + 1;
    }
    assert(order@.take(14) =~= order@);
    v
}

/// Law: reference-only sections never report included or excluded items,
/// and in every decision section `included + excluded` is at most the total
/// (advisories and read-only items make up the difference).
pub proof fn law_section_entry_counts(src: SectionSources, id: SectionId)
    requires
        section_sources_fit(src),
        id != SectionId::Packages && id != SectionId::Configs,
    ensures
        !crate::tui_types::is_decision_section(id) ==> section_entry_spec(src, id).included == 0 && section_entry_spec(src, id).excluded == 0,
        section_entry_spec(src, id).included + section_entry_spec(src, id).excluded <= section_entry_spec(src, id).count,
{
    lemma_count_true_le(src.service_states@);
    lemma_count_true_le(src.service_dropins@);
    lemma_count_true_le(src.quadlets@);
    lemma_count_true_le(src.flatpaks@);
    lemma_count_true_le(src.sysctls@);
    lemma_count_true_le(src.tuned@);
    lemma_count_true_le(src.users_groups@);
    let c = section_counts_spec(src, id);
    match id {
        SectionId::Services => {
            assert(c.1 + c.2 == src.service_states@.len() + src.service_dropins@.len());
        },
        SectionId::Containers => {
            assert(c.1 + c.2 == src.quadlets@.len() + src.flatpaks@.len());
        },
        SectionId::Sysctls => { assert(0 <= c.1 && 0 <= c.2 && c.1 + c.2 <= c.0 && c.0 <= usize::MAX); },
        SectionId::Tuned => { assert(0 <= c.1 && 0 <= c.2 && c.1 + c.2 <= c.0 && c.0 <= usize::MAX); },
        SectionId::Users => { assert(0 <= c.1 && 0 <= c.2 && c.1 + c.2 <= c.0 && c.0 <= usize::MAX); },
        SectionId::VerChanges => { assert(0 <= c.1 && 0 <= c.2 && c.1 + c.2 <= c.0 && c.0 <= usize::MAX); },
        SectionId::KernelBoot => { assert(0 <= c.1 && 0 <= c.2 && c.1 + c.2 <= c.0 && c.0 <= usize::MAX); },
        SectionId::Network => { assert(0 <= c.1 && 0 <= c.2 && c.1 + c.2 <= c.0 && c.0 <= usize::MAX); },
        SectionId::Storage => { assert(0 <= c.1 && 0 <= c.2 && c.1 + c.2 <= c.0 && c.0 <= usize::MAX); },
        SectionId::ScheduledTasks => { assert(0 <= c.1 && 0 <= c.2 && c.1 + c.2 <= c.0 && c.0 <= usize::MAX); },
        SectionId::NonRpmSoftware => { assert(0 <= c.1 && 0 <= c.2 && c.1 + c.2 <= c.0 && c.0 <= usize::MAX); },
        SectionId::SELinux => { assert(0 <= c.1 && 0 <= c.2 && c.1 + c.2 <= c.0 && c.0 <= usize::MAX); },
        _ => {},
    }
}

// ---------------------------------------------------------------------------
// Visible sections and the sidebar rows
// ---------------------------------------------------------------------------

/// The entries of the section rows among `rows`, in row order.
pub open spec fn section_rows(rows: Seq<NavRow>) -> Seq<SectionEntry>
    decreases rows.len(),
{
    if rows.len() == 0 {
        Seq::empty()
    } else {
        section_rows(rows.drop_last()) + match rows.last() {
            NavRow::Section(e) => seq![e],
            NavRow::Group { .. } => Seq::empty(),
        }
    }
}

proof fn lemma_section_rows_add(a: Seq<NavRow>, b: Seq<NavRow>)
    ensures
        section_rows(a + b) == section_rows(a) + section_rows(b),
    decreases b.len(),
{
    if b.len() == 0 {
        assert(a + b =~= a);
        assert(section_rows(a) + section_rows(b) =~= section_rows(a));
    } else {
        lemma_section_rows_add(a, b.drop_last());
        assert((a + b).drop_last() =~= a + b.drop_last());
        assert((a + b).last() == b.last());
        assert(section_rows(a + b) =~= section_rows(a) + section_rows(b));
    }
}

proof fn lemma_section_rows_of_entries(es: Seq<SectionEntry>)
    ensures
        section_rows(es.map_values(|e: SectionEntry| NavRow::Section(e))) == es,
    decreases es.len(),
{
    if es.len() > 0 {
        lemma_section_rows_of_entries(es.drop_last());
        assert(es.map_values(|e: SectionEntry| NavRow::Section(e)).drop_last() =~= es.drop_last().map_values(|e: SectionEntry| NavRow::Section(e)));
        assert(es.drop_last().push(es.last()) =~= es);
    }
}

/// Every section has an entry.
pub open spec fn has_every_section(entries: Seq<SectionEntry>) -> bool {
    forall|id: SectionId| #[trigger] find_entry(entries, id) is Some
}

/// The entry of section `id`.
pub open spec fn entry_for(entries: Seq<SectionEntry>, id: SectionId) -> SectionEntry {
    find_entry(entries, id).unwrap()
}

proof fn lemma_present_all(entries: Seq<SectionEntry>, ids: Seq<SectionId>)
    requires
        has_every_section(entries),
    ensures
        present_entries(entries, ids) == ids.map_values(|id: SectionId| entry_for(entries, id)),
    decreases ids.len(),
{
    if ids.len() > 0 {
        lemma_present_all(entries, ids.drop_last());
        assert(find_entry(entries, ids.last()) is Some);
        assert(ids.map_values(|id: SectionId| entry_for(entries, id)) =~= ids.drop_last().map_values(|id: SectionId| entry_for(entries, id)).push(entry_for(entries, ids.last())));
    }
}

proof fn lemma_grouped_prefix(a: nat, b: nat)
    requires
        a <= b,
    ensures
        grouped_sections(b).len() >= grouped_sections(a).len(),
        forall|k: int| 0 <= k < grouped_sections(a).len() ==> grouped_sections(b)[k] == #[trigger] grouped_sections(a)[k],
    decreases b - a,
{
    if a < b {
        lemma_grouped_prefix(a, (b - 1) as nat);
        let p = grouped_sections((b - 1) as nat);
        assert forall|k: int| 0 <= k < grouped_sections(a).len() implies grouped_sections(b)[k] == #[trigger] grouped_sections(a)[k] by {
            assert(grouped_sections(b)[k] == p[k]);
        }
    }
}

proof fn lemma_visible_extend(c: Set<NavGroup>, n: nat, m: nat, g: NavGroup)
    requires
        n + m <= 14,
        forall|j: int| 0 <= j < m ==> group_of(#[trigger] section_order_spec()[n + j]) == g,
    ensures
        visible_upto(c, n + m) == visible_upto(c, n) + if c.contains(g) {
            Seq::<usize>::empty()
        } else {
            Seq::new(m, |j: int| (n + j) as usize)
        },
    decreases m,
{
    if m > 0 {
        lemma_visible_extend(c, n, (m - 1) as nat, g);
        assert(group_of(section_order_spec()[n + (m - 1)]) == g);
        if c.contains(g) {
            assert(visible_upto(c, n + m) =~= visible_upto(c, n));
        } else {
            assert(visible_upto(c, n + m) == visible_upto(c, (n + m - 1) as nat).push((n + m - 1) as usize));
            assert(Seq::new(m, |j: int| (n + j) as usize) =~= Seq::new((m - 1) as nat, |j: int| (n + j) as usize).push((n + m - 1) as usize));
        }
    } else {
        assert(visible_upto(c, n + m) =~= visible_upto(c, n) + if c.contains(g) {
            Seq::<usize>::empty()
        } else {
            Seq::new(m, |j: int| (n + j) as usize)
        });
    }
}

/// The entries of the sections at the given positions of the section order.
pub open spec fn entries_at(entries: Seq<SectionEntry>, idx: Seq<usize>) -> Seq<SectionEntry> {
    idx.map_values(|i: usize| entry_for(entries, section_order_spec()[i as int]))
}

#[verifier::spinoff_prover]
proof fn lemma_rows_upto(entries: Seq<SectionEntry>, c: Set<NavGroup>, gi: nat)
    requires
        has_every_section(entries),
        gi <= 7,
    ensures
        section_rows(nav_rows_upto(entries, c, gi)) == entries_at(entries, visible_upto(c, grouped_sections(gi).len())),
        grouped_sections(gi).len() <= 14,
    decreases gi,
{
    law_nav_groups_cover_section_order();
    lemma_grouped_prefix(gi, 7);
    if gi == 0 {
        assert(entries_at(entries, visible_upto(c, 0)) =~= Seq::empty());
    } else {
        let pg = (gi - 1) as nat;
        lemma_rows_upto(entries, c, pg);
        let g = nav_group_order()[pg as int];
        let mem = group_members(g);
        let n = grouped_sections(pg).len();
        let m = mem.len();
        assert(grouped_sections(gi) == grouped_sections(pg) + mem);
        assert forall|j: int| 0 <= j < m implies group_of(#[trigger] section_order_spec()[n + j]) == g by {
            assert(grouped_sections(gi)[n + j] == mem[j]);
            assert(grouped_sections(7)[n + j] == grouped_sections(gi)[n + j]);
            assert(group_of(mem[j]) == g);
        }
        lemma_visible_extend(c, n, m, g);
        let prev = nav_rows_upto(entries, c, pg);
        let gr = group_rows(entries, c, g);
        assert(nav_rows_upto(entries, c, gi) == prev + gr);
        lemma_section_rows_add(prev, gr);
        let tail = if c.contains(g) {
            Seq::<NavRow>::empty()
        } else {
            present_entries(entries, mem).map_values(|e: SectionEntry| NavRow::Section(e))
        };
        assert(gr == seq![group_header(entries, c, g)] + tail);
        lemma_section_rows_add(seq![group_header(entries, c, g)], tail);
        assert(section_rows(seq![group_header(entries, c, g)]) =~= Seq::empty()) by {
            let h = seq![group_header(entries, c, g)];
            assert(h.drop_last() =~= Seq::<NavRow>::empty());
            assert(h.last() == group_header(entries, c, g));
            assert(group_header(entries, c, g) is Group);
            assert(section_rows(h.drop_last()) =~= Seq::<SectionEntry>::empty());
        }
        lemma_present_all(entries, mem);
        lemma_section_rows_of_entries(present_entries(entries, mem));
        if c.contains(g) {
            assert(section_rows(tail) =~= Seq::empty());
            assert(entries_at(entries, visible_upto(c, n + m)) =~= entries_at(entries, visible_upto(c, n)));
        } else {
            let added = Seq::new(m, |j: int| (n + j) as usize);
            assert(entries_at(entries, added) =~= mem.map_values(|id: SectionId| entry_for(entries, id))) by {
                assert forall|j: int| 0 <= j < m implies #[trigger] entries_at(entries, added)[j] == mem.map_values(|id: SectionId| entry_for(entries, id))[j] by {
                    assert(grouped_sections(gi)[n + j] == mem[j]);
                    assert(grouped_sections(7)[n + j] == grouped_sections(gi)[n + j]);
                }
            }
            assert(entries_at(entries, visible_upto(c, n) + added) =~= entries_at(entries, visible_upto(c, n)) + entries_at(entries, added));
        }
    }
}

/// With an entry for every section, the section rows of the sidebar are,
/// in order, exactly the sections that `visible_sections` lists: those of
/// the expanded groups, in the section order.
pub proof fn law_visible_sections_match_rows(entries: Seq<SectionEntry>, c: Set<NavGroup>)
    requires
        has_every_section(entries),
    ensures
        section_rows(nav_rows(entries, c)) == entries_at(entries, visible_upto(c, 14)),
{
    law_nav_groups_cover_section_order();
    lemma_rows_upto(entries, c, 7);
}

// ---------------------------------------------------------------------------
// What one more decision does to the sidebar counts
// ---------------------------------------------------------------------------

/// The lists of include flags that the sidebar counts.
#[derive(Debug, Clone, Copy, PartialEq, Eq, Structural)]
pub enum FlagList {
    ServiceStates,
    ServiceDropins,
    Quadlets,
    Flatpaks,
    Sysctls,
    Tuned,
    UsersGroups,
}

/// The include flags of list `w`.
pub open spec fn flags_of(src: SectionSources, w: FlagList) -> Seq<bool> {
    match w {
        FlagList::ServiceStates => src.service_states@,
        FlagList::ServiceDropins => src.service_dropins@,
        FlagList::Quadlets => src.quadlets@,
        FlagList::Flatpaks => src.flatpaks@,
        FlagList::Sysctls => src.sysctls@,
        FlagList::Tuned => src.tuned@,
        FlagList::UsersGroups => src.users_groups@,
    }
}

/// The section whose decisions list `w` holds.
pub open spec fn section_of_flags(w: FlagList) -> SectionId {
    match w {
        FlagList::ServiceStates | FlagList::ServiceDropins => SectionId::Services,
        FlagList::Quadlets | FlagList::Flatpaks => SectionId::Containers,
        FlagList::Sysctls => SectionId::Sysctls,
        FlagList::Tuned => SectionId::Tuned,
        FlagList::UsersGroups => SectionId::Users,
    }
}

/// `after` is `before` with one more decision, included when `b`, at the
/// end of list `w`; nothing else differs.
pub open spec fn one_more_decision(before: SectionSources, after: SectionSources, w: FlagList, b: bool) -> bool {
    &&& flags_of(after, w) == flags_of(before, w).push(b)
    &&& forall|v: FlagList| v != w ==> #[trigger] flags_of(after, v) == flags_of(before, v)
    &&& after.packages == before.packages
    &&& after.configs == before.configs
    &&& after.service_references@ == before.service_references@
    &&& after.container_references@ == before.container_references@
    &&& after.version_changes@ == before.version_changes@
    &&& after.kernel_boot@ == before.kernel_boot@
    &&& after.network@ == before.network@
    &&& after.storage@ == before.storage@
    &&& after.scheduled_tasks == before.scheduled_tasks
    &&& after.non_rpm_software == before.non_rpm_software
    &&& after.selinux == before.selinux
}

proof fn lemma_count_true_push(s: Seq<bool>, b: bool)
    ensures
        count_true(s.push(b)) == count_true(s) + if b { 1nat } else { 0nat },
{
    assert(s.push(b).drop_last() =~= s);
}

/// One more decision in a section counts once more in its section: the
/// total grows by one, the included count by one when the decision is
/// included, the excluded count by one when it is not; every other
/// section's entry stays as it was. (With no decisions a section counts
/// none included or excluded, so the counts are the numbers of included
/// and of not included decisions across all of the section's lists.)
pub proof fn law_one_more_decision(before: SectionSources, after: SectionSources, w: FlagList, b: bool)
    requires
        one_more_decision(before, after, w, b),
        section_sources_fit(after),
    ensures
        section_entry_spec(after, section_of_flags(w)).count == section_entry_spec(before, section_of_flags(w)).count + 1,
        section_entry_spec(after, section_of_flags(w)).included
            == section_entry_spec(before, section_of_flags(w)).included + if b { 1int } else { 0int },
        section_entry_spec(after, section_of_flags(w)).excluded
            == section_entry_spec(before, section_of_flags(w)).excluded + if b { 0int } else { 1int },
        forall|id: SectionId| id != section_of_flags(w) ==> #[trigger] section_entry_spec(after, id) == section_entry_spec(before, id),
{
    assert(flags_of(after, FlagList::ServiceStates) == flags_of(before, FlagList::ServiceStates) || w == FlagList::ServiceStates);
    assert(flags_of(after, FlagList::ServiceDropins) == flags_of(before, FlagList::ServiceDropins) || w == FlagList::ServiceDropins);
    assert(flags_of(after, FlagList::Quadlets) == flags_of(before, FlagList::Quadlets) || w == FlagList::Quadlets);
    assert(flags_of(after, FlagList::Flatpaks) == flags_of(before, FlagList::Flatpaks) || w == FlagList::Flatpaks);
    assert(flags_of(after, FlagList::Sysctls) == flags_of(before, FlagList::Sysctls) || w == FlagList::Sysctls);
    assert(flags_of(after, FlagList::Tuned) == flags_of(before, FlagList::Tuned) || w == FlagList::Tuned);
    assert(flags_of(after, FlagList::UsersGroups) == flags_of(before, FlagList::UsersGroups) || w == FlagList::UsersGroups);
    lemma_count_true_push(flags_of(before, w), b);
    lemma_count_true_le(before.service_states@);
    lemma_count_true_le(before.service_dropins@);
    lemma_count_true_le(before.quadlets@);
    lemma_count_true_le(before.flatpaks@);
    lemma_count_true_le(before.sysctls@);
    lemma_count_true_le(before.tuned@);
    lemma_count_true_le(before.users_groups@);
    lemma_count_true_le(after.service_states@);
    lemma_count_true_le(after.service_dropins@);
    lemma_count_true_le(after.quadlets@);
    lemma_count_true_le(after.flatpaks@);
    lemma_count_true_le(after.sysctls@);
    lemma_count_true_le(after.tuned@);
    lemma_count_true_le(after.users_groups@);
}

/// A section without decisions counts none included and none excluded.
pub proof fn law_no_decisions_none_counted(src: SectionSources, id: SectionId)
    requires
        id != SectionId::Packages && id != SectionId::Configs,
        forall|w: FlagList| section_of_flags(w) == id ==> (#[trigger] flags_of(src, w)).len() == 0,
    ensures
        section_entry_spec(src, id).included == 0,
        section_entry_spec(src, id).excluded == 0,
{
    assert(section_of_flags(FlagList::ServiceStates) == SectionId::Services);
    assert(flags_of(src, FlagList::ServiceStates) == src.service_states@);
    assert(flags_of(src, FlagList::ServiceDropins) == src.service_dropins@);
    assert(flags_of(src, FlagList::Quadlets) == src.quadlets@);
    assert(flags_of(src, FlagList::Flatpaks) == src.flatpaks@);
    assert(flags_of(src, FlagList::Sysctls) == src.sysctls@);
    assert(flags_of(src, FlagList::Tuned) == src.tuned@);
    assert(flags_of(src, FlagList::UsersGroups) == src.users_groups@);
}

/// Counting included flags adds up over joined lists, one for each
/// included flag: the count of `a + b` is the count of `a` plus the count
/// of `b`, and a single flag counts one exactly when it is set.
pub proof fn law_count_true_adds(a: Seq<bool>, b: Seq<bool>)
    ensures
        count_true(a + b) == count_true(a) + count_true(b),
        count_true(seq![true]) == 1,
        count_true(seq![false]) == 0,
    decreases b.len(),
{
    assert(seq![true].drop_last() =~= Seq::<bool>::empty());
    assert(seq![false].drop_last() =~= Seq::<bool>::empty());
    assert(count_true(Seq::<bool>::empty()) == 0);
    assert(seq![true].last() == true && seq![false].last() == false);
    assert(count_true(seq![true]) == count_true(seq![true].drop_last()) + 1);
    assert(count_true(seq![false]) == count_true(seq![false].drop_last()));
    if b.len() == 0 {
        assert(a + b =~= a);
    } else {
        law_count_true_adds(a, b.drop_last());
        assert((a + b).drop_last() =~= a + b.drop_last());
        assert((a + b).last() == b.last());
    }
}

/// Summing lengths adds up over joined lists: the sum over `a + b` is the
/// sum over `a` plus the sum over `b`, and a single length sums to itself.
pub proof fn law_sum_lens_adds(a: Seq<usize>, b: Seq<usize>)
    ensures
        sum_lens(a + b) == sum_lens(a) + sum_lens(b),
        forall|n: usize| #[trigger] sum_lens(seq![n]) == n,
    decreases b.len(),
{
    assert forall|n: usize| #[trigger] sum_lens(seq![n]) == n by {
        assert(seq![n].drop_last() =~= Seq::<usize>::empty());
        assert(sum_lens(Seq::<usize>::empty()) == 0);
        assert(seq![n].last() == n);
        assert(sum_lens(seq![n]) == sum_lens(seq![n].drop_last()) + n);
    }
    if b.len() == 0 {
        assert(a + b =~= a);
    } else {
        law_sum_lens_adds(a, b.drop_last());
        assert((a + b).drop_last() =~= a + b.drop_last());
        assert((a + b).last() == b.last());
    }
}

} // verus!
