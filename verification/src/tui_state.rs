//! The terminal UI's mutable state, and the item list of a section:
//! raw items grouped by triage bucket under collapsible headers.

use vstd::prelude::*;

use crate::tui_types::{
    bucket_index, group_to_bucket_index, opt_id_view, DetailMode, FocusTarget, InputMode, ItemId, ItemIdView, TriageGroup,
};
use crate::widget::status_bar::FlashMessage;

verus! {

/// The set of collapsed triage groups, as (section index, bucket index)
/// pairs, held without repeats.
pub struct CollapsedGroups {
    pairs: Vec<(usize, usize)>,
}

impl View for CollapsedGroups {
    type V = Set<(usize, usize)>;

    closed spec fn view(&self) -> Set<(usize, usize)> {
        self.pairs@.to_set()
    }
}

impl CollapsedGroups {
    /// Well-formedness: no pair is held twice.
    pub closed spec fn wf(&self) -> bool {
        self.pairs@.no_duplicates()
    }

    /// The empty set.
    pub fn new() -> (s: Self)
        ensures
            s.wf(),
            s@ == Set::<(usize, usize)>::empty(),
    {
        let s = CollapsedGroups { pairs: Vec::new() };
        assert(s@ =~= Set::<(usize, usize)>::empty());
        s
    }

    fn position(&self, key: (usize, usize)) -> (r: Option<usize>)
        ensures
            match r {
                Some(i) => i < self.pairs@.len() && self.pairs@[i as int] == key,
                None => !self.pairs@.contains(key),
            },
    {
        let mut i: usize = 0;
        while i < self.pairs.len()
            invariant
                0 <= i <= self.pairs@.len(),
                forall|j: int| 0 <= j < i ==> self.pairs@[j] != key,
            decreases self.pairs@.len() - i,
        {
            let p = self.pairs[i];
            if p.0 == key.0 && p.1 == key.1 {
                return Some(i);
            }
            i = i + 1;
        }
        None
    }

    /// Whether `key` is in the set.
    pub fn contains(&self, key: &(usize, usize)) -> (b: bool)
        ensures
            b == self@.contains(*key),
    {
        match self.position(*key) {
            Some(_) => true,
            None => false,
        }
    }

    /// Adds `key`.
    pub fn insert(&mut self, key: (usize, usize))
        requires
            old(self).wf(),
        ensures
            final(self).wf(),
            final(self)@ == old(self)@.insert(key),
    {
        if self.position(key).is_none() {
            let ghost before = self.pairs@;
            self.pairs.push(key);
            proof {
                before.lemma_push_to_set_commute(key);
            }
            assert(self.pairs@.no_duplicates()) by {
                assert forall|j: int, k: int| 0 <= j < k < self.pairs@.len() implies self.pairs@[j] != self.pairs@[k] by {
                    if k == before.len() {
                        assert(before.contains(before[j]));
                    }
                }
            }
        } else {
            assert(old(self)@.contains(key));
        }
        assert(self@ =~= old(self)@.insert(key));
    }

    /// Removes `key`.
    pub fn remove(&mut self, key: &(usize, usize))
        requires
            old(self).wf(),
        ensures
            final(self).wf(),
            final(self)@ == old(self)@.remove(*key),
    {
        match self.position(*key) {
            Some(i) => {
                let ghost before = self.pairs@;
                self.pairs.remove(i);
                assert(self.pairs@ =~= before.remove(i as int));
                assert forall|j: int, k: int| 0 <= j < k < self.pairs@.len() implies self.pairs@[j] != self.pairs@[k] by {
                    let jj = if j < i { j } else { j + 1 };
                    let kk = if k < i { k } else { k + 1 };
                    assert(before[jj] != before[kk]);
                }
                assert forall|p: (usize, usize)| self@.contains(p) <==> old(self)@.remove(*key).contains(p) by {
                    if old(self)@.remove(*key).contains(p) {
                        let m = choose|m: int| 0 <= m < before.len() && before[m] == p;
                        assert(m != i);
                        let mm = if m < i { m } else { m - 1 };
                        assert(self.pairs@[mm] == p);
                    }
                    if self@.contains(p) {
                        let m = choose|m: int| 0 <= m < self.pairs@.len() && self.pairs@[m] == p;
                        let mm = if m < i { m } else { m + 1 };
                        assert(before[mm] == p);
                        assert(mm != i);
                    }
                }
                assert(self@ =~= old(self)@.remove(*key));
            },
            None => {
                assert(self@ =~= old(self)@.remove(*key));
            },
        }
    }
}

/// The state of the terminal UI.
pub struct TuiState {
    /// Index of the active section in the sidebar order.
    pub active_section: usize,
    /// Cursor row in the active section's item list.
    pub cursor: usize,
    /// The cursor remembered for each section.
    pub section_cursors: Vec<usize>,
    pub focus: FocusTarget,
    pub detail_mode: DetailMode,
    pub detail_scroll: u16,
    pub input_mode: InputMode,
    pub search_query: String,
    pub command_input: String,
    /// Collapsed triage groups, by (section, bucket index).
    pub collapsed_groups: CollapsedGroups,
    pub show_containerfile: bool,
    pub flash: Option<FlashMessage>,
}

/// Every section's Baseline group (bucket 2), collapsed as a new state has it.
pub open spec fn baseline_collapsed(section_count: nat) -> Set<(usize, usize)> {
    Set::new(|p: (usize, usize)| p.0 < section_count && p.1 == 2)
}

impl TuiState {
    /// The fresh state for `section_count` sections: first section active,
    /// cursors at the top, focus on the item list, nothing open, and every
    /// section's Baseline group collapsed.
    pub fn new(section_count: usize) -> (s: TuiState)
        ensures
            s.active_section == 0,
            s.cursor == 0,
            s.section_cursors@ == Seq::new(section_count as nat, |_i: int| 0usize),
            s.focus == FocusTarget::ItemList,
            s.detail_mode == DetailMode::Closed,
            s.detail_scroll == 0,
            s.input_mode == InputMode::Normal,
            s.search_query@.len() == 0,
            s.command_input@.len() == 0,
            s.collapsed_groups.wf(),
            s.collapsed_groups@ == baseline_collapsed(section_count as nat),
            !s.show_containerfile,
            s.flash is None,
    {
        let mut cursors: Vec<usize> = Vec::new();
        let mut collapsed = CollapsedGroups::new();
        let mut i: usize = 0;
        while i < section_count
            invariant
                0 <= i <= section_count,
                cursors@ == Seq::new(i as nat, |_j: int| 0usize),
                collapsed.wf(),
                collapsed@ == baseline_collapsed(i as nat),
            decreases section_count - i,
        {
            cursors.push(0);
            collapsed.insert((i, 2));
            assert(cursors@ =~= Seq::new((i + 1) as nat, |_j: int| 0usize));
            assert(collapsed@ =~= baseline_collapsed((i + 1) as nat));
            i = i + 1;
        }
        TuiState {
            active_section: 0,
            cursor: 0,
            section_cursors: cursors,
            focus: FocusTarget::ItemList,
            detail_mode: DetailMode::Closed,
            detail_scroll: 0,
            input_mode: InputMode::Normal,
            search_query: String::new(),
            command_input: String::new(),
            collapsed_groups: collapsed,
            show_containerfile: false,
            flash: None,
        }
    }
}

/// A row of a section's item list: a group header or an item.
#[derive(Debug, Clone)]
pub struct ListItem {
    pub name: String,
    pub detail: String,
    pub group: TriageGroup,
    pub included: Option<bool>,
    /// Position of the item within its group.
    pub index: usize,
    pub item_id: Option<ItemId>,
    pub has_content: bool,
    pub locked: bool,
    pub lock_reason: Option<String>,
    pub is_group_header: bool,
    /// Number of items in the group (headers only).
    pub group_count: usize,
    pub is_collapsed: bool,
    pub is_advisory: bool,
    pub advisory_rationale: Option<String>,
}

/// An item before grouping into triage buckets.
#[derive(Debug, Clone)]
pub struct RawItem {
    pub name: String,
    pub detail: String,
    pub group: TriageGroup,
    pub included: Option<bool>,
    pub item_id: Option<ItemId>,
    pub has_content: bool,
    pub locked: bool,
    pub lock_reason: Option<String>,
    pub is_advisory: bool,
    pub advisory_rationale: Option<String>,
}

/// The abstract value of a raw item.
pub struct RawItemView {
    pub name: Seq<char>,
    pub detail: Seq<char>,
    pub group: TriageGroup,
    pub included: Option<bool>,
    pub item_id: Option<ItemIdView>,
    pub has_content: bool,
    pub locked: bool,
    pub lock_reason: Option<Seq<char>>,
    pub is_advisory: bool,
    pub advisory_rationale: Option<Seq<char>>,
}

pub open spec fn raw_view(r: RawItem) -> RawItemView {
    RawItemView {
        name: r.name@,
        detail: r.detail@,
        group: r.group,
        included: r.included,
        item_id: opt_id_view(r.item_id),
        has_content: r.has_content,
        locked: r.locked,
        lock_reason: opt_chars(r.lock_reason),
        is_advisory: r.is_advisory,
        advisory_rationale: opt_chars(r.advisory_rationale),
    }
}

pub open spec fn raw_views(rs: Seq<RawItem>) -> Seq<RawItemView> {
    rs.map_values(|r: RawItem| raw_view(r))
}

/// An ordinary item.
pub open spec fn entry_view(
    name: Seq<char>,
    detail: Seq<char>,
    group: TriageGroup,
    included: Option<bool>,
    item_id: Option<ItemIdView>,
    has_content: bool,
    locked: bool,
    lock_reason: Option<Seq<char>>,
) -> RawItemView {
    RawItemView {
        name,
        detail,
        group,
        included,
        item_id,
        has_content,
        locked,
        lock_reason,
        is_advisory: false,
        advisory_rationale: None,
    }
}

/// An advisory item: no decision state, a rationale.
pub open spec fn advisory_view(name: Seq<char>, detail: Seq<char>, group: TriageGroup, rationale: Seq<char>) -> RawItemView {
    RawItemView {
        name,
        detail,
        group,
        included: None,
        item_id: None,
        has_content: false,
        locked: false,
        lock_reason: None,
        is_advisory: true,
        advisory_rationale: Some(rationale),
    }
}

/// A read-only reference item in the Site group.
pub open spec fn site_view(name: Seq<char>, detail: Seq<char>) -> RawItemView {
    entry_view(name, detail, TriageGroup::Site, None, None, false, false, None)
}

impl RawItem {
    /// An ordinary item.
    pub fn new(
        name: String,
        detail: String,
        group: TriageGroup,
        included: Option<bool>,
        item_id: Option<ItemId>,
        has_content: bool,
        locked: bool,
        lock_reason: Option<String>,
    ) -> (r: RawItem)
        ensures
            raw_view(r) == entry_view(name@, detail@, group, included, opt_id_view(item_id), has_content, locked, opt_chars(lock_reason)),
    {
        RawItem {
            name,
            detail,
            group,
            included,
            item_id,
            has_content,
            locked,
            lock_reason,
            is_advisory: false,
            advisory_rationale: None,
        }
    }

    /// An advisory item with its rationale.
    pub fn advisory(name: String, detail: String, group: TriageGroup, rationale: String) -> (r: RawItem)
        ensures
            raw_view(r) == advisory_view(name@, detail@, group, rationale@),
    {
        RawItem {
            name,
            detail,
            group,
            included: None,
            item_id: None,
            has_content: false,
            locked: false,
            lock_reason: None,
            is_advisory: true,
            advisory_rationale: Some(rationale),
        }
    }
}

/// The abstract value of a list row.
pub struct ListItemView {
    pub name: Seq<char>,
    pub detail: Seq<char>,
    pub group: TriageGroup,
    pub included: Option<bool>,
    pub index: nat,
    pub item_id: Option<ItemId>,
    pub has_content: bool,
    pub locked: bool,
    pub lock_reason: Option<Seq<char>>,
    pub is_group_header: bool,
    pub group_count: nat,
    pub is_collapsed: bool,
    pub is_advisory: bool,
    pub advisory_rationale: Option<Seq<char>>,
}

pub open spec fn opt_chars(o: Option<String>) -> Option<Seq<char>> {
    match o {
        Some(s) => Some(s@),
        None => None,
    }
}

/// The abstract value of a list row.
pub open spec fn list_item_view(li: ListItem) -> ListItemView {
    ListItemView {
        name: li.name@,
        detail: li.detail@,
        group: li.group,
        included: li.included,
        index: li.index as nat,
        item_id: li.item_id,
        has_content: li.has_content,
        locked: li.locked,
        lock_reason: opt_chars(li.lock_reason),
        is_group_header: li.is_group_header,
        group_count: li.group_count as nat,
        is_collapsed: li.is_collapsed,
        is_advisory: li.is_advisory,
        advisory_rationale: opt_chars(li.advisory_rationale),
    }
}

pub open spec fn list_view(items: Seq<ListItem>) -> Seq<ListItemView> {
    items.map_values(|li: ListItem| list_item_view(li))
}

/// The header row of a group of `count` items.
pub open spec fn header_view(g: TriageGroup, count: nat, collapsed: bool) -> ListItemView {
    ListItemView {
        name: Seq::empty(),
        detail: Seq::empty(),
        group: g,
        included: None,
        index: 0,
        item_id: None,
        has_content: false,
        locked: false,
        lock_reason: None,
        is_group_header: true,
        group_count: count,
        is_collapsed: collapsed,
        is_advisory: false,
        advisory_rationale: None,
    }
}

/// The row of a raw item at position `idx` of its group. An advisory row
/// carries its rationale (empty when it had none) and no decision state.
pub open spec fn item_view(r: RawItem, g: TriageGroup, idx: nat) -> ListItemView {
    if r.is_advisory {
        ListItemView {
            name: r.name@,
            detail: r.detail@,
            group: g,
            included: None,
            index: idx,
            item_id: None,
            has_content: false,
            locked: false,
            lock_reason: None,
            is_group_header: false,
            group_count: 0,
            is_collapsed: false,
            is_advisory: true,
            advisory_rationale: Some(
                match r.advisory_rationale {
                    Some(s) => s@,
                    None => Seq::empty(),
                },
            ),
        }
    } else {
        ListItemView {
            name: r.name@,
            detail: r.detail@,
            group: g,
            included: r.included,
            index: idx,
            item_id: r.item_id,
            has_content: r.has_content,
            locked: r.locked,
            lock_reason: opt_chars(r.lock_reason),
            is_group_header: false,
            group_count: 0,
            is_collapsed: false,
            is_advisory: false,
            advisory_rationale: None,
        }
    }
}

/// The raw items of group `g`, in their original order.
pub open spec fn members(items: Seq<RawItem>, g: TriageGroup) -> Seq<RawItem>
    decreases items.len(),
{
    if items.len() == 0 {
        Seq::empty()
    } else {
        members(items.drop_last(), g) + (if items.last().group == g { seq![items.last()] } else { Seq::empty() })
    }
}

/// The rows of `ms`, numbered within the group.
pub open spec fn member_rows(ms: Seq<RawItem>, g: TriageGroup, n: nat) -> Seq<ListItemView>
    decreases n,
{
    if n == 0 {
        Seq::empty()
    } else {
        member_rows(ms, g, (n - 1) as nat).push(item_view(ms[n - 1], g, (n - 1) as nat))
    }
}

/// Rows of one bucket: nothing for an empty group; otherwise the header
/// and, unless the group is collapsed, its items.
pub open spec fn bucket_rows(items: Seq<RawItem>, g: TriageGroup, collapsed: bool) -> Seq<ListItemView> {
    let ms = members(items, g);
    if ms.len() == 0 {
        Seq::empty()
    } else {
        seq![header_view(g, ms.len(), collapsed)] + (if collapsed { Seq::empty() } else { member_rows(ms, g, ms.len()) })
    }
}

/// The grouped list: Investigate, Site, then Baseline; a group is
/// collapsed when (active section, bucket index) is in `collapsed`.
pub open spec fn grouped_spec(items: Seq<RawItem>, collapsed: Set<(usize, usize)>, active: usize) -> Seq<ListItemView> {
    bucket_rows(items, TriageGroup::Investigate, collapsed.contains((active, 0usize)))
        + bucket_rows(items, TriageGroup::Site, collapsed.contains((active, 1usize)))
        + bucket_rows(items, TriageGroup::Baseline, collapsed.contains((active, 2usize)))
}

fn clone_opt(o: &Option<String>) -> (r: Option<String>)
    ensures
        opt_chars(r) == opt_chars(*o),
{
    match o {
        Some(s) => Some(s.as_str().to_owned()),
        None => None,
    }
}

fn clone_id(o: &Option<ItemId>) -> (r: Option<ItemId>)
    ensures
        r == *o,
{
    match o {
        Some(id) => Some(copy_id(id)),
        None => None,
    }
}

/// A copy of an item id, field by field.
pub fn copy_id(id: &ItemId) -> (r: ItemId)
    ensures
        r == *id,
{
    let r = match id {
        ItemId::Package { name, arch } => ItemId::Package { name: name.clone(), arch: arch.clone() },
        ItemId::Repo { path } => ItemId::Repo { path: path.clone() },
        ItemId::ModuleStream { module_stream } => ItemId::ModuleStream { module_stream: module_stream.clone() },
        ItemId::VersionLock { name_arch } => ItemId::VersionLock { name_arch: name_arch.clone() },
        ItemId::Config { path } => ItemId::Config { path: path.clone() },
        ItemId::Service { unit } => ItemId::Service { unit: unit.clone() },
        ItemId::DropIn { path } => ItemId::DropIn { path: path.clone() },
        ItemId::Quadlet { path } => ItemId::Quadlet { path: path.clone() },
        ItemId::Compose { path } => ItemId::Compose { path: path.clone() },
        ItemId::Flatpak { app_id, remote, branch } => ItemId::Flatpak { app_id: app_id.clone(), remote: remote.clone(), branch: branch.clone() },
        ItemId::NMConnection { path } => ItemId::NMConnection { path: path.clone() },
        ItemId::FirewallZone { path } => ItemId::FirewallZone { path: path.clone() },
        ItemId::KernelModule { name } => ItemId::KernelModule { name: name.clone() },
        ItemId::Sysctl { key } => ItemId::Sysctl { key: key.clone() },
        ItemId::TunedSelection { profile } => ItemId::TunedSelection { profile: profile.clone() },
        ItemId::CronJob { path } => ItemId::CronJob { path: path.clone() },
        ItemId::SystemdTimer { name } => ItemId::SystemdTimer { name: name.clone() },
        ItemId::AtJob { file } => ItemId::AtJob { file: file.clone() },
        ItemId::GeneratedTimer { name } => ItemId::GeneratedTimer { name: name.clone() },
        ItemId::SelinuxPort { protocol_port } => ItemId::SelinuxPort { protocol_port: protocol_port.clone() },
        ItemId::Fstab { mount_point } => ItemId::Fstab { mount_point: mount_point.clone() },
        ItemId::NonRpm { name } => ItemId::NonRpm { name: name.clone() },
        ItemId::LanguageEnv { ecosystem, path } => ItemId::LanguageEnv { ecosystem: ecosystem.clone(), path: path.clone() },
        ItemId::UnmanagedFile { path } => ItemId::UnmanagedFile { path: path.clone() },
    };
    r
}

fn make_row(r: &RawItem, g: TriageGroup, idx: usize) -> (li: ListItem)
    ensures
        list_item_view(li) == item_view(*r, g, idx as nat),
{
    if r.is_advisory {
        let rationale = match &r.advisory_rationale {
            Some(s) => s.as_str().to_owned(),
            None => String::new(),
        };
        ListItem {
            name: r.name.as_str().to_owned(),
            detail: r.detail.as_str().to_owned(),
            group: g,
            included: None,
            index: idx,
            item_id: None,
            has_content: false,
            locked: false,
            lock_reason: None,
            is_group_header: false,
            group_count: 0,
            is_collapsed: false,
            is_advisory: true,
            advisory_rationale: Some(rationale),
        }
    } else {
        ListItem {
            name: r.name.as_str().to_owned(),
            detail: r.detail.as_str().to_owned(),
            group: g,
            included: r.included,
            index: idx,
            item_id: clone_id(&r.item_id),
            has_content: r.has_content,
            locked: r.locked,
            lock_reason: clone_opt(&r.lock_reason),
            is_group_header: false,
            group_count: 0,
            is_collapsed: false,
            is_advisory: false,
            advisory_rationale: None,
        }
    }
}

fn push_bucket(items: &[RawItem], g: TriageGroup, collapsed: bool, out: &mut Vec<ListItem>)
    ensures
        list_view(final(out)@) == list_view(old(out)@) + bucket_rows(items@, g, collapsed),
{
    let ghost start = list_view(out@);
    let mut ms: Vec<&RawItem> = Vec::new();
    let mut i: usize = 0;
    while i < items.len()
        invariant
            0 <= i <= items@.len(),
            ms@.map_values(|r: &RawItem| *r) == members(items@.take(i as int), g),
        decreases items@.len() - i,
    {
        assert(items@.take(i + 1).drop_last() =~= items@.take(i as int));
        if items[i].group == g {
            ms.push(&items[i]);
        }
        assert(ms@.map_values(|r: &RawItem| *r) =~= members(items@.take(i + 1), g));
        i = i + 1;
    }
    assert(items@.take(items@.len() as int) =~= items@);
    let ghost mv = ms@.map_values(|r: &RawItem| *r);
    if ms.len() == 0 {
        assert(list_view(out@) =~= start + bucket_rows(items@, g, collapsed));
        return;
    }
    let header = ListItem {
        name: String::new(),
        detail: String::new(),
        group: g,
        included: None,
        index: 0,
        item_id: None,
        has_content: false,
        locked: false,
        lock_reason: None,
        is_group_header: true,
        group_count: ms.len(),
        is_collapsed: collapsed,
        is_advisory: false,
        advisory_rationale: None,
    };
    out.push(header);
    assert(list_item_view(header) == header_view(g, mv.len(), collapsed));
    assert(list_view(out@) =~= start.push(header_view(g, mv.len(), collapsed)));
    let ghost head = list_view(out@);
    if collapsed {
        assert(list_view(out@) =~= start + bucket_rows(items@, g, collapsed));
        return;
    }
    let mut k: usize = 0;
    while k < ms.len()
        invariant
            0 <= k <= ms@.len(),
            mv == ms@.map_values(|r: &RawItem| *r),
            list_view(out@) == head + member_rows(mv, g, k as nat),
        decreases ms@.len() - k,
    {
        let li = make_row(ms[k], g, k);
        let ghost before = list_view(out@);
        out.push(li);
        assert(list_view(out@) =~= before.push(list_item_view(li)));
        assert(mv[k as int] == *ms@[k as int]);
        k = k + 1;
    }
    assert(list_view(out@) =~= start + bucket_rows(items@, g, collapsed));
}

/// Group raw items by triage bucket (Investigate, Site, Baseline) under
/// collapsible headers; a collapsed group shows its header only.
pub fn build_grouped_items(items: &[RawItem], state: &TuiState) -> (v: Vec<ListItem>)
    ensures
        list_view(v@) == grouped_spec(items@, state.collapsed_groups@, state.active_section),
{
    let mut v: Vec<ListItem> = Vec::new();
    let a = state.active_section;
    let c0 = state.collapsed_groups.contains(&(a, group_to_bucket_index(TriageGroup::Investigate)));
    push_bucket(items, TriageGroup::Investigate, c0, &mut v);
    let c1 = state.collapsed_groups.contains(&(a, group_to_bucket_index(TriageGroup::Site)));
    push_bucket(items, TriageGroup::Site, c1, &mut v);
    let c2 = state.collapsed_groups.contains(&(a, group_to_bucket_index(TriageGroup::Baseline)));
    push_bucket(items, TriageGroup::Baseline, c2, &mut v);
    assert(list_view(v@) =~= grouped_spec(items@, state.collapsed_groups@, state.active_section));
    v
}

} // verus!
