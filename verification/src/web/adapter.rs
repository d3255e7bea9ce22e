//! Projections of the session's reference data into the web view's
//! read-only sections: one adapter per section, and the orchestrator that
//! builds all of them in their canonical order.

use vstd::prelude::*;

use crate::text::{join_seq, push_str, string_views};
use crate::web::web_types::{item_view, items_view, plain_section, reference_section, ContextItem, ContextItemView, ReferenceSection};

verus! {

pub open spec fn some(s: Seq<char>) -> Option<Seq<char>> {
    Some(s)
}

/// Appends `f(x)` for each `x` of `src`, where `f`'s contract fixes the
/// item it builds.
pub fn push_mapped<T>(out: &mut Vec<ContextItem>, src: &Vec<T>, f: impl Fn(&T) -> ContextItem, Ghost(sp): Ghost<spec_fn(T) -> ContextItemView>)
    requires
        forall|t: &T| f.requires((t,)),
        forall|t: &T, r: ContextItem| f.ensures((t,), r) ==> item_view(r) == sp(*t),
    ensures
        items_view(final(out)@) == items_view(old(out)@) + src@.map_values(sp),
{
    let ghost start = items_view(out@);
    let mut i: usize = 0;
    while i < src.len()
        invariant
            0 <= i <= src@.len(),
            forall|t: &T| f.requires((t,)),
            forall|t: &T, r: ContextItem| f.ensures((t,), r) ==> item_view(r) == sp(*t),
            items_view(out@) == start + src@.map_values(sp).take(i as int),
        decreases src@.len() - i,
    {
        let r = f(&src[i]);
        let ghost before = out@;
        out.push(r);
        assert(items_view(out@) =~= items_view(before).push(item_view(r)));
        assert(src@.map_values(sp).take(i + 1) =~= src@.map_values(sp).take(i as int).push(sp(src@[i as int])));
        i = i + 1;
    }
    assert(src@.map_values(sp).take(src@.len() as int) =~= src@.map_values(sp));
}

fn s(x: &str) -> (r: String)
    ensures
        r@ == x@,
{
    x.to_owned()
}

fn cat2(a: &str, b: &str) -> (r: String)
    ensures
        r@ == a@ + b@,
{
    let mut r = s(a);
    push_str(&mut r, b);
    r
}

fn cat3(a: &str, b: &str, c: &str) -> (r: String)
    ensures
        r@ == a@ + b@ + c@,
{
    let mut r = cat2(a, b);
    push_str(&mut r, c);
    r
}

fn cat4(a: &str, b: &str, c: &str, d: &str) -> (r: String)
    ensures
        r@ == a@ + b@ + c@ + d@,
{
    let mut r = cat3(a, b, c);
    push_str(&mut r, d);
    r
}

fn cat5(a: &str, b: &str, c: &str, d: &str, e: &str) -> (r: String)
    ensures
        r@ == a@ + b@ + c@ + d@ + e@,
{
    let mut r = cat4(a, b, c, d);
    push_str(&mut r, e);
    r
}

fn is_empty_str(x: &str) -> (b: bool)
    ensures
        b == (x@.len() == 0),
{
    let n = crate::pull_progress::byte_length(x);
    proof { crate::pull_progress::lemma_byte_len_bounds(x@); }
    n == 0
}

// ---- version changes ----

/// An epoch: empty means `0`.
pub open spec fn norm_epoch(e: Seq<char>) -> Seq<char> {
    if e.len() == 0 { "0"@ } else { e }
}

/// Epochs are shown only when they differ (an empty epoch counting as `0`).
pub open spec fn show_epoch(base_epoch: Seq<char>, host_epoch: Seq<char>) -> bool {
    norm_epoch(base_epoch) != norm_epoch(host_epoch)
}

pub open spec fn evr(show: bool, epoch: Seq<char>, version: Seq<char>) -> Seq<char> {
    if show { norm_epoch(epoch) + ":"@ + version } else { version }
}

/// Format a (base, host) epoch+version pair, showing epochs only when
/// they differ.
pub fn format_evr_pair(base_epoch: &str, base_version: &str, host_epoch: &str, host_version: &str) -> (r: (String, String))
    ensures
        r.0@ == evr(show_epoch(base_epoch@, host_epoch@), base_epoch@, base_version@),
        r.1@ == evr(show_epoch(base_epoch@, host_epoch@), host_epoch@, host_version@),
{
    let base_norm: &str = if is_empty_str(base_epoch) { "0" } else { base_epoch };
    let host_norm: &str = if is_empty_str(host_epoch) { "0" } else { host_epoch };
    let show = !crate::text::str_eq(base_norm, host_norm);
    if show {
        (cat3(base_norm, ":", base_version), cat3(host_norm, ":", host_version))
    } else {
        (s(base_version), s(host_version))
    }
}

/// Direction of a version change.
#[derive(Debug, Clone, Copy, PartialEq, Eq, Structural)]
pub enum VersionChangeDirection {
    Upgrade,
    Downgrade,
}

/// A package whose version differs between host and base image.
pub struct VersionChange {
    pub name: String,
    pub arch: String,
    pub host_version: String,
    pub base_version: String,
    pub host_epoch: String,
    pub base_epoch: String,
    pub direction: VersionChangeDirection,
}

/// Why a reference section is empty.
#[derive(Debug, Clone, Copy, PartialEq, Eq, Structural)]
pub enum EmptyReason {
    DataUnavailable,
    ZeroDrift,
}

/// Version changes of the reference projection.
pub struct RefVersionChanges {
    pub downgrades: Vec<VersionChange>,
    pub upgrades: Vec<VersionChange>,
    pub empty_reason: Option<EmptyReason>,
}

pub open spec fn direction_label(d: VersionChangeDirection) -> Seq<char> {
    match d {
        VersionChangeDirection::Downgrade => "downgrade"@,
        VersionChangeDirection::Upgrade => "upgrade"@,
    }
}

/// A version change item: `▼ ` marks downgrades; the subtitle reads
/// host → base.
pub open spec fn version_change_item(vc: VersionChange) -> ContextItemView {
    let show = show_epoch(vc.base_epoch@, vc.host_epoch@);
    let base = evr(show, vc.base_epoch@, vc.base_version@);
    let host = evr(show, vc.host_epoch@, vc.host_version@);
    let prefix = if vc.direction == VersionChangeDirection::Downgrade { "\u{25BC} "@ } else { Seq::empty() };
    ContextItemView {
        id: vc.name@ + "."@ + vc.arch@,
        title: prefix + vc.name@ + "."@ + vc.arch@,
        subtitle: some(host + " \u{2192} "@ + base + " ("@ + direction_label(vc.direction) + ")"@),
        detail: None,
        searchable_text: vc.name@ + " "@ + vc.arch@ + " "@ + direction_label(vc.direction),
    }
}

fn version_change_item_exec(vc: &VersionChange) -> (r: ContextItem)
    ensures
        item_view(r) == version_change_item(*vc),
{
    let (base, host) = format_evr_pair(vc.base_epoch.as_str(), vc.base_version.as_str(), vc.host_epoch.as_str(), vc.host_version.as_str());
    let dir: &str = match vc.direction {
        VersionChangeDirection::Downgrade => "downgrade",
        VersionChangeDirection::Upgrade => "upgrade",
    };
    let prefix: &str = match vc.direction {
        VersionChangeDirection::Downgrade => "\u{25BC} ",
        VersionChangeDirection::Upgrade => "",
    };
    proof { reveal_strlit(""); }
    let r = ContextItem {
        id: cat3(vc.name.as_str(), ".", vc.arch.as_str()),
        title: cat4(prefix, vc.name.as_str(), ".", vc.arch.as_str()),
        subtitle: Some(cat5(host.as_str(), " \u{2192} ", base.as_str(), " (", cat2(dir, ")").as_str())),
        detail: None,
        searchable_text: cat5(vc.name.as_str(), " ", vc.arch.as_str(), " ", dir),
    };
    assert(item_view(r) =~= version_change_item(*vc));
    r
}

pub open spec fn empty_reason_text(r: EmptyReason) -> Seq<char> {
    match r {
        EmptyReason::DataUnavailable => "data_unavailable"@,
        EmptyReason::ZeroDrift => "zero_drift"@,
    }
}

/// The version changes section: downgrades then upgrades; when there are
/// none, no items and the reason why (if known).
pub open spec fn version_changes_ok(s: ReferenceSection, d: RefVersionChanges) -> bool {
    &&& s.id@ == "version_changes"@
    &&& s.display_name@ == "Version Changes"@
    &&& s.subsections@.len() == 0
    &&& !s.has_ifcfg
    &&& s.ifcfg_note is None
    &&& if d.downgrades@.len() == 0 && d.upgrades@.len() == 0 {
        &&& s.items@.len() == 0
        &&& match d.empty_reason {
            Some(r) => s.empty_reason matches Some(t) && t@ == empty_reason_text(r),
            None => s.empty_reason is None,
        }
    } else {
        &&& items_view(s.items@) == (d.downgrades@ + d.upgrades@).map_values(|vc: VersionChange| version_change_item(vc))
        &&& s.empty_reason is None
    }
}

pub fn web_version_changes_section(data: &RefVersionChanges) -> (sec: ReferenceSection)
    ensures
        version_changes_ok(sec, *data),
{
    if data.downgrades.len() == 0 && data.upgrades.len() == 0 {
        let reason = match data.empty_reason {
            Some(EmptyReason::DataUnavailable) => Some(s("data_unavailable")),
            Some(EmptyReason::ZeroDrift) => Some(s("zero_drift")),
            None => None,
        };
        return ReferenceSection {
            id: s("version_changes"),
            display_name: s("Version Changes"),
            items: Vec::new(),
            subsections: Vec::new(),
            empty_reason: reason,
            has_ifcfg: false,
            ifcfg_note: None,
        };
    }
    let mut items: Vec<ContextItem> = Vec::new();
    push_mapped(&mut items, &data.downgrades, version_change_item_exec, Ghost(|vc: VersionChange| version_change_item(vc)));
    push_mapped(&mut items, &data.upgrades, version_change_item_exec, Ghost(|vc: VersionChange| version_change_item(vc)));
    assert(items_view(items@) =~= (data.downgrades@ + data.upgrades@).map_values(|vc: VersionChange| version_change_item(vc)));
    ReferenceSection {
        id: s("version_changes"),
        display_name: s("Version Changes"),
        items,
        subsections: Vec::new(),
        empty_reason: None,
        has_ifcfg: false,
        ifcfg_note: None,
    }
}

// ---- generic sections ----

/// An item of a generic reference section.
pub struct GenericRefItem {
    pub id: String,
    pub key: String,
    pub summary: Option<String>,
    pub content: Option<String>,
    pub tags: Vec<String>,
}

pub open spec fn opt_chars(o: Option<String>) -> Option<Seq<char>> {
    match o {
        Some(x) => Some(x@),
        None => None,
    }
}

/// Search text: the key, then summary, content and tags (space-separated)
/// when present.
pub open spec fn generic_search(it: GenericRefItem) -> Seq<char> {
    it.key@ + (match it.summary { Some(x) => " "@ + x@, None => Seq::empty() })
        + (match it.content { Some(x) => " "@ + x@, None => Seq::empty() })
        + (if it.tags@.len() > 0 { " "@ + join_seq(string_views(it.tags@), " "@) } else { Seq::empty() })
}

pub open spec fn generic_item(it: GenericRefItem) -> ContextItemView {
    ContextItemView {
        id: it.id@,
        title: it.key@,
        subtitle: opt_chars(it.summary),
        detail: opt_chars(it.content),
        searchable_text: generic_search(it),
    }
}

fn clone_opt(o: &Option<String>) -> (r: Option<String>)
    ensures
        opt_chars(r) == opt_chars(*o),
{
    match o {
        Some(x) => Some(s(x.as_str())),
        None => None,
    }
}

fn generic_item_exec(it: &GenericRefItem) -> (r: ContextItem)
    ensures
        item_view(r) == generic_item(*it),
{
    let mut search = s(it.key.as_str());
    if let Some(x) = &it.summary {
        push_str(&mut search, " ");
        push_str(&mut search, x.as_str());
    }
    if let Some(x) = &it.content {
        push_str(&mut search, " ");
        push_str(&mut search, x.as_str());
    }
    if it.tags.len() > 0 {
        push_str(&mut search, " ");
        let j = crate::text::join_strings(&it.tags, " ");
        push_str(&mut search, j.as_str());
    }
    let r = ContextItem {
        id: s(it.id.as_str()),
        title: s(it.key.as_str()),
        subtitle: clone_opt(&it.summary),
        detail: clone_opt(&it.content),
        searchable_text: search,
    };
    assert(item_view(r) =~= generic_item(*it));
    r
}

/// A generic reference section (scheduled tasks, non-RPM software,
/// SELinux): one item per entry.
pub fn web_generic_section(id: &str, display_name: &str, items: &Vec<GenericRefItem>) -> (sec: ReferenceSection)
    ensures
        sec.id@ == id@,
        sec.display_name@ == display_name@,
        items_view(sec.items@) == items@.map_values(|it: GenericRefItem| generic_item(it)),
        sec.subsections@.len() == 0,
        sec.empty_reason is None,
        !sec.has_ifcfg,
        sec.ifcfg_note is None,
{
    let mut out: Vec<ContextItem> = Vec::new();
    push_mapped(&mut out, items, generic_item_exec, Ghost(|it: GenericRefItem| generic_item(it)));
    assert(items_view(out@) =~= items@.map_values(|it: GenericRefItem| generic_item(it)));
    reference_section(id, display_name, out)
}

} // verus!

verus! {

// ---- storage ----

pub struct FstabEntry {
    pub device: String,
    pub mount_point: String,
    pub fstype: String,
    pub options: String,
    pub locked: bool,
    pub attention_reason: Option<String>,
}

pub struct MountPoint {
    pub target: String,
    pub source: String,
    pub fstype: String,
    pub options: String,
}

pub struct LvmVolume {
    pub vg_name: String,
    pub lv_name: String,
    pub lv_size: String,
}

pub struct VarDirectory {
    pub path: String,
    pub size_estimate: String,
    pub recommendation: String,
}

pub struct CredentialRef {
    pub credential_path: String,
    pub mount_point: String,
    pub source: String,
}

/// Storage data of the reference projection.
pub struct RefStorage {
    pub fstab_entries: Vec<FstabEntry>,
    pub mount_points: Vec<MountPoint>,
    pub lvm_volumes: Vec<LvmVolume>,
    pub var_directories: Vec<VarDirectory>,
    pub credential_refs: Vec<CredentialRef>,
    /// `/var` paths with no declarative backing.
    pub unbacked_var_paths: Vec<String>,
}

pub open spec fn fstab_item(e: FstabEntry) -> ContextItemView {
    ContextItemView {
        id: e.mount_point@,
        title: e.mount_point@,
        subtitle: some(e.device@ + " ("@ + e.fstype@ + ")"@),
        detail: some(match e.attention_reason {
            Some(r) => e.options@ + " ["@ + r@ + "]"@,
            None => e.options@,
        }),
        searchable_text: e.device@ + " "@ + e.mount_point@ + " "@ + e.fstype@ + " "@ + e.options@,
    }
}

fn fstab_item_exec(e: &FstabEntry) -> (r: ContextItem)
    ensures
        item_view(r) == fstab_item(*e),
{
    let detail = match &e.attention_reason {
        Some(reason) => cat4(e.options.as_str(), " [", reason.as_str(), "]"),
        None => s(e.options.as_str()),
    };
    let mut search = cat5(e.device.as_str(), " ", e.mount_point.as_str(), " ", e.fstype.as_str());
    push_str(&mut search, " ");
    push_str(&mut search, e.options.as_str());
    let r = ContextItem {
        id: s(e.mount_point.as_str()),
        title: s(e.mount_point.as_str()),
        subtitle: Some(cat4(e.device.as_str(), " (", e.fstype.as_str(), ")")),
        detail: Some(detail),
        searchable_text: search,
    };
    assert(item_view(r) =~= fstab_item(*e));
    r
}

pub open spec fn mount_item(m: MountPoint) -> ContextItemView {
    ContextItemView {
        id: m.target@,
        title: m.target@,
        subtitle: some(m.source@ + " ("@ + m.fstype@ + ")"@),
        detail: some(m.options@),
        searchable_text: m.target@ + " "@ + m.source@ + " "@ + m.fstype@,
    }
}

fn mount_item_exec(m: &MountPoint) -> (r: ContextItem)
    ensures
        item_view(r) == mount_item(*m),
{
    let r = ContextItem {
        id: s(m.target.as_str()),
        title: s(m.target.as_str()),
        subtitle: Some(cat4(m.source.as_str(), " (", m.fstype.as_str(), ")")),
        detail: Some(s(m.options.as_str())),
        searchable_text: cat5(m.target.as_str(), " ", m.source.as_str(), " ", m.fstype.as_str()),
    };
    assert(item_view(r) =~= mount_item(*m));
    r
}

pub open spec fn lvm_item(l: LvmVolume) -> ContextItemView {
    ContextItemView {
        id: l.vg_name@ + "/"@ + l.lv_name@,
        title: l.lv_name@,
        subtitle: some("VG: "@ + l.vg_name@ + ", size: "@ + l.lv_size@),
        detail: None,
        searchable_text: l.lv_name@ + " "@ + l.vg_name@ + " "@ + l.lv_size@,
    }
}

fn lvm_item_exec(l: &LvmVolume) -> (r: ContextItem)
    ensures
        item_view(r) == lvm_item(*l),
{
    let r = ContextItem {
        id: cat3(l.vg_name.as_str(), "/", l.lv_name.as_str()),
        title: s(l.lv_name.as_str()),
        subtitle: Some(cat4("VG: ", l.vg_name.as_str(), ", size: ", l.lv_size.as_str())),
        detail: None,
        searchable_text: cat5(l.lv_name.as_str(), " ", l.vg_name.as_str(), " ", l.lv_size.as_str()),
    };
    assert(item_view(r) =~= lvm_item(*l));
    r
}

pub open spec fn var_dir_item(v: VarDirectory) -> ContextItemView {
    ContextItemView {
        id: v.path@,
        title: v.path@,
        subtitle: some("~"@ + v.size_estimate@),
        detail: some(v.recommendation@),
        searchable_text: v.path@ + " "@ + v.size_estimate@ + " "@ + v.recommendation@,
    }
}

fn var_dir_item_exec(v: &VarDirectory) -> (r: ContextItem)
    ensures
        item_view(r) == var_dir_item(*v),
{
    let r = ContextItem {
        id: s(v.path.as_str()),
        title: s(v.path.as_str()),
        subtitle: Some(cat2("~", v.size_estimate.as_str())),
        detail: Some(s(v.recommendation.as_str())),
        searchable_text: cat5(v.path.as_str(), " ", v.size_estimate.as_str(), " ", v.recommendation.as_str()),
    };
    assert(item_view(r) =~= var_dir_item(*v));
    r
}

pub open spec fn credential_item(c: CredentialRef) -> ContextItemView {
    ContextItemView {
        id: c.credential_path@,
        title: c.credential_path@,
        subtitle: some("mount: "@ + c.mount_point@),
        detail: some(c.source@),
        searchable_text: c.credential_path@ + " "@ + c.mount_point@ + " "@ + c.source@,
    }
}

fn credential_item_exec(c: &CredentialRef) -> (r: ContextItem)
    ensures
        item_view(r) == credential_item(*c),
{
    let r = ContextItem {
        id: s(c.credential_path.as_str()),
        title: s(c.credential_path.as_str()),
        subtitle: Some(cat2("mount: ", c.mount_point.as_str())),
        detail: Some(s(c.source.as_str())),
        searchable_text: cat5(c.credential_path.as_str(), " ", c.mount_point.as_str(), " ", c.source.as_str()),
    };
    assert(item_view(r) =~= credential_item(*c));
    r
}

/// The storage items: fstab entries, mount points, LVM volumes, /var
/// directories, credential references, in that order.
pub open spec fn storage_items(d: RefStorage) -> Seq<ContextItemView> {
    d.fstab_entries@.map_values(|e: FstabEntry| fstab_item(e))
        + d.mount_points@.map_values(|m: MountPoint| mount_item(m))
        + d.lvm_volumes@.map_values(|l: LvmVolume| lvm_item(l))
        + d.var_directories@.map_values(|v: VarDirectory| var_dir_item(v))
        + d.credential_refs@.map_values(|c: CredentialRef| credential_item(c))
}

pub fn web_storage_section(data: &RefStorage) -> (sec: ReferenceSection)
    ensures
        sec.id@ == "storage"@,
        sec.display_name@ == "Storage"@,
        items_view(sec.items@) == storage_items(*data),
        sec.subsections@.len() == 0,
        sec.empty_reason is None,
        !sec.has_ifcfg,
        sec.ifcfg_note is None,
{
    let mut items: Vec<ContextItem> = Vec::new();
    let ghost e0 = items_view(items@);
    push_mapped(&mut items, &data.fstab_entries, fstab_item_exec, Ghost(|e: FstabEntry| fstab_item(e)));
    push_mapped(&mut items, &data.mount_points, mount_item_exec, Ghost(|m: MountPoint| mount_item(m)));
    push_mapped(&mut items, &data.lvm_volumes, lvm_item_exec, Ghost(|l: LvmVolume| lvm_item(l)));
    push_mapped(&mut items, &data.var_directories, var_dir_item_exec, Ghost(|v: VarDirectory| var_dir_item(v)));
    push_mapped(&mut items, &data.credential_refs, credential_item_exec, Ghost(|c: CredentialRef| credential_item(c)));
    assert(items_view(items@) =~= storage_items(*data));
    reference_section("storage", "Storage", items)
}

} // verus!

verus! {

use crate::web::web_types::{subsections_view, ContextSubsection};

/// A subsection when it has items, nothing otherwise.
pub open spec fn sub_if(id: Seq<char>, name: Seq<char>, items: Seq<ContextItemView>) -> Seq<(Seq<char>, Seq<char>, Seq<ContextItemView>)> {
    if items.len() > 0 { seq![(id, name, items)] } else { Seq::empty() }
}

fn push_sub_if(subs: &mut Vec<ContextSubsection>, id: &str, name: &str, items: Vec<ContextItem>)
    ensures
        subsections_view(final(subs)@) == subsections_view(old(subs)@) + sub_if(id@, name@, items_view(items@)),
{
    if items.len() > 0 {
        let sub = ContextSubsection { id: s(id), display_name: s(name), items };
        let ghost before = subs@;
        subs.push(sub);
        assert(subsections_view(subs@) =~= subsections_view(before) + sub_if(id@, name@, items_view(items@)));
    } else {
        assert(subsections_view(subs@) =~= subsections_view(old(subs)@) + sub_if(id@, name@, items_view(items@)));
    }
}

/// A section made only of subsections.
pub open spec fn subsection_section(sec: ReferenceSection, id: Seq<char>, name: Seq<char>, subs: Seq<(Seq<char>, Seq<char>, Seq<ContextItemView>)>) -> bool {
    &&& sec.id@ == id
    &&& sec.display_name@ == name
    &&& sec.items@.len() == 0
    &&& subsections_view(sec.subsections@) == subs
    &&& sec.empty_reason is None
    &&& !sec.has_ifcfg
    &&& sec.ifcfg_note is None
}

// ---- network ----

pub struct NetConnection {
    pub name: String,
    pub conn_type: String,
    pub method: String,
    pub path: String,
}

pub struct FirewallZone {
    pub name: String,
    pub path: String,
    pub services: Vec<String>,
    pub ports: Vec<String>,
    pub rich_rules: Vec<String>,
    pub content: String,
}

pub struct DirectRule {
    pub ipv: String,
    pub table: String,
    pub chain: String,
    pub priority: String,
    pub args: String,
}

pub struct StaticRoute {
    pub path: String,
    pub name: String,
}

pub struct ProxyEntry {
    pub source: String,
    pub line: String,
}

/// Network data of the reference projection.
pub struct RefNetwork {
    pub connections: Vec<NetConnection>,
    pub firewall_zones: Vec<FirewallZone>,
    pub firewall_direct_rules: Vec<DirectRule>,
    pub static_routes: Vec<StaticRoute>,
    pub ip_routes: Vec<String>,
    pub ip_rules: Vec<String>,
    pub resolv_provenance: String,
    pub hosts_additions: Vec<String>,
    pub proxy_env: Vec<ProxyEntry>,
}

pub open spec fn connection_item(c: NetConnection) -> ContextItemView {
    ContextItemView {
        id: c.name@,
        title: c.name@,
        subtitle: some(c.conn_type@ + " ("@ + c.method@ + ")"@),
        detail: None,
        searchable_text: c.name@ + " "@ + c.conn_type@ + " "@ + c.method@ + " "@ + c.path@,
    }
}

fn connection_item_exec(c: &NetConnection) -> (r: ContextItem)
    ensures
        item_view(r) == connection_item(*c),
{
    let mut search = cat5(c.name.as_str(), " ", c.conn_type.as_str(), " ", c.method.as_str());
    push_str(&mut search, " ");
    push_str(&mut search, c.path.as_str());
    let r = ContextItem {
        id: s(c.name.as_str()),
        title: s(c.name.as_str()),
        subtitle: Some(cat4(c.conn_type.as_str(), " (", c.method.as_str(), ")")),
        detail: None,
        searchable_text: search,
    };
    assert(item_view(r) =~= connection_item(*c));
    r
}

/// `services: a, b` and `ports: x, y`, whichever are non-empty, joined by
/// `; `; none when both are empty.
pub open spec fn zone_summary(z: FirewallZone) -> Option<Seq<char>> {
    let parts = (if z.services@.len() > 0 { seq!["services: "@ + join_seq(string_views(z.services@), ", "@)] } else { Seq::empty() })
        + (if z.ports@.len() > 0 { seq!["ports: "@ + join_seq(string_views(z.ports@), ", "@)] } else { Seq::empty() });
    if parts.len() == 0 { None } else { Some(join_seq(parts, "; "@)) }
}

pub open spec fn zone_item(z: FirewallZone) -> ContextItemView {
    ContextItemView {
        id: z.name@,
        title: z.name@,
        subtitle: zone_summary(z),
        detail: some(z.content@),
        searchable_text: z.name@ + " "@ + join_seq(string_views(z.services@), " "@) + " "@ + join_seq(string_views(z.ports@), " "@)
            + " "@ + join_seq(string_views(z.rich_rules@), " "@),
    }
}

fn zone_item_exec(z: &FirewallZone) -> (r: ContextItem)
    ensures
        item_view(r) == zone_item(*z),
{
    let mut parts: Vec<String> = Vec::new();
    if z.services.len() > 0 {
        let j = crate::text::join_strings(&z.services, ", ");
        parts.push(cat2("services: ", j.as_str()));
    }
    if z.ports.len() > 0 {
        let j = crate::text::join_strings(&z.ports, ", ");
        parts.push(cat2("ports: ", j.as_str()));
    }
    let ghost pv = (if z.services@.len() > 0 { seq!["services: "@ + join_seq(string_views(z.services@), ", "@)] } else { Seq::<Seq<char>>::empty() })
        + (if z.ports@.len() > 0 { seq!["ports: "@ + join_seq(string_views(z.ports@), ", "@)] } else { Seq::<Seq<char>>::empty() });
    assert(string_views(parts@) =~= pv);
    let subtitle = if parts.len() == 0 { None } else { Some(crate::text::join_strings(&parts, "; ")) };
    let sv = crate::text::join_strings(&z.services, " ");
    let pr = crate::text::join_strings(&z.ports, " ");
    let rr = crate::text::join_strings(&z.rich_rules, " ");
    let mut search = cat5(z.name.as_str(), " ", sv.as_str(), " ", pr.as_str());
    push_str(&mut search, " ");
    push_str(&mut search, rr.as_str());
    let r = ContextItem {
        id: s(z.name.as_str()),
        title: s(z.name.as_str()),
        subtitle,
        detail: Some(s(z.content.as_str())),
        searchable_text: search,
    };
    assert(item_view(r) =~= zone_item(*z));
    r
}

pub open spec fn direct_rule_item(d: DirectRule) -> ContextItemView {
    ContextItemView {
        id: d.ipv@ + ":"@ + d.chain@ + ":"@ + d.priority@,
        title: d.chain@,
        subtitle: some(d.ipv@ + " "@ + d.table@),
        detail: some(d.args@),
        searchable_text: d.ipv@ + " "@ + d.table@ + " "@ + d.chain@ + " "@ + d.priority@ + " "@ + d.args@,
    }
}

fn direct_rule_item_exec(d: &DirectRule) -> (r: ContextItem)
    ensures
        item_view(r) == direct_rule_item(*d),
{
    let mut search = cat5(d.ipv.as_str(), " ", d.table.as_str(), " ", d.chain.as_str());
    push_str(&mut search, " ");
    push_str(&mut search, d.priority.as_str());
    push_str(&mut search, " ");
    push_str(&mut search, d.args.as_str());
    let r = ContextItem {
        id: cat5(d.ipv.as_str(), ":", d.chain.as_str(), ":", d.priority.as_str()),
        title: s(d.chain.as_str()),
        subtitle: Some(cat3(d.ipv.as_str(), " ", d.table.as_str())),
        detail: Some(s(d.args.as_str())),
        searchable_text: search,
    };
    assert(item_view(r) =~= direct_rule_item(*d));
    r
}

pub open spec fn static_route_item(sr: StaticRoute) -> ContextItemView {
    ContextItemView {
        id: sr.path@,
        title: sr.name@,
        subtitle: some(sr.path@),
        detail: None,
        searchable_text: sr.path@ + " "@ + sr.name@,
    }
}

fn static_route_item_exec(sr: &StaticRoute) -> (r: ContextItem)
    ensures
        item_view(r) == static_route_item(*sr),
{
    let r = ContextItem {
        id: s(sr.path.as_str()),
        title: s(sr.name.as_str()),
        subtitle: Some(s(sr.path.as_str())),
        detail: None,
        searchable_text: cat3(sr.path.as_str(), " ", sr.name.as_str()),
    };
    assert(item_view(r) =~= static_route_item(*sr));
    r
}

/// An item that is just a line of text, labelled.
pub open spec fn line_item(line: Seq<char>, label: Seq<char>) -> ContextItemView {
    ContextItemView { id: line, title: line, subtitle: some(label), detail: None, searchable_text: line }
}

fn push_lines(out: &mut Vec<ContextItem>, lines: &Vec<String>, label: &str)
    ensures
        items_view(final(out)@) == items_view(old(out)@) + string_views(lines@).map_values(|l: Seq<char>| line_item(l, label@)),
{
    let ghost start = items_view(out@);
    let ghost lv = string_views(lines@).map_values(|l: Seq<char>| line_item(l, label@));
    let mut i: usize = 0;
    while i < lines.len()
        invariant
            0 <= i <= lines@.len(),
            lv == string_views(lines@).map_values(|l: Seq<char>| line_item(l, label@)),
            items_view(out@) == start + lv.take(i as int),
        decreases lines@.len() - i,
    {
        let l = lines[i].as_str();
        let r = ContextItem { id: s(l), title: s(l), subtitle: Some(s(label)), detail: None, searchable_text: s(l) };
        assert(item_view(r) =~= line_item(l@, label@));
        let ghost before = out@;
        out.push(r);
        assert(items_view(out@) =~= items_view(before).push(item_view(r)));
        assert(lv.take(i + 1) =~= lv.take(i as int).push(lv[i as int]));
        i = i + 1;
    }
    assert(lv.take(lines@.len() as int) =~= lv);
}

pub open spec fn proxy_item(p: ProxyEntry) -> ContextItemView {
    ContextItemView {
        id: p.source@ + ":"@ + p.line@,
        title: p.source@,
        subtitle: some(p.line@),
        detail: None,
        searchable_text: p.source@ + " "@ + p.line@,
    }
}

fn proxy_item_exec(p: &ProxyEntry) -> (r: ContextItem)
    ensures
        item_view(r) == proxy_item(*p),
{
    let r = ContextItem {
        id: cat3(p.source.as_str(), ":", p.line.as_str()),
        title: s(p.source.as_str()),
        subtitle: Some(s(p.line.as_str())),
        detail: None,
        searchable_text: cat3(p.source.as_str(), " ", p.line.as_str()),
    };
    assert(item_view(r) =~= proxy_item(*p));
    r
}

/// The DNS & hosts items: the resolver's provenance when known, then the
/// added hosts lines.
pub open spec fn dns_items(d: RefNetwork) -> Seq<ContextItemView> {
    (if d.resolv_provenance@.len() > 0 {
        seq![ContextItemView {
            id: "resolv_provenance"@,
            title: "DNS resolver"@,
            subtitle: some(d.resolv_provenance@),
            detail: None,
            searchable_text: d.resolv_provenance@,
        }]
    } else {
        Seq::empty()
    }) + string_views(d.hosts_additions@).map_values(|l: Seq<char>| line_item(l, "hosts"@))
}

/// The network subsections, each only when it has items: connections,
/// firewall (zones, then direct rules), routes & rules (static routes,
/// ip routes, ip rules), DNS & hosts, proxy.
pub open spec fn network_subsections(d: RefNetwork) -> Seq<(Seq<char>, Seq<char>, Seq<ContextItemView>)> {
    sub_if("connections"@, "Connections"@, d.connections@.map_values(|c: NetConnection| connection_item(c)))
        + sub_if("firewall"@, "Firewall"@, d.firewall_zones@.map_values(|z: FirewallZone| zone_item(z))
            + d.firewall_direct_rules@.map_values(|r: DirectRule| direct_rule_item(r)))
        + sub_if("routes_rules"@, "Routes & Rules"@, d.static_routes@.map_values(|r: StaticRoute| static_route_item(r))
            + string_views(d.ip_routes@).map_values(|l: Seq<char>| line_item(l, "ip route"@))
            + string_views(d.ip_rules@).map_values(|l: Seq<char>| line_item(l, "ip rule"@)))
        + sub_if("dns_hosts"@, "DNS & Hosts"@, dns_items(d))
        + sub_if("proxy"@, "Proxy"@, d.proxy_env@.map_values(|p: ProxyEntry| proxy_item(p)))
}

pub fn web_network_section(data: &RefNetwork) -> (sec: ReferenceSection)
    ensures
        subsection_section(sec, "network"@, "Network"@, network_subsections(*data)),
{
    let mut subs: Vec<ContextSubsection> = Vec::new();
    assert(subsections_view(subs@) =~= Seq::<(Seq<char>, Seq<char>, Seq<ContextItemView>)>::empty());
    let mut conns: Vec<ContextItem> = Vec::new();
    push_mapped(&mut conns, &data.connections, connection_item_exec, Ghost(|c: NetConnection| connection_item(c)));
    assert(items_view(conns@) =~= data.connections@.map_values(|c: NetConnection| connection_item(c)));
    push_sub_if(&mut subs, "connections", "Connections", conns);
    let mut fw: Vec<ContextItem> = Vec::new();
    push_mapped(&mut fw, &data.firewall_zones, zone_item_exec, Ghost(|z: FirewallZone| zone_item(z)));
    push_mapped(&mut fw, &data.firewall_direct_rules, direct_rule_item_exec, Ghost(|r: DirectRule| direct_rule_item(r)));
    assert(items_view(fw@) =~= data.firewall_zones@.map_values(|z: FirewallZone| zone_item(z))
        + data.firewall_direct_rules@.map_values(|r: DirectRule| direct_rule_item(r)));
    push_sub_if(&mut subs, "firewall", "Firewall", fw);
    let mut rr: Vec<ContextItem> = Vec::new();
    push_mapped(&mut rr, &data.static_routes, static_route_item_exec, Ghost(|r: StaticRoute| static_route_item(r)));
    push_lines(&mut rr, &data.ip_routes, "ip route");
    push_lines(&mut rr, &data.ip_rules, "ip rule");
    assert(items_view(rr@) =~= data.static_routes@.map_values(|r: StaticRoute| static_route_item(r))
        + string_views(data.ip_routes@).map_values(|l: Seq<char>| line_item(l, "ip route"@))
        + string_views(data.ip_rules@).map_values(|l: Seq<char>| line_item(l, "ip rule"@)));
    push_sub_if(&mut subs, "routes_rules", "Routes & Rules", rr);
    let mut dns: Vec<ContextItem> = Vec::new();
    if !is_empty_str(data.resolv_provenance.as_str()) {
        let r = ContextItem {
            id: s("resolv_provenance"),
            title: s("DNS resolver"),
            subtitle: Some(s(data.resolv_provenance.as_str())),
            detail: None,
            searchable_text: s(data.resolv_provenance.as_str()),
        };
        dns.push(r);
    }
    push_lines(&mut dns, &data.hosts_additions, "hosts");
    assert(items_view(dns@) =~= dns_items(*data));
    push_sub_if(&mut subs, "dns_hosts", "DNS & Hosts", dns);
    let mut px: Vec<ContextItem> = Vec::new();
    push_mapped(&mut px, &data.proxy_env, proxy_item_exec, Ghost(|p: ProxyEntry| proxy_item(p)));
    assert(items_view(px@) =~= data.proxy_env@.map_values(|p: ProxyEntry| proxy_item(p)));
    push_sub_if(&mut subs, "proxy", "Proxy", px);
    assert(subsections_view(subs@) =~= network_subsections(*data));
    ReferenceSection {
        id: s("network"),
        display_name: s("Network"),
        items: Vec::new(),
        subsections: subs,
        empty_reason: None,
        has_ifcfg: false,
        ifcfg_note: None,
    }
}

} // verus!

verus! {

// ---- containers ----

pub struct QuadletUnit {
    pub name: String,
    pub image: String,
    pub path: String,
    pub ports: Vec<String>,
    pub volumes: Vec<String>,
    pub content: String,
}

pub struct ComposeService {
    pub service: String,
    pub image: String,
}

pub struct ComposeFile {
    pub path: String,
    pub services: Vec<ComposeService>,
}

pub struct ContainerMount {
    pub mount_type: String,
    pub source: String,
    pub destination: String,
}

pub struct RunningContainer {
    pub id: String,
    pub name: String,
    pub image: String,
    pub status: String,
    pub env: Vec<String>,
    pub mounts: Vec<ContainerMount>,
    pub restart_policy: String,
}

pub struct FlatpakApp {
    pub app_id: String,
    pub origin: String,
    pub branch: String,
    pub remote: String,
    pub remote_url: String,
}

/// Container data of the reference projection.
pub struct RefContainers {
    pub quadlets: Vec<QuadletUnit>,
    pub compose_files: Vec<ComposeFile>,
    pub running_containers: Vec<RunningContainer>,
    pub flatpaks: Vec<FlatpakApp>,
}

/// `" " + parts joined by " "` when there are parts.
pub open spec fn spaced(parts: Seq<String>) -> Seq<char> {
    if parts.len() > 0 { " "@ + join_seq(string_views(parts), " "@) } else { Seq::empty() }
}

fn push_spaced(out: &mut String, parts: &Vec<String>)
    ensures
        final(out)@ == old(out)@ + spaced(parts@),
{
    if parts.len() > 0 {
        push_str(out, " ");
        let j = crate::text::join_strings(parts, " ");
        push_str(out, j.as_str());
    } else {
        assert(out@ =~= old(out)@ + spaced(parts@));
    }
}

pub open spec fn quadlet_item(q: QuadletUnit) -> ContextItemView {
    ContextItemView {
        id: q.name@,
        title: q.name@,
        subtitle: some(q.image@),
        detail: some(q.content@),
        searchable_text: q.name@ + " "@ + q.image@ + " "@ + q.path@ + spaced(q.ports@) + spaced(q.volumes@),
    }
}

fn quadlet_item_exec(q: &QuadletUnit) -> (r: ContextItem)
    ensures
        item_view(r) == quadlet_item(*q),
{
    let mut search = cat5(q.name.as_str(), " ", q.image.as_str(), " ", q.path.as_str());
    push_spaced(&mut search, &q.ports);
    push_spaced(&mut search, &q.volumes);
    let r = ContextItem {
        id: s(q.name.as_str()),
        title: s(q.name.as_str()),
        subtitle: Some(s(q.image.as_str())),
        detail: Some(s(q.content.as_str())),
        searchable_text: search,
    };
    assert(item_view(r) =~= quadlet_item(*q));
    r
}

/// The position of the last `/` before position `j` of `s`, or -1.
pub open spec fn last_slash_before(s: Seq<char>, j: int) -> int
    decreases j,
{
    if j <= 0 {
        -1
    } else if s[j - 1] == '/' {
        j - 1
    } else {
        last_slash_before(s, j - 1)
    }
}

pub proof fn lemma_last_slash_before(s: Seq<char>, j: int)
    ensures
        j > 0 ==> -1 <= last_slash_before(s, j) < j,
    decreases j,
{
    if j > 0 && s[j - 1] != '/' {
        lemma_last_slash_before(s, j - 1);
        assert(last_slash_before(s, j) == last_slash_before(s, j - 1));
        if j - 1 <= 0 {
            assert(last_slash_before(s, j - 1) == -1);
        }
    }
}

/// The last component of the first `j` characters of a Unix path: the
/// last `/`-separated part that is neither empty nor `.` (repeated and
/// trailing separators and `.` parts count for nothing), `None` when there
/// is none.
pub open spec fn last_component_upto(s: Seq<char>, j: int) -> Option<Seq<char>>
    decreases j,
{
    if j <= 0 || j > s.len() {
        None
    } else {
        let k = last_slash_before(s, j);
        proof {
            lemma_last_slash_before(s, j);
        }
        let tail = s.subrange(k + 1, j);
        if tail.len() == 0 || tail == seq!['.'] {
            if k < 0 { None } else { last_component_upto(s, k) }
        } else {
            Some(tail)
        }
    }
}

/// The final component of a Unix path as `std::path::Path::file_name`
/// finds it: the last component, `None` when there is none or it is `..`.
pub open spec fn path_file_name(path: Seq<char>) -> Option<Seq<char>> {
    match last_component_upto(path, path.len() as int) {
        Some(t) => if t == seq!['.', '.'] { None } else { Some(t) },
        None => None,
    }
}

/// Calls `std::path::Path::file_name` on `path` and converts the result to
/// a `String` (without loss: the path came from a `&str`). The contract
/// claims that the result is the last component of the path as a Unix
/// system splits it, `None` for an empty path, a root, or one that ends in
/// `..`.
#[verifier::external_body]
pub(crate) fn file_name_of(path: &str) -> (r: Option<String>)
    ensures
        opt_chars(r) == path_file_name(path@),
{
    match std::path::Path::new(path).file_name() {
        Some(n) => Some(n.to_string_lossy().to_string()),
        None => None,
    }
}

/// The title of a file item: its file name, or the whole path when it
/// has none.
pub open spec fn titled(path: Seq<char>, file_name: Option<Seq<char>>) -> Seq<char> {
    match file_name {
        Some(n) => n,
        None => path,
    }
}

pub open spec fn service_names(cf: ComposeFile) -> Seq<Seq<char>> {
    cf.services@.map_values(|sv: ComposeService| sv.service@)
}

/// The non-empty image references of a compose file, each after a space.
pub open spec fn image_refs(svcs: Seq<ComposeService>) -> Seq<char>
    decreases svcs.len(),
{
    if svcs.len() == 0 {
        Seq::empty()
    } else {
        image_refs(svcs.drop_last()) + (if svcs.last().image@.len() > 0 { " "@ + svcs.last().image@ } else { Seq::empty() })
    }
}

/// A compose file item, titled by the path's file name.
pub open spec fn compose_item(cf: ComposeFile) -> ContextItemView {
    ContextItemView {
        id: cf.path@,
        title: titled(cf.path@, path_file_name(cf.path@)),
        subtitle: some(join_seq(service_names(cf), ", "@)),
        detail: None,
        searchable_text: cf.path@ + " "@ + join_seq(service_names(cf), " "@) + image_refs(cf.services@),
    }
}

fn compose_item_exec(cf: &ComposeFile) -> (r: ContextItem)
    ensures
        item_view(r) == compose_item(*cf),
{
    let fname = file_name_of(cf.path.as_str());
    let title = match fname {
        Some(n) => n,
        None => s(cf.path.as_str()),
    };
    let mut names: Vec<String> = Vec::new();
    let mut images = String::new();
    let mut i: usize = 0;
    while i < cf.services.len()
        invariant
            0 <= i <= cf.services@.len(),
            string_views(names@) == service_names(*cf).take(i as int),
            images@ == image_refs(cf.services@.take(i as int)),
        decreases cf.services@.len() - i,
    {
        let sv = &cf.services[i];
        let ghost before = names@;
        let nm = s(sv.service.as_str());
        names.push(nm);
        assert(string_views(names@) =~= string_views(before).push(nm@));
        assert(service_names(*cf).take(i + 1) =~= service_names(*cf).take(i as int).push(sv.service@));
        assert(string_views(names@) =~= service_names(*cf).take(i + 1));
        assert(cf.services@.take(i + 1).drop_last() =~= cf.services@.take(i as int));
        if !is_empty_str(sv.image.as_str()) {
            push_str(&mut images, " ");
            push_str(&mut images, sv.image.as_str());
        }
        i = i + 1;
    }
    assert(service_names(*cf).take(cf.services@.len() as int) =~= service_names(*cf));
    assert(cf.services@.take(cf.services@.len() as int) =~= cf.services@);
    let subtitle = crate::text::join_strings(&names, ", ");
    let joined = crate::text::join_strings(&names, " ");
    let mut search = cat3(cf.path.as_str(), " ", joined.as_str());
    push_str(&mut search, images.as_str());
    let r = ContextItem {
        id: s(cf.path.as_str()),
        title,
        subtitle: Some(subtitle),
        detail: None,
        searchable_text: search,
    };
    assert(item_view(r) =~= compose_item(*cf));
    r
}

pub open spec fn mount_text(m: ContainerMount) -> Seq<char> {
    m.mount_type@ + " "@ + m.source@ + ":"@ + m.destination@
}

/// `env: a, b` and `mounts: t s:d; ...`, whichever are non-empty, on
/// separate lines; none when both are empty.
pub open spec fn container_detail(rc: RunningContainer) -> Option<Seq<char>> {
    let parts = (if rc.env@.len() > 0 { seq!["env: "@ + join_seq(string_views(rc.env@), ", "@)] } else { Seq::empty() })
        + (if rc.mounts@.len() > 0 {
            seq!["mounts: "@ + join_seq(rc.mounts@.map_values(|m: ContainerMount| mount_text(m)), "; "@)]
        } else {
            Seq::empty()
        });
    if parts.len() == 0 { None } else { Some(join_seq(parts, "\n"@)) }
}

pub open spec fn running_item(rc: RunningContainer) -> ContextItemView {
    ContextItemView {
        id: rc.id@,
        title: rc.name@,
        subtitle: some(rc.image@ + " ("@ + rc.status@ + ")"@),
        detail: container_detail(rc),
        searchable_text: rc.name@ + " "@ + rc.image@ + " "@ + rc.status@
            + (if rc.restart_policy@.len() > 0 { " "@ + rc.restart_policy@ } else { Seq::empty() }),
    }
}

fn running_item_exec(rc: &RunningContainer) -> (r: ContextItem)
    ensures
        item_view(r) == running_item(*rc),
{
    let mut parts: Vec<String> = Vec::new();
    if rc.env.len() > 0 {
        let j = crate::text::join_strings(&rc.env, ", ");
        parts.push(cat2("env: ", j.as_str()));
    }
    if rc.mounts.len() > 0 {
        let mut ms: Vec<String> = Vec::new();
        let mut i: usize = 0;
        while i < rc.mounts.len()
            invariant
                0 <= i <= rc.mounts@.len(),
                string_views(ms@) == rc.mounts@.map_values(|m: ContainerMount| mount_text(m)).take(i as int),
            decreases rc.mounts@.len() - i,
        {
            let m = &rc.mounts[i];
            let t = cat5(m.mount_type.as_str(), " ", m.source.as_str(), ":", m.destination.as_str());
            let ghost before = ms@;
            ms.push(t);
            assert(string_views(ms@) =~= string_views(before).push(t@));
            assert(rc.mounts@.map_values(|m: ContainerMount| mount_text(m)).take(i + 1)
                =~= rc.mounts@.map_values(|m: ContainerMount| mount_text(m)).take(i as int).push(t@));
            i = i + 1;
        }
        assert(rc.mounts@.map_values(|m: ContainerMount| mount_text(m)).take(rc.mounts@.len() as int)
            =~= rc.mounts@.map_values(|m: ContainerMount| mount_text(m)));
        let j = crate::text::join_strings(&ms, "; ");
        parts.push(cat2("mounts: ", j.as_str()));
    }
    let ghost pv = (if rc.env@.len() > 0 { seq!["env: "@ + join_seq(string_views(rc.env@), ", "@)] } else { Seq::<Seq<char>>::empty() })
        + (if rc.mounts@.len() > 0 {
            seq!["mounts: "@ + join_seq(rc.mounts@.map_values(|m: ContainerMount| mount_text(m)), "; "@)]
        } else {
            Seq::<Seq<char>>::empty()
        });
    assert(string_views(parts@) =~= pv);
    let detail = if parts.len() == 0 { None } else { Some(crate::text::join_strings(&parts, "\n")) };
    let mut search = cat5(rc.name.as_str(), " ", rc.image.as_str(), " ", rc.status.as_str());
    if !is_empty_str(rc.restart_policy.as_str()) {
        push_str(&mut search, " ");
        push_str(&mut search, rc.restart_policy.as_str());
    }
    let r = ContextItem {
        id: s(rc.id.as_str()),
        title: s(rc.name.as_str()),
        subtitle: Some(cat4(rc.image.as_str(), " (", rc.status.as_str(), ")")),
        detail,
        searchable_text: search,
    };
    assert(item_view(r) =~= running_item(*rc));
    r
}

pub open spec fn flatpak_item(f: FlatpakApp) -> ContextItemView {
    ContextItemView {
        id: f.app_id@,
        title: f.app_id@,
        subtitle: some(f.origin@ + "/"@ + f.branch@),
        detail: None,
        searchable_text: f.app_id@ + " "@ + f.origin@ + " "@ + f.branch@
            + (if f.remote@.len() > 0 { " "@ + f.remote@ } else { Seq::empty() })
            + (if f.remote_url@.len() > 0 { " "@ + f.remote_url@ } else { Seq::empty() }),
    }
}

fn flatpak_item_exec(f: &FlatpakApp) -> (r: ContextItem)
    ensures
        item_view(r) == flatpak_item(*f),
{
    let mut search = cat5(f.app_id.as_str(), " ", f.origin.as_str(), " ", f.branch.as_str());
    let ghost s0 = search@;
    if !is_empty_str(f.remote.as_str()) {
        push_str(&mut search, " ");
        push_str(&mut search, f.remote.as_str());
    }
    let ghost s1 = search@;
    if !is_empty_str(f.remote_url.as_str()) {
        push_str(&mut search, " ");
        push_str(&mut search, f.remote_url.as_str());
    }
    let r = ContextItem {
        id: s(f.app_id.as_str()),
        title: s(f.app_id.as_str()),
        subtitle: Some(cat3(f.origin.as_str(), "/", f.branch.as_str())),
        detail: None,
        searchable_text: search,
    };
    assert(item_view(r) =~= flatpak_item(*f));
    r
}

/// The container items: quadlets, compose files, running containers,
/// flatpaks, in that order.
pub open spec fn containers_ok(sec: ReferenceSection, d: RefContainers) -> bool {
    let nq = d.quadlets@.len() as int;
    let nc = d.compose_files@.len() as int;
    let nr = d.running_containers@.len() as int;
    let nf = d.flatpaks@.len() as int;
    let iv = items_view(sec.items@);
    &&& sec.id@ == "containers"@
    &&& sec.display_name@ == "Containers"@
    &&& sec.subsections@.len() == 0
    &&& sec.empty_reason is None
    &&& !sec.has_ifcfg
    &&& sec.ifcfg_note is None
    &&& iv.len() == nq + nc + nr + nf
    &&& iv.take(nq) == d.quadlets@.map_values(|q: QuadletUnit| quadlet_item(q))
    &&& iv.subrange(nq, nq + nc) == d.compose_files@.map_values(|c: ComposeFile| compose_item(c))
    &&& iv.subrange(nq + nc, nq + nc + nr) == d.running_containers@.map_values(|rc: RunningContainer| running_item(rc))
    &&& iv.subrange(nq + nc + nr, nq + nc + nr + nf) == d.flatpaks@.map_values(|f: FlatpakApp| flatpak_item(f))
}

pub fn web_containers_section(data: &RefContainers) -> (sec: ReferenceSection)
    ensures
        containers_ok(sec, *data),
{
    let mut items: Vec<ContextItem> = Vec::new();
    push_mapped(&mut items, &data.quadlets, quadlet_item_exec, Ghost(|q: QuadletUnit| quadlet_item(q)));
    let ghost after_q = items_view(items@);
    assert(after_q =~= data.quadlets@.map_values(|q: QuadletUnit| quadlet_item(q)));
    let nq = items.len();
    push_mapped(&mut items, &data.compose_files, compose_item_exec, Ghost(|c: ComposeFile| compose_item(c)));
    let ghost mid = items_view(items@);
    push_mapped(&mut items, &data.running_containers, running_item_exec, Ghost(|rc: RunningContainer| running_item(rc)));
    let ghost mid2 = items_view(items@);
    push_mapped(&mut items, &data.flatpaks, flatpak_item_exec, Ghost(|f: FlatpakApp| flatpak_item(f)));
    let ghost iv = items_view(items@);
    let ghost nc = data.compose_files@.len() as int;
    let ghost nr = data.running_containers@.len() as int;
    let ghost nf = data.flatpaks@.len() as int;
    assert(iv.take(nq as int) =~= mid.take(nq as int));
    assert(iv.take(nq as int) =~= after_q);
    assert(iv.len() == nq + nc + nr + nf);
    assert(iv.subrange(nq + nc, nq + nc + nr) =~= data.running_containers@.map_values(|rc: RunningContainer| running_item(rc)));
    assert(iv.subrange(nq + nc + nr, nq + nc + nr + nf) =~= data.flatpaks@.map_values(|f: FlatpakApp| flatpak_item(f)));
    let sec = reference_section("containers", "Containers", items);
    assert(items_view(sec.items@) == iv);
    assert(iv.subrange(nq as int, nq + nc) =~= data.compose_files@.map_values(|c: ComposeFile| compose_item(c)));
    assert(containers_ok(sec, *data));
    sec
}

} // verus!

verus! {

// ---- kernel & boot ----

pub struct SysctlOverride {
    pub key: String,
    pub runtime: String,
    pub default: String,
    pub source: String,
}

pub struct KernelModule {
    pub name: String,
    pub size: String,
    pub used_by: String,
}

pub struct ConfigSnippet {
    pub path: String,
    pub content: String,
}

pub struct AlternativeEntry {
    pub name: String,
    pub path: String,
    pub status: String,
}

/// Kernel and boot data of the reference projection.
pub struct RefKernelBoot {
    pub tuned_active: Option<String>,
    pub sysctl_overrides: Vec<SysctlOverride>,
    pub non_default_modules: Vec<KernelModule>,
    pub modules_load_d: Vec<ConfigSnippet>,
    pub modprobe_d: Vec<ConfigSnippet>,
    pub dracut_conf: Vec<ConfigSnippet>,
    pub custom_tuned_profiles: Vec<ConfigSnippet>,
    pub cmdline: Option<String>,
    pub grub_defaults: Option<String>,
    pub locale: Option<String>,
    pub timezone: Option<String>,
    pub alternatives: Vec<AlternativeEntry>,
}

pub open spec fn tuned_items(t: Option<String>) -> Seq<ContextItemView> {
    match t {
        Some(x) => seq![ContextItemView { id: "tuned_active"@, title: "Active tuned profile"@, subtitle: some(x@), detail: None, searchable_text: x@ }],
        None => Seq::empty(),
    }
}

pub open spec fn sysctl_item(o: SysctlOverride) -> ContextItemView {
    ContextItemView {
        id: o.key@,
        title: o.key@,
        subtitle: some("\""@ + o.runtime@ + "\" (default: \""@ + o.default@ + "\")"@),
        detail: some(o.source@),
        searchable_text: o.key@ + " "@ + o.runtime@ + " "@ + o.default@ + " "@ + o.source@,
    }
}

fn sysctl_item_exec(o: &SysctlOverride) -> (r: ContextItem)
    ensures
        item_view(r) == sysctl_item(*o),
{
    let mut search = cat5(o.key.as_str(), " ", o.runtime.as_str(), " ", o.default.as_str());
    push_str(&mut search, " ");
    push_str(&mut search, o.source.as_str());
    let r = ContextItem {
        id: s(o.key.as_str()),
        title: s(o.key.as_str()),
        subtitle: Some(cat5("\"", o.runtime.as_str(), "\" (default: \"", o.default.as_str(), "\")")),
        detail: Some(s(o.source.as_str())),
        searchable_text: search,
    };
    assert(item_view(r) =~= sysctl_item(*o));
    r
}

pub open spec fn module_item(m: KernelModule) -> ContextItemView {
    ContextItemView {
        id: m.name@,
        title: m.name@,
        subtitle: some("size: "@ + m.size@),
        detail: if m.used_by@.len() == 0 { None } else { some(m.used_by@) },
        searchable_text: m.name@ + " "@ + m.size@ + " "@ + m.used_by@,
    }
}

fn module_item_exec(m: &KernelModule) -> (r: ContextItem)
    ensures
        item_view(r) == module_item(*m),
{
    let r = ContextItem {
        id: s(m.name.as_str()),
        title: s(m.name.as_str()),
        subtitle: Some(cat2("size: ", m.size.as_str())),
        detail: if is_empty_str(m.used_by.as_str()) { None } else { Some(s(m.used_by.as_str())) },
        searchable_text: cat5(m.name.as_str(), " ", m.size.as_str(), " ", m.used_by.as_str()),
    };
    assert(item_view(r) =~= module_item(*m));
    r
}

/// A config snippet item, titled by the path's file name.
pub open spec fn snippet_item(c: ConfigSnippet, label: Seq<char>) -> ContextItemView {
    ContextItemView {
        id: c.path@,
        title: titled(c.path@, path_file_name(c.path@)),
        subtitle: some(label),
        detail: some(c.content@),
        searchable_text: c.path@ + " "@ + c.content@,
    }
}

/// The items of `cs` start at `at` in `iv`, each titled by its file name.
pub open spec fn snippets_at(iv: Seq<ContextItemView>, at: int, cs: Seq<ConfigSnippet>, label: Seq<char>) -> bool {
    forall|i: int| 0 <= i < cs.len() ==> #[trigger] iv[at + i] == snippet_item(cs[i], label)
}

fn push_snippets(out: &mut Vec<ContextItem>, cs: &Vec<ConfigSnippet>, label: &str)
    ensures
        final(out)@.len() == old(out)@.len() + cs@.len(),
        items_view(final(out)@).take(old(out)@.len() as int) == items_view(old(out)@),
        snippets_at(items_view(final(out)@), old(out)@.len() as int, cs@, label@),
{
    let ghost start = old(out)@.len() as int;
    let ghost head = items_view(out@);
    let mut i: usize = 0;
    while i < cs.len()
        invariant
            0 <= i <= cs@.len(),
            out@.len() == start + i,
            start == old(out)@.len(),
            head == items_view(old(out)@),
            items_view(out@).take(start) == head,
            forall|j: int| 0 <= j < i ==> #[trigger] items_view(out@)[start + j] == snippet_item(cs@[j], label@),
        decreases cs@.len() - i,
    {
        let c = &cs[i];
        let title = match file_name_of(c.path.as_str()) {
            Some(n) => n,
            None => s(c.path.as_str()),
        };
        let r = ContextItem {
            id: s(c.path.as_str()),
            title,
            subtitle: Some(s(label)),
            detail: Some(s(c.content.as_str())),
            searchable_text: cat3(c.path.as_str(), " ", c.content.as_str()),
        };
        assert(item_view(r) =~= snippet_item(*c, label@));
        let ghost before = out@;
        out.push(r);
        assert(items_view(out@) =~= items_view(before).push(item_view(r)));
        assert(items_view(out@).take(start) =~= items_view(before).take(start));
        assert forall|j: int| 0 <= j < i + 1 implies #[trigger] items_view(out@)[start + j] == snippet_item(cs@[j], label@) by {
            if j < i {
                assert(items_view(out@)[start + j] == items_view(before)[start + j]);
            }
        }
        i = i + 1;
    }
}

/// The fixed customization items: the active tuned profile, sysctl
/// overrides, non-default modules.
pub open spec fn custom_head(d: RefKernelBoot) -> Seq<ContextItemView> {
    tuned_items(d.tuned_active) + d.sysctl_overrides@.map_values(|o: SysctlOverride| sysctl_item(o))
        + d.non_default_modules@.map_values(|m: KernelModule| module_item(m))
}

/// The customization items: the fixed ones, then the modules-load.d,
/// modprobe.d, dracut.conf.d and tuned profile snippets.
pub open spec fn custom_items_ok(iv: Seq<ContextItemView>, d: RefKernelBoot) -> bool {
    let h = custom_head(d).len() as int;
    let a = d.modules_load_d@.len() as int;
    let b = d.modprobe_d@.len() as int;
    let c = d.dracut_conf@.len() as int;
    let e = d.custom_tuned_profiles@.len() as int;
    &&& iv.len() == h + a + b + c + e
    &&& iv.take(h) == custom_head(d)
    &&& snippets_at(iv, h, d.modules_load_d@, "modules-load.d"@)
    &&& snippets_at(iv, h + a, d.modprobe_d@, "modprobe.d"@)
    &&& snippets_at(iv, h + a + b, d.dracut_conf@, "dracut.conf.d"@)
    &&& snippets_at(iv, h + a + b + c, d.custom_tuned_profiles@, "tuned profile"@)
}

/// The kernel command line as a subtitle: cut to 77 bytes and `...` when
/// longer than 80 bytes.
pub open spec fn cmdline_subtitle(c: Seq<char>) -> Seq<char> {
    if crate::pull_progress::byte_len(c) > 80 { crate::pull_progress::byte_prefix(c, 77) + "..."@ } else { c }
}

pub open spec fn opt_item(o: Option<String>, id: Seq<char>, title: Seq<char>, with_subtitle: bool, with_detail: bool) -> Seq<ContextItemView> {
    match o {
        Some(x) => seq![ContextItemView {
            id,
            title,
            subtitle: if with_subtitle { some(x@) } else { None },
            detail: if with_detail { some(x@) } else { None },
            searchable_text: x@,
        }],
        None => Seq::empty(),
    }
}

pub open spec fn alternative_item(a: AlternativeEntry) -> ContextItemView {
    ContextItemView {
        id: a.name@,
        title: a.name@,
        subtitle: some(a.path@ + " ("@ + a.status@ + ")"@),
        detail: None,
        searchable_text: a.name@ + " "@ + a.path@ + " "@ + a.status@,
    }
}

fn alternative_item_exec(a: &AlternativeEntry) -> (r: ContextItem)
    ensures
        item_view(r) == alternative_item(*a),
{
    let r = ContextItem {
        id: s(a.name.as_str()),
        title: s(a.name.as_str()),
        subtitle: Some(cat4(a.path.as_str(), " (", a.status.as_str(), ")")),
        detail: None,
        searchable_text: cat5(a.name.as_str(), " ", a.path.as_str(), " ", a.status.as_str()),
    };
    assert(item_view(r) =~= alternative_item(*a));
    r
}

/// The defaults and context items: kernel cmdline, GRUB defaults, locale,
/// timezone, alternatives.
pub open spec fn default_items(d: RefKernelBoot) -> Seq<ContextItemView> {
    (match d.cmdline {
        Some(c) => seq![ContextItemView {
            id: "cmdline"@,
            title: "Kernel cmdline"@,
            subtitle: some(cmdline_subtitle(c@)),
            detail: some(c@),
            searchable_text: c@,
        }],
        None => Seq::empty(),
    }) + opt_item(d.grub_defaults, "grub_defaults"@, "GRUB defaults"@, false, true)
        + opt_item(d.locale, "locale"@, "Locale"@, true, false)
        + opt_item(d.timezone, "timezone"@, "Timezone"@, true, false)
        + d.alternatives@.map_values(|a: AlternativeEntry| alternative_item(a))
}

/// Slicing the kernel command line is well formed.
pub open spec fn kernel_boot_fits(d: RefKernelBoot) -> bool {
    d.cmdline matches Some(c) ==> (crate::pull_progress::byte_len(c@) > 80 ==> crate::pull_progress::is_byte_boundary(c@, 77))
}

pub open spec fn custom_count(d: RefKernelBoot) -> nat {
    custom_head(d).len() + d.modules_load_d@.len() + d.modprobe_d@.len() + d.dracut_conf@.len() + d.custom_tuned_profiles@.len()
}

/// The kernel & boot section: a customizations subsection when there are
/// any, then a defaults/context subsection when there are any.
pub open spec fn kernel_boot_ok(sec: ReferenceSection, d: RefKernelBoot) -> bool {
    let subs = subsections_view(sec.subsections@);
    let has_c = custom_count(d) > 0;
    let k: int = if has_c { 1 } else { 0 };
    &&& sec.id@ == "kernel_boot"@
    &&& sec.display_name@ == "Kernel & Boot"@
    &&& sec.items@.len() == 0
    &&& sec.empty_reason is None
    &&& !sec.has_ifcfg
    &&& sec.ifcfg_note is None
    &&& subs.len() == k + (if default_items(d).len() > 0 { 1int } else { 0int })
    &&& has_c ==> subs[0].0 == "customizations"@ && subs[0].1 == "Customizations"@ && custom_items_ok(subs[0].2, d)
    &&& default_items(d).len() > 0 ==> subs[k].0 == "defaults_context"@ && subs[k].1 == "Defaults / Context"@ && subs[k].2 == default_items(d)
}

fn opt_item_exec(out: &mut Vec<ContextItem>, o: &Option<String>, id: &str, title: &str, with_subtitle: bool, with_detail: bool)
    ensures
        items_view(final(out)@) == items_view(old(out)@) + opt_item(*o, id@, title@, with_subtitle, with_detail),
{
    match o {
        Some(x) => {
            let r = ContextItem {
                id: s(id),
                title: s(title),
                subtitle: if with_subtitle { Some(s(x.as_str())) } else { None },
                detail: if with_detail { Some(s(x.as_str())) } else { None },
                searchable_text: s(x.as_str()),
            };
            let ghost before = out@;
            out.push(r);
            assert(items_view(out@) =~= items_view(before) + opt_item(*o, id@, title@, with_subtitle, with_detail));
        },
        None => {
            assert(items_view(out@) =~= items_view(old(out)@) + opt_item(*o, id@, title@, with_subtitle, with_detail));
        },
    }
}

pub fn web_kernel_boot_section(data: &RefKernelBoot) -> (sec: ReferenceSection)
    requires
        kernel_boot_fits(*data),
    ensures
        kernel_boot_ok(sec, *data),
{
    let mut subs: Vec<ContextSubsection> = Vec::new();
    let mut custom: Vec<ContextItem> = Vec::new();
    opt_item_exec(&mut custom, &data.tuned_active, "tuned_active", "Active tuned profile", true, false);
    assert(opt_item(data.tuned_active, "tuned_active"@, "Active tuned profile"@, true, false) =~= tuned_items(data.tuned_active));
    push_mapped(&mut custom, &data.sysctl_overrides, sysctl_item_exec, Ghost(|o: SysctlOverride| sysctl_item(o)));
    push_mapped(&mut custom, &data.non_default_modules, module_item_exec, Ghost(|m: KernelModule| module_item(m)));
    let ghost head = items_view(custom@);
    assert(head =~= custom_head(*data));
    let ghost h = head.len() as int;
    push_snippets(&mut custom, &data.modules_load_d, "modules-load.d");
    let ghost v1 = items_view(custom@);
    push_snippets(&mut custom, &data.modprobe_d, "modprobe.d");
    let ghost v2 = items_view(custom@);
    push_snippets(&mut custom, &data.dracut_conf, "dracut.conf.d");
    let ghost v3 = items_view(custom@);
    push_snippets(&mut custom, &data.custom_tuned_profiles, "tuned profile");
    let ghost v4 = items_view(custom@);
    proof {
        let a = data.modules_load_d@.len() as int;
        let b = data.modprobe_d@.len() as int;
        let c = data.dracut_conf@.len() as int;
        assert(v4.take(h) =~= head) by {
            assert(v4.take(h + a + b + c).take(h) =~= v4.take(h));
            assert(v3.take(h + a + b).take(h) =~= v3.take(h));
            assert(v2.take(h + a).take(h) =~= v2.take(h));
        }
        assert forall|i: int| 0 <= i < a implies #[trigger] v4[h + i] == snippet_item(data.modules_load_d@[i], "modules-load.d"@) by {
            assert(v4[h + i] == v4.take(h + a + b + c)[h + i]);
            assert(v3[h + i] == v3.take(h + a + b)[h + i]);
            assert(v2[h + i] == v2.take(h + a)[h + i]);
            assert(v1[h + i] == snippet_item(data.modules_load_d@[i], "modules-load.d"@));
        }
        assert forall|i: int| 0 <= i < b implies #[trigger] v4[h + a + i] == snippet_item(data.modprobe_d@[i], "modprobe.d"@) by {
            assert(v4[h + a + i] == v4.take(h + a + b + c)[h + a + i]);
            assert(v3[h + a + i] == v3.take(h + a + b)[h + a + i]);
            assert(v2[h + a + i] == snippet_item(data.modprobe_d@[i], "modprobe.d"@));
        }
        assert forall|i: int| 0 <= i < c implies #[trigger] v4[h + a + b + i] == snippet_item(data.dracut_conf@[i], "dracut.conf.d"@) by {
            assert(v4[h + a + b + i] == v4.take(h + a + b + c)[h + a + b + i]);
            assert(v3[h + a + b + i] == snippet_item(data.dracut_conf@[i], "dracut.conf.d"@));
        }
        assert(custom_items_ok(v4, *data));
    }
    let has_custom = custom.len() > 0;
    push_sub_if(&mut subs, "customizations", "Customizations", custom);
    let mut defaults: Vec<ContextItem> = Vec::new();
    if let Some(c) = &data.cmdline {
        let n = crate::pull_progress::byte_length(c.as_str());
        let subtitle = if n > 80 {
            cat2(crate::pull_progress::byte_prefix_str(c.as_str(), 77), "...")
        } else {
            s(c.as_str())
        };
        let r = ContextItem {
            id: s("cmdline"),
            title: s("Kernel cmdline"),
            subtitle: Some(subtitle),
            detail: Some(s(c.as_str())),
            searchable_text: s(c.as_str()),
        };
        defaults.push(r);
    }
    opt_item_exec(&mut defaults, &data.grub_defaults, "grub_defaults", "GRUB defaults", false, true);
    opt_item_exec(&mut defaults, &data.locale, "locale", "Locale", true, false);
    opt_item_exec(&mut defaults, &data.timezone, "timezone", "Timezone", true, false);
    push_mapped(&mut defaults, &data.alternatives, alternative_item_exec, Ghost(|a: AlternativeEntry| alternative_item(a)));
    assert(items_view(defaults@) =~= default_items(*data));
    push_sub_if(&mut subs, "defaults_context", "Defaults / Context", defaults);
    let sec = ReferenceSection {
        id: s("kernel_boot"),
        display_name: s("Kernel & Boot"),
        items: Vec::new(),
        subsections: subs,
        empty_reason: None,
        has_ifcfg: false,
        ifcfg_note: None,
    };
    sec
}

} // verus!

verus! {

// ---- services ----

/// A unit's enablement state.
#[derive(Debug, Clone, Copy, PartialEq, Eq, Structural)]
pub enum ServiceUnitState {
    Enabled,
    Disabled,
    Masked,
}

/// The preset policy's default for a unit.
#[derive(Debug, Clone, Copy, PartialEq, Eq, Structural)]
pub enum PresetDefault {
    Enable,
    Disable,
}

/// Why a service's presence in the image is uncertain.
#[derive(Debug, Clone, Copy, PartialEq, Eq, Structural)]
pub enum AdvisoryReason {
    PackageExcluded,
    PackageUnreachable,
    BaselineUnavailable,
}

pub open spec fn state_text(s: ServiceUnitState) -> Seq<char> {
    match s {
        ServiceUnitState::Enabled => "enabled"@,
        ServiceUnitState::Disabled => "disabled"@,
        ServiceUnitState::Masked => "masked"@,
    }
}

pub open spec fn preset_text(p: PresetDefault) -> Seq<char> {
    match p {
        PresetDefault::Enable => "enable"@,
        PresetDefault::Disable => "disable"@,
    }
}

/// The action a state implies: enable, disable, mask.
pub open spec fn implied_action(s: ServiceUnitState) -> Seq<char> {
    match s {
        ServiceUnitState::Enabled => "enable"@,
        ServiceUnitState::Disabled => "disable"@,
        ServiceUnitState::Masked => "mask"@,
    }
}

/// The subtitle of a divergent service: its state against the preset.
pub open spec fn service_subtitle(current: ServiceUnitState, default: Option<PresetDefault>) -> Seq<char> {
    match (current, default) {
        (ServiceUnitState::Enabled, Some(PresetDefault::Disable)) => "enabled (diverges from preset: disable)"@,
        (ServiceUnitState::Disabled, Some(PresetDefault::Enable)) => "disabled (diverges from preset: enable)"@,
        (ServiceUnitState::Masked, Some(PresetDefault::Enable)) => "masked (preset default: enable)"@,
        (ServiceUnitState::Masked, Some(PresetDefault::Disable)) => "masked (preset default: disable)"@,
        (ServiceUnitState::Masked, None) => "masked (no preset rule)"@,
        (st, Some(d)) => state_text(st) + " (diverges from preset: "@ + preset_text(d) + ")"@,
        (st, None) => state_text(st) + " (no preset rule)"@,
    }
}

fn state_str(st: ServiceUnitState) -> (r: &'static str)
    ensures
        r@ == state_text(st),
{
    match st {
        ServiceUnitState::Enabled => "enabled",
        ServiceUnitState::Disabled => "disabled",
        ServiceUnitState::Masked => "masked",
    }
}

fn preset_str(p: PresetDefault) -> (r: &'static str)
    ensures
        r@ == preset_text(p),
{
    match p {
        PresetDefault::Enable => "enable",
        PresetDefault::Disable => "disable",
    }
}

/// The subtitle of a divergent service.
pub fn typed_service_subtitle(current: ServiceUnitState, default: Option<PresetDefault>) -> (r: String)
    ensures
        r@ == service_subtitle(current, default),
{
    match (current, default) {
        (ServiceUnitState::Enabled, Some(PresetDefault::Disable)) => s("enabled (diverges from preset: disable)"),
        (ServiceUnitState::Disabled, Some(PresetDefault::Enable)) => s("disabled (diverges from preset: enable)"),
        (ServiceUnitState::Masked, Some(PresetDefault::Enable)) => s("masked (preset default: enable)"),
        (ServiceUnitState::Masked, Some(PresetDefault::Disable)) => s("masked (preset default: disable)"),
        (ServiceUnitState::Masked, None) => s("masked (no preset rule)"),
        (st, Some(d)) => cat4(state_str(st), " (diverges from preset: ", preset_str(d), ")"),
        (st, None) => cat2(state_str(st), " (no preset rule)"),
    }
}

fn implied_action_str(st: ServiceUnitState) -> (r: &'static str)
    ensures
        r@ == implied_action(st),
{
    match st {
        ServiceUnitState::Enabled => "enable",
        ServiceUnitState::Disabled => "disable",
        ServiceUnitState::Masked => "mask",
    }
}

/// A service unit of the reference projection.
pub struct RefService {
    pub unit: String,
    pub current_state: ServiceUnitState,
    pub default_state: Option<PresetDefault>,
    pub dropin_contents: Vec<String>,
    pub owning_package: Option<String>,
}

pub struct StandaloneDropin {
    pub unit: String,
    pub path: String,
    pub content: String,
}

pub struct OmittedService {
    pub unit: String,
    pub reason: String,
    pub package: String,
}

pub struct ServiceAdvisory {
    pub unit: String,
    pub owning_package: String,
    pub reasons: Vec<AdvisoryReason>,
}

pub struct ServiceWarning {
    pub unit: String,
    pub message: String,
}

/// Service data of the reference projection.
pub struct RefServices {
    pub divergent: Vec<RefService>,
    pub preset_matched_with_dropins: Vec<RefService>,
    pub preset_unknown_enabled: Vec<RefService>,
    pub preset_unknown_disabled: Vec<RefService>,
    pub standalone_dropins: Vec<StandaloneDropin>,
    pub omitted: Vec<OmittedService>,
    pub advisories: Vec<ServiceAdvisory>,
    pub warnings: Vec<ServiceWarning>,
}

/// The drop-in contents joined by a separator line; none without drop-ins.
pub open spec fn dropin_detail(c: Seq<String>) -> Option<Seq<char>> {
    if c.len() == 0 { None } else { some(join_seq(string_views(c), "\n---\n"@)) }
}

fn dropin_detail_exec(c: &Vec<String>) -> (r: Option<String>)
    ensures
        opt_chars(r) == dropin_detail(c@),
{
    if c.len() == 0 { None } else { Some(crate::text::join_strings(c, "\n---\n")) }
}

pub open spec fn divergent_item(sv: RefService) -> ContextItemView {
    let default_str = match sv.default_state { Some(d) => preset_text(d), None => "none"@ };
    ContextItemView {
        id: sv.unit@,
        title: sv.unit@,
        subtitle: some(service_subtitle(sv.current_state, sv.default_state)),
        detail: dropin_detail(sv.dropin_contents@),
        searchable_text: sv.unit@ + " "@ + state_text(sv.current_state) + " "@ + default_str + " "@ + implied_action(sv.current_state)
            + (match sv.owning_package { Some(p) => " "@ + p@, None => Seq::empty() }),
    }
}

fn divergent_item_exec(sv: &RefService) -> (r: ContextItem)
    ensures
        item_view(r) == divergent_item(*sv),
{
    let default_str: &str = match sv.default_state {
        Some(d) => preset_str(d),
        None => "none",
    };
    let mut search = cat5(sv.unit.as_str(), " ", state_str(sv.current_state), " ", default_str);
    push_str(&mut search, " ");
    push_str(&mut search, implied_action_str(sv.current_state));
    if let Some(p) = &sv.owning_package {
        push_str(&mut search, " ");
        push_str(&mut search, p.as_str());
    }
    let r = ContextItem {
        id: s(sv.unit.as_str()),
        title: s(sv.unit.as_str()),
        subtitle: Some(typed_service_subtitle(sv.current_state, sv.default_state)),
        detail: dropin_detail_exec(&sv.dropin_contents),
        searchable_text: search,
    };
    assert(item_view(r) =~= divergent_item(*sv));
    r
}

pub open spec fn matched_item(sv: RefService) -> ContextItemView {
    ContextItemView {
        id: sv.unit@,
        title: sv.unit@,
        subtitle: some(state_text(sv.current_state) + " (matches preset, has drop-in override)"@),
        detail: dropin_detail(sv.dropin_contents@),
        searchable_text: sv.unit@ + " "@ + state_text(sv.current_state) + " drop-in override"@,
    }
}

fn matched_item_exec(sv: &RefService) -> (r: ContextItem)
    ensures
        item_view(r) == matched_item(*sv),
{
    let st = state_str(sv.current_state);
    let r = ContextItem {
        id: s(sv.unit.as_str()),
        title: s(sv.unit.as_str()),
        subtitle: Some(cat2(st, " (matches preset, has drop-in override)")),
        detail: dropin_detail_exec(&sv.dropin_contents),
        searchable_text: cat4(sv.unit.as_str(), " ", st, " drop-in override"),
    };
    assert(item_view(r) =~= matched_item(*sv));
    r
}

pub open spec fn unknown_enabled_item(sv: RefService) -> ContextItemView {
    ContextItemView {
        id: sv.unit@,
        title: sv.unit@,
        subtitle: some("enabled (no preset rule)"@),
        detail: dropin_detail(sv.dropin_contents@),
        searchable_text: sv.unit@ + " enabled no preset rule"@,
    }
}

fn unknown_enabled_item_exec(sv: &RefService) -> (r: ContextItem)
    ensures
        item_view(r) == unknown_enabled_item(*sv),
{
    let r = ContextItem {
        id: s(sv.unit.as_str()),
        title: s(sv.unit.as_str()),
        subtitle: Some(s("enabled (no preset rule)")),
        detail: dropin_detail_exec(&sv.dropin_contents),
        searchable_text: cat2(sv.unit.as_str(), " enabled no preset rule"),
    };
    assert(item_view(r) =~= unknown_enabled_item(*sv));
    r
}

pub open spec fn unknown_disabled_item(sv: RefService) -> ContextItemView {
    ContextItemView {
        id: sv.unit@,
        title: sv.unit@,
        subtitle: some("disabled (no preset rule)"@),
        detail: None,
        searchable_text: sv.unit@ + " disabled no preset rule"@,
    }
}

fn unknown_disabled_item_exec(sv: &RefService) -> (r: ContextItem)
    ensures
        item_view(r) == unknown_disabled_item(*sv),
{
    let r = ContextItem {
        id: s(sv.unit.as_str()),
        title: s(sv.unit.as_str()),
        subtitle: Some(s("disabled (no preset rule)")),
        detail: None,
        searchable_text: cat2(sv.unit.as_str(), " disabled no preset rule"),
    };
    assert(item_view(r) =~= unknown_disabled_item(*sv));
    r
}

pub open spec fn standalone_item(d: StandaloneDropin) -> ContextItemView {
    ContextItemView {
        id: "dropin-"@ + d.unit@,
        title: d.unit@ + " (drop-in)"@,
        subtitle: some("drop-in override"@),
        detail: some(d.content@),
        searchable_text: d.unit@ + " drop-in"@,
    }
}

fn standalone_item_exec(d: &StandaloneDropin) -> (r: ContextItem)
    ensures
        item_view(r) == standalone_item(*d),
{
    let r = ContextItem {
        id: cat2("dropin-", d.unit.as_str()),
        title: cat2(d.unit.as_str(), " (drop-in)"),
        subtitle: Some(s("drop-in override")),
        detail: Some(s(d.content.as_str())),
        searchable_text: cat2(d.unit.as_str(), " drop-in"),
    };
    assert(item_view(r) =~= standalone_item(*d));
    r
}

pub open spec fn omitted_item(o: OmittedService) -> ContextItemView {
    ContextItemView {
        id: "omitted-"@ + o.unit@,
        title: o.unit@,
        subtitle: some("package '"@ + o.package@ + "' not in target image"@),
        detail: None,
        searchable_text: o.unit@ + " omitted "@ + o.package@,
    }
}

fn omitted_item_exec(o: &OmittedService) -> (r: ContextItem)
    ensures
        item_view(r) == omitted_item(*o),
{
    let r = ContextItem {
        id: cat2("omitted-", o.unit.as_str()),
        title: s(o.unit.as_str()),
        subtitle: Some(cat3("package '", o.package.as_str(), "' not in target image")),
        detail: None,
        searchable_text: cat3(o.unit.as_str(), " omitted ", o.package.as_str()),
    };
    assert(item_view(r) =~= omitted_item(*o));
    r
}

pub open spec fn reason_text(r: AdvisoryReason) -> Seq<char> {
    match r {
        AdvisoryReason::PackageExcluded => "package excluded"@,
        AdvisoryReason::PackageUnreachable => "package unreachable"@,
        AdvisoryReason::BaselineUnavailable => "baseline unavailable"@,
    }
}

pub open spec fn reasons_view(rs: Seq<AdvisoryReason>) -> Seq<Seq<char>> {
    rs.map_values(|r: AdvisoryReason| reason_text(r))
}

pub open spec fn advisory_item(a: ServiceAdvisory) -> ContextItemView {
    ContextItemView {
        id: "advisory-"@ + a.unit@,
        title: a.unit@,
        subtitle: some("package '"@ + a.owning_package@ + "': "@ + join_seq(reasons_view(a.reasons@), "; "@)),
        detail: None,
        searchable_text: a.unit@ + " advisory "@ + a.owning_package@ + " "@ + join_seq(reasons_view(a.reasons@), " "@),
    }
}

fn advisory_item_exec(a: &ServiceAdvisory) -> (r: ContextItem)
    ensures
        item_view(r) == advisory_item(*a),
{
    let mut texts: Vec<String> = Vec::new();
    let mut i: usize = 0;
    while i < a.reasons.len()
        invariant
            0 <= i <= a.reasons@.len(),
            string_views(texts@) == reasons_view(a.reasons@).take(i as int),
        decreases a.reasons@.len() - i,
    {
        let t: &str = match a.reasons[i] {
            AdvisoryReason::PackageExcluded => "package excluded",
            AdvisoryReason::PackageUnreachable => "package unreachable",
            AdvisoryReason::BaselineUnavailable => "baseline unavailable",
        };
        let ghost before = texts@;
        texts.push(s(t));
        assert(string_views(texts@) =~= string_views(before).push(t@));
        assert(reasons_view(a.reasons@).take(i + 1) =~= reasons_view(a.reasons@).take(i as int).push(t@));
        i = i + 1;
    }
    assert(reasons_view(a.reasons@).take(a.reasons@.len() as int) =~= reasons_view(a.reasons@));
    let semi = crate::text::join_strings(&texts, "; ");
    let space = crate::text::join_strings(&texts, " ");
    let mut search = cat4(a.unit.as_str(), " advisory ", a.owning_package.as_str(), " ");
    push_str(&mut search, space.as_str());
    let r = ContextItem {
        id: cat2("advisory-", a.unit.as_str()),
        title: s(a.unit.as_str()),
        subtitle: Some(cat4("package '", a.owning_package.as_str(), "': ", semi.as_str())),
        detail: None,
        searchable_text: search,
    };
    assert(item_view(r) =~= advisory_item(*a));
    r
}

pub open spec fn warning_item(w: ServiceWarning) -> ContextItemView {
    ContextItemView {
        id: "warning-"@ + w.unit@,
        title: w.unit@,
        subtitle: some(w.message@),
        detail: None,
        searchable_text: "warning "@ + w.message@,
    }
}

fn warning_item_exec(w: &ServiceWarning) -> (r: ContextItem)
    ensures
        item_view(r) == warning_item(*w),
{
    let r = ContextItem {
        id: cat2("warning-", w.unit.as_str()),
        title: s(w.unit.as_str()),
        subtitle: Some(s(w.message.as_str())),
        detail: None,
        searchable_text: cat2("warning ", w.message.as_str()),
    };
    assert(item_view(r) =~= warning_item(*w));
    r
}

/// The service items: divergent units, preset-matched units with
/// drop-ins, enabled and disabled units without a preset rule, standalone
/// drop-ins.
pub open spec fn service_items(d: RefServices) -> Seq<ContextItemView> {
    d.divergent@.map_values(|x: RefService| divergent_item(x))
        + d.preset_matched_with_dropins@.map_values(|x: RefService| matched_item(x))
        + d.preset_unknown_enabled@.map_values(|x: RefService| unknown_enabled_item(x))
        + d.preset_unknown_disabled@.map_values(|x: RefService| unknown_disabled_item(x))
        + d.standalone_dropins@.map_values(|x: StandaloneDropin| standalone_item(x))
}

/// The service subsections, each when non-empty: omitted services,
/// service advisories, service warnings.
pub open spec fn service_subsections(d: RefServices) -> Seq<(Seq<char>, Seq<char>, Seq<ContextItemView>)> {
    sub_if("omitted_services"@, "Omitted Services"@, d.omitted@.map_values(|x: OmittedService| omitted_item(x)))
        + sub_if("service_advisories"@, "Service Advisories"@, d.advisories@.map_values(|x: ServiceAdvisory| advisory_item(x)))
        + sub_if("service_warnings"@, "Service Warnings"@, d.warnings@.map_values(|x: ServiceWarning| warning_item(x)))
}

pub open spec fn services_ok(sec: ReferenceSection, d: RefServices) -> bool {
    &&& sec.id@ == "services"@
    &&& sec.display_name@ == "Services"@
    &&& items_view(sec.items@) == service_items(d)
    &&& subsections_view(sec.subsections@) == service_subsections(d)
    &&& sec.empty_reason is None
    &&& !sec.has_ifcfg
    &&& sec.ifcfg_note is None
}

pub fn web_services_section(data: &RefServices) -> (sec: ReferenceSection)
    ensures
        services_ok(sec, *data),
{
    let mut items: Vec<ContextItem> = Vec::new();
    push_mapped(&mut items, &data.divergent, divergent_item_exec, Ghost(|x: RefService| divergent_item(x)));
    push_mapped(&mut items, &data.preset_matched_with_dropins, matched_item_exec, Ghost(|x: RefService| matched_item(x)));
    push_mapped(&mut items, &data.preset_unknown_enabled, unknown_enabled_item_exec, Ghost(|x: RefService| unknown_enabled_item(x)));
    push_mapped(&mut items, &data.preset_unknown_disabled, unknown_disabled_item_exec, Ghost(|x: RefService| unknown_disabled_item(x)));
    push_mapped(&mut items, &data.standalone_dropins, standalone_item_exec, Ghost(|x: StandaloneDropin| standalone_item(x)));
    assert(items_view(items@) =~= service_items(*data));
    let mut subs: Vec<ContextSubsection> = Vec::new();
    assert(subsections_view(subs@) =~= Seq::<(Seq<char>, Seq<char>, Seq<ContextItemView>)>::empty());
    let mut om: Vec<ContextItem> = Vec::new();
    push_mapped(&mut om, &data.omitted, omitted_item_exec, Ghost(|x: OmittedService| omitted_item(x)));
    assert(items_view(om@) =~= data.omitted@.map_values(|x: OmittedService| omitted_item(x)));
    push_sub_if(&mut subs, "omitted_services", "Omitted Services", om);
    let mut adv: Vec<ContextItem> = Vec::new();
    push_mapped(&mut adv, &data.advisories, advisory_item_exec, Ghost(|x: ServiceAdvisory| advisory_item(x)));
    assert(items_view(adv@) =~= data.advisories@.map_values(|x: ServiceAdvisory| advisory_item(x)));
    push_sub_if(&mut subs, "service_advisories", "Service Advisories", adv);
    let mut wn: Vec<ContextItem> = Vec::new();
    push_mapped(&mut wn, &data.warnings, warning_item_exec, Ghost(|x: ServiceWarning| warning_item(x)));
    assert(items_view(wn@) =~= data.warnings@.map_values(|x: ServiceWarning| warning_item(x)));
    push_sub_if(&mut subs, "service_warnings", "Service Warnings", wn);
    assert(subsections_view(subs@) =~= service_subsections(*data));
    ReferenceSection {
        id: s("services"),
        display_name: s("Services"),
        items,
        subsections: subs,
        empty_reason: None,
        has_ifcfg: false,
        ifcfg_note: None,
    }
}

// ---- orchestrator ----

/// The reference projection of a session, by section.
pub struct ReferenceProjection {
    pub services: RefServices,
    pub version_changes: RefVersionChanges,
    pub containers: RefContainers,
    pub network: RefNetwork,
    pub storage: RefStorage,
    pub scheduled_tasks: Vec<GenericRefItem>,
    pub non_rpm_software: Vec<GenericRefItem>,
    pub kernel_boot: RefKernelBoot,
    pub selinux: Vec<GenericRefItem>,
}

pub open spec fn storage_ok(sec: ReferenceSection, d: RefStorage) -> bool {
    &&& sec.id@ == "storage"@
    &&& sec.display_name@ == "Storage"@
    &&& items_view(sec.items@) == storage_items(d)
    &&& sec.subsections@.len() == 0
    &&& sec.empty_reason is None
    &&& !sec.has_ifcfg
    &&& sec.ifcfg_note is None
}

pub open spec fn generic_ok(sec: ReferenceSection, id: Seq<char>, name: Seq<char>, items: Seq<GenericRefItem>) -> bool {
    &&& sec.id@ == id
    &&& sec.display_name@ == name
    &&& items_view(sec.items@) == items.map_values(|it: GenericRefItem| generic_item(it))
    &&& sec.subsections@.len() == 0
    &&& sec.empty_reason is None
    &&& !sec.has_ifcfg
    &&& sec.ifcfg_note is None
}

/// All nine reference sections in their canonical order: services,
/// version changes, containers, network, storage, scheduled tasks,
/// non-RPM software, kernel & boot, SELinux.
pub fn build_web_sections(p: &ReferenceProjection) -> (v: Vec<ReferenceSection>)
    requires
        kernel_boot_fits(p.kernel_boot),
    ensures
        v@.len() == 9,
        services_ok(v@[0], p.services),
        version_changes_ok(v@[1], p.version_changes),
        containers_ok(v@[2], p.containers),
        subsection_section(v@[3], "network"@, "Network"@, network_subsections(p.network)),
        storage_ok(v@[4], p.storage),
        generic_ok(v@[5], "scheduled_tasks"@, "Scheduled Tasks"@, p.scheduled_tasks@),
        generic_ok(v@[6], "non_rpm_software"@, "Non-RPM Software"@, p.non_rpm_software@),
        kernel_boot_ok(v@[7], p.kernel_boot),
        generic_ok(v@[8], "selinux"@, "Security & Access Control"@, p.selinux@),
{
    let mut v: Vec<ReferenceSection> = Vec::new();
    v.push(web_services_section(&p.services));
    v.push(web_version_changes_section(&p.version_changes));
    v.push(web_containers_section(&p.containers));
    v.push(web_network_section(&p.network));
    v.push(web_storage_section(&p.storage));
    v.push(web_generic_section("scheduled_tasks", "Scheduled Tasks", &p.scheduled_tasks));
    v.push(web_generic_section("non_rpm_software", "Non-RPM Software", &p.non_rpm_software));
    v.push(web_kernel_boot_section(&p.kernel_boot));
    v.push(web_generic_section("selinux", "Security & Access Control", &p.selinux));
    v
}

} // verus!
