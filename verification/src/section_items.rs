//! What each section of the review screen lists. Decision sections
//! (packages, configs, services, containers, sysctls, tuned) list their
//! items with triage group and toggle state; reference sections list
//! read-only facts; the users section lists nothing here.

use vstd::prelude::*;

use crate::screen::{build_repo_bar_line, bucket_to_group, group_of_bucket, repo_bar_spec, RepoGroup, TriageBucket};
use crate::text::{contains_seq, contains_vec, chars_of, decimal, join_seq, join_strings, push_decimal, push_str, string_views};
use crate::tui_state::{
    advisory_view, build_grouped_items, entry_view, grouped_spec, list_item_view, list_view, opt_chars, raw_views,
    site_view, ListItem, ListItemView, RawItem, RawItemView, TuiState,
};
use crate::sections::{section_order, section_order_spec};
use crate::tui_types::{ItemId, ItemIdView, SectionId, TriageGroup};
use crate::widget::detail_view::{DetailContentType, DetailData};
use crate::widget::info_bar::InfoBarData;
use crate::web::adapter::{
    AlternativeEntry, ComposeFile, ConfigSnippet, CredentialRef, DirectRule, FirewallZone, FstabEntry, GenericRefItem,
    KernelModule, LvmVolume, MountPoint, NetConnection, OmittedService, ProxyEntry, RefContainers, RefKernelBoot,
    RefNetwork, RefService, RefServices, RefStorage, RefVersionChanges, ReferenceProjection, RunningContainer,
    ServiceAdvisory, ServiceWarning, StandaloneDropin, StaticRoute, SysctlOverride, VarDirectory, VersionChange,
};

verus! {

// ---- decision items of the session ----

/// A package decision.
pub struct PackageDecision {
    pub name: String,
    pub arch: String,
    pub version: String,
    pub source_repo: String,
    pub bucket: TriageBucket,
    pub included: bool,
    pub locked: bool,
}

/// A config-file decision; `category` is the label of its category.
pub struct ConfigDecision {
    pub path: String,
    pub category: String,
    /// The kind label of the config file.
    pub kind: String,
    /// The diff against the packaged file, when recorded.
    pub rpm_diff: Option<String>,
    pub content: String,
    pub bucket: TriageBucket,
    pub included: bool,
    pub locked: bool,
    pub attention_reason: Option<String>,
}

/// A service-state decision; `state` is the label of its current state.
pub struct ServiceStateDecision {
    pub unit: String,
    pub state: String,
    pub bucket: TriageBucket,
    pub included: bool,
    pub locked: bool,
    pub attention_reason: Option<String>,
}

/// A service drop-in decision.
pub struct DropinDecision {
    pub unit: String,
    pub path: String,
    pub content: String,
    pub bucket: TriageBucket,
    pub included: bool,
    pub locked: bool,
    pub attention_reason: Option<String>,
}

/// A quadlet decision.
pub struct QuadletDecision {
    pub name: String,
    pub image: String,
    pub path: String,
    pub content: String,
    pub bucket: TriageBucket,
    pub included: bool,
    pub locked: bool,
}

/// A flatpak decision.
pub struct FlatpakDecision {
    pub app_id: String,
    pub origin: String,
    pub branch: String,
    pub remote: String,
    pub bucket: TriageBucket,
    pub included: bool,
    pub locked: bool,
}

/// A sysctl decision.
pub struct SysctlDecision {
    pub key: String,
    pub runtime: String,
    pub source: String,
    pub bucket: TriageBucket,
    pub included: bool,
    pub locked: bool,
}

/// The tuned profile decision.
pub struct TunedDecision {
    pub active_profile: String,
    pub custom_profiles: Vec<String>,
    pub bucket: TriageBucket,
    pub included: bool,
}

/// What the section lists read from the session.
pub struct ScreenData {
    pub packages: Vec<PackageDecision>,
    pub config_files: Vec<ConfigDecision>,
    pub service_states: Vec<ServiceStateDecision>,
    pub service_dropins: Vec<DropinDecision>,
    pub quadlets: Vec<QuadletDecision>,
    pub flatpaks: Vec<FlatpakDecision>,
    pub sysctls: Vec<SysctlDecision>,
    pub tuned: Vec<TunedDecision>,
    pub reference: ReferenceProjection,
    /// Repository groups of the package list, for the repo bar.
    pub repo_groups: Vec<RepoGroup>,
    /// The deprecation note shown when ifcfg network scripts are in use.
    pub ifcfg_note: String,
}

pub open spec fn opt_text(o: Option<String>) -> Seq<char> {
    match o {
        Some(s) => s@,
        None => Seq::empty(),
    }
}

// ---- rows of decision sections ----

/// `name.arch`, or the bare name for `noarch` or no arch.
pub open spec fn package_label(p: PackageDecision) -> Seq<char> {
    if p.arch@.len() == 0 || p.arch@ == "noarch"@ { p.name@ } else { p.name@ + "."@ + p.arch@ }
}

/// The version, with the source repository in parentheses when known.
pub open spec fn package_detail(p: PackageDecision) -> Seq<char> {
    if p.source_repo@.len() == 0 { p.version@ } else { p.version@ + " ("@ + p.source_repo@ + ")"@ }
}

pub open spec fn package_row(p: PackageDecision) -> RawItemView {
    entry_view(package_label(p), package_detail(p), group_of_bucket(p.bucket), Some(p.included),
        Some(ItemIdView::Package { name: p.name@, arch: p.arch@ }), false, p.locked, None)
}

pub open spec fn config_row(c: ConfigDecision) -> RawItemView {
    entry_view(c.path@, c.category@, group_of_bucket(c.bucket), Some(c.included), Some(ItemIdView::Config { path: c.path@ }),
        c.rpm_diff is Some || c.content@.len() > 0, c.locked, opt_chars(c.attention_reason))
}

pub open spec fn service_state_row(s: ServiceStateDecision) -> RawItemView {
    entry_view(s.unit@, s.state@, group_of_bucket(s.bucket), Some(s.included), Some(ItemIdView::Service { unit: s.unit@ }),
        false, s.locked, opt_chars(s.attention_reason))
}

pub open spec fn dropin_row(d: DropinDecision) -> RawItemView {
    entry_view(d.unit@ + " (drop-in)"@, d.path@, group_of_bucket(d.bucket), Some(d.included), Some(ItemIdView::DropIn { path: d.path@ }),
        d.content@.len() > 0, d.locked, opt_chars(d.attention_reason))
}

pub open spec fn quadlet_row(q: QuadletDecision) -> RawItemView {
    entry_view(q.name@, q.image@, group_of_bucket(q.bucket), Some(q.included), Some(ItemIdView::Quadlet { path: q.path@ }),
        q.content@.len() > 0, q.locked, None)
}

pub open spec fn flatpak_row(f: FlatpakDecision) -> RawItemView {
    entry_view(f.app_id@, f.origin@ + "/"@ + f.branch@, group_of_bucket(f.bucket), Some(f.included),
        Some(ItemIdView::Flatpak { app_id: f.app_id@, remote: f.remote@, branch: f.branch@ }), false, f.locked, None)
}

pub open spec fn sysctl_row(s: SysctlDecision) -> RawItemView {
    entry_view(s.key@, s.runtime@ + " (source: "@ + s.source@ + ")"@, group_of_bucket(s.bucket), Some(s.included),
        Some(ItemIdView::Sysctl { key: s.key@ }), false, s.locked, None)
}

/// `standard profile`, or the custom profiles after `custom: `.
pub open spec fn tuned_detail(t: TunedDecision) -> Seq<char> {
    if t.custom_profiles@.len() == 0 {
        "standard profile"@
    } else {
        "custom: "@ + join_seq(string_views(t.custom_profiles@), ", "@)
    }
}

pub open spec fn tuned_row(t: TunedDecision) -> RawItemView {
    entry_view(t.active_profile@, tuned_detail(t), group_of_bucket(t.bucket), Some(t.included),
        Some(ItemIdView::TunedSelection { profile: t.active_profile@ }), false, false, None)
}

// ---- rows of reference data ----

pub open spec fn ref_service_row(s: RefService, label: Seq<char>) -> RawItemView {
    site_view(s.unit@, label)
}

pub open spec fn standalone_row(d: StandaloneDropin) -> RawItemView {
    entry_view(d.unit@, "drop-in: "@ + d.path@, TriageGroup::Site, None, None, d.content@.len() > 0, false, None)
}

pub open spec fn omitted_row(o: OmittedService) -> RawItemView {
    entry_view(o.unit@, "omitted: "@ + o.reason@, TriageGroup::Baseline, None, None, false, false, None)
}

pub open spec fn service_advisory_row(a: ServiceAdvisory) -> RawItemView {
    advisory_view(a.unit@, "advisory ("@ + a.owning_package@ + ")"@, TriageGroup::Investigate,
        "Full-shadow service owned by "@ + a.owning_package@)
}

pub open spec fn service_warning_row(w: ServiceWarning) -> RawItemView {
    entry_view(w.unit@, "warning: "@ + w.message@, TriageGroup::Investigate, None, None, false, false, None)
}

pub open spec fn running_row(c: RunningContainer) -> RawItemView {
    site_view(c.name@, c.image@ + " ("@ + c.status@ + ")"@)
}

pub open spec fn compose_row(cf: ComposeFile) -> RawItemView {
    site_view(cf.path@, join_seq(cf.services@.map_values(|s: crate::web::adapter::ComposeService| s.service@), ", "@))
}

pub open spec fn version_change_row(v: VersionChange, downgrade: bool) -> RawItemView {
    entry_view(v.name@ + "."@ + v.arch@,
        v.host_version@ + " -> "@ + v.base_version@ + (if downgrade { " (downgrade)"@ } else { " (upgrade)"@ }),
        if downgrade { TriageGroup::Investigate } else { TriageGroup::Site }, None, None, false, false, None)
}

/// A row for an optional kernel/boot setting.
pub open spec fn opt_setting(v: Option<String>, label: Seq<char>, has_content: bool) -> Seq<RawItemView> {
    match v {
        Some(s) => seq![entry_view(label, s@, TriageGroup::Site, None, None, has_content, false, None)],
        None => Seq::empty(),
    }
}

pub open spec fn sysctl_override_row(s: SysctlOverride) -> RawItemView {
    entry_view(s.key@, s.runtime@ + " (default: "@ + s.default@ + ")"@, TriageGroup::Site, None,
        Some(ItemIdView::Sysctl { key: s.key@ }), false, false, None)
}

pub open spec fn module_row(m: KernelModule) -> RawItemView {
    entry_view(m.name@, "size: "@ + m.size@ + ", used by: "@ + m.used_by@, TriageGroup::Site, None,
        Some(ItemIdView::KernelModule { name: m.name@ }), false, false, None)
}

pub open spec fn snippet_row(c: ConfigSnippet, label: Seq<char>) -> RawItemView {
    entry_view(c.path@, label, TriageGroup::Site, None, None, c.content@.len() > 0, false, None)
}

pub open spec fn alternative_row(a: AlternativeEntry) -> RawItemView {
    site_view(a.name@, a.path@ + " ("@ + a.status@ + ")"@)
}

pub open spec fn connection_row(c: NetConnection) -> RawItemView {
    entry_view(c.name@, c.conn_type@ + " ("@ + c.method@ + ")"@, TriageGroup::Site, None,
        Some(ItemIdView::NMConnection { path: c.path@ }), false, false, None)
}

pub open spec fn zone_row(z: FirewallZone) -> RawItemView {
    entry_view(z.name@, "zone ("@ + z.path@ + ")"@, TriageGroup::Site, None, Some(ItemIdView::FirewallZone { path: z.path@ }),
        z.content@.len() > 0, false, None)
}

pub open spec fn direct_rule_row(r: DirectRule) -> RawItemView {
    site_view(r.table@ + "/"@ + r.chain@, "ipv"@ + r.ipv@ + " prio="@ + r.priority@)
}

pub open spec fn static_route_row(r: StaticRoute) -> RawItemView {
    site_view(r.name@, r.path@)
}

pub open spec fn labelled_row(label: Seq<char>, v: String) -> RawItemView {
    site_view(label, v@)
}

pub open spec fn proxy_row(p: ProxyEntry) -> RawItemView {
    site_view("proxy"@, p.source@ + ": "@ + p.line@)
}

/// Some connection is an ifcfg network script.
pub open spec fn uses_ifcfg(conns: Seq<NetConnection>) -> bool {
    exists|i: int| 0 <= i < conns.len() && contains_seq(#[trigger] conns[i].path@, "network-scripts"@)
}

pub open spec fn ifcfg_rationale() -> Seq<char> {
    "ifcfg network scripts are deprecated in RHEL 9 and removed in RHEL 10"@
}

pub open spec fn fstab_row(f: FstabEntry) -> RawItemView {
    entry_view(f.mount_point@, f.device@ + " ("@ + f.fstype@ + " "@ + f.options@ + ")"@, TriageGroup::Site, None,
        Some(ItemIdView::Fstab { mount_point: f.mount_point@ }), false, f.locked, opt_chars(f.attention_reason))
}

pub open spec fn mount_row(m: MountPoint) -> RawItemView {
    site_view(m.target@, m.source@ + " ("@ + m.fstype@ + " "@ + m.options@ + ")"@)
}

pub open spec fn lvm_row(lv: LvmVolume) -> RawItemView {
    site_view(lv.vg_name@ + "/"@ + lv.lv_name@, lv.lv_size@)
}

pub open spec fn var_dir_row(d: VarDirectory) -> RawItemView {
    site_view(d.path@, d.size_estimate@ + " \u{2014} "@ + d.recommendation@)
}

pub open spec fn credential_row(c: CredentialRef) -> RawItemView {
    site_view(c.credential_path@, c.mount_point@ + " ("@ + c.source@ + ")"@)
}

/// The advisory listing `/var` paths without declarative backing.
pub open spec fn unbacked_rows(paths: Seq<String>) -> Seq<RawItemView> {
    if paths.len() == 0 {
        Seq::empty()
    } else {
        seq![advisory_view(
            decimal(paths.len()) + " unbacked /var dir(s) \u{2014} no tmpfiles.d or systemd backing"@,
            join_seq(string_views(paths), ", "@),
            TriageGroup::Site,
            "Unbacked /var dir(s) \u{2014} no declarative lifecycle management (tmpfiles.d, StateDirectory=)"@,
        )]
    }
}

pub open spec fn generic_row(t: GenericRefItem, non_rpm: bool) -> RawItemView {
    entry_view(t.key@, opt_text(t.summary), TriageGroup::Site, None,
        if non_rpm { Some(ItemIdView::NonRpm { name: t.key@ }) } else { None }, t.content is Some, false, None)
}

// ---- sections ----

pub open spec fn services_rows(d: ScreenData) -> Seq<RawItemView> {
    let rs = d.reference.services;
    d.service_states@.map_values(|s: ServiceStateDecision| service_state_row(s))
        + d.service_dropins@.map_values(|x: DropinDecision| dropin_row(x))
        + rs.divergent@.map_values(|s: RefService| ref_service_row(s, "divergent"@))
        + rs.preset_matched_with_dropins@.map_values(|s: RefService| ref_service_row(s, "preset+dropins"@))
        + rs.preset_unknown_enabled@.map_values(|s: RefService| ref_service_row(s, "unknown (enabled)"@))
        + rs.preset_unknown_disabled@.map_values(|s: RefService| ref_service_row(s, "unknown (disabled)"@))
        + rs.standalone_dropins@.map_values(|x: StandaloneDropin| standalone_row(x))
        + rs.omitted@.map_values(|o: OmittedService| omitted_row(o))
        + rs.advisories@.map_values(|a: ServiceAdvisory| service_advisory_row(a))
        + rs.warnings@.map_values(|w: ServiceWarning| service_warning_row(w))
}

pub open spec fn containers_rows(d: ScreenData) -> Seq<RawItemView> {
    d.quadlets@.map_values(|q: QuadletDecision| quadlet_row(q))
        + d.flatpaks@.map_values(|f: FlatpakDecision| flatpak_row(f))
        + d.reference.containers.running_containers@.map_values(|c: RunningContainer| running_row(c))
        + d.reference.containers.compose_files@.map_values(|c: ComposeFile| compose_row(c))
}

pub open spec fn version_rows(vc: RefVersionChanges) -> Seq<RawItemView> {
    vc.downgrades@.map_values(|v: VersionChange| version_change_row(v, true))
        + vc.upgrades@.map_values(|v: VersionChange| version_change_row(v, false))
}

pub open spec fn kernel_boot_rows(kb: RefKernelBoot) -> Seq<RawItemView> {
    opt_setting(kb.cmdline, "cmdline"@, true)
        + opt_setting(kb.grub_defaults, "grub defaults"@, true)
        + opt_setting(kb.tuned_active, "tuned active"@, false)
        + opt_setting(kb.locale, "locale"@, false)
        + opt_setting(kb.timezone, "timezone"@, false)
        + kb.sysctl_overrides@.map_values(|s: SysctlOverride| sysctl_override_row(s))
        + kb.non_default_modules@.map_values(|m: KernelModule| module_row(m))
        + kb.modules_load_d@.map_values(|c: ConfigSnippet| snippet_row(c, "modules-load.d"@))
        + kb.modprobe_d@.map_values(|c: ConfigSnippet| snippet_row(c, "modprobe.d"@))
        + kb.dracut_conf@.map_values(|c: ConfigSnippet| snippet_row(c, "dracut.conf"@))
        + kb.custom_tuned_profiles@.map_values(|c: ConfigSnippet| snippet_row(c, "tuned profile"@))
        + kb.alternatives@.map_values(|a: AlternativeEntry| alternative_row(a))
}

pub open spec fn network_rows(net: RefNetwork, note: Seq<char>) -> Seq<RawItemView> {
    net.connections@.map_values(|c: NetConnection| connection_row(c))
        + net.firewall_zones@.map_values(|z: FirewallZone| zone_row(z))
        + net.firewall_direct_rules@.map_values(|r: DirectRule| direct_rule_row(r))
        + net.static_routes@.map_values(|r: StaticRoute| static_route_row(r))
        + net.ip_routes@.map_values(|r: String| labelled_row("ip route"@, r))
        + net.ip_rules@.map_values(|r: String| labelled_row("ip rule"@, r))
        + (if net.resolv_provenance@.len() > 0 { seq![site_view("resolv.conf"@, net.resolv_provenance@)] } else { Seq::empty() })
        + net.hosts_additions@.map_values(|h: String| labelled_row("/etc/hosts"@, h))
        + net.proxy_env@.map_values(|p: ProxyEntry| proxy_row(p))
        + (if uses_ifcfg(net.connections@) {
            seq![advisory_view("ifcfg deprecation"@, note, TriageGroup::Site, ifcfg_rationale())]
        } else {
            Seq::empty()
        })
}

pub open spec fn storage_rows(st: RefStorage) -> Seq<RawItemView> {
    st.fstab_entries@.map_values(|f: FstabEntry| fstab_row(f))
        + st.mount_points@.map_values(|m: MountPoint| mount_row(m))
        + st.lvm_volumes@.map_values(|lv: LvmVolume| lvm_row(lv))
        + st.var_directories@.map_values(|x: VarDirectory| var_dir_row(x))
        + st.credential_refs@.map_values(|c: CredentialRef| credential_row(c))
        + unbacked_rows(st.unbacked_var_paths@)
}

/// The items a section lists, before grouping.
pub open spec fn section_rows(d: ScreenData, section: SectionId) -> Seq<RawItemView> {
    match section {
        SectionId::Packages => d.packages@.map_values(|p: PackageDecision| package_row(p)),
        SectionId::Configs => d.config_files@.map_values(|c: ConfigDecision| config_row(c)),
        SectionId::Services => services_rows(d),
        SectionId::Containers => containers_rows(d),
        SectionId::Sysctls => d.sysctls@.map_values(|s: SysctlDecision| sysctl_row(s)),
        SectionId::Tuned => d.tuned@.map_values(|t: TunedDecision| tuned_row(t)),
        SectionId::Users => Seq::empty(),
        SectionId::VerChanges => version_rows(d.reference.version_changes),
        SectionId::KernelBoot => kernel_boot_rows(d.reference.kernel_boot),
        SectionId::Network => network_rows(d.reference.network, d.ifcfg_note@),
        SectionId::Storage => storage_rows(d.reference.storage),
        SectionId::ScheduledTasks => d.reference.scheduled_tasks@.map_values(|t: GenericRefItem| generic_row(t, false)),
        SectionId::NonRpmSoftware => d.reference.non_rpm_software@.map_values(|t: GenericRefItem| generic_row(t, true)),
        SectionId::SELinux => d.reference.selinux@.map_values(|t: GenericRefItem| generic_row(t, false)),
    }
}

// ---- building the rows ----

fn own(x: &str) -> (r: String)
    ensures
        r@ == x@,
{
    x.to_owned()
}

fn own_opt(o: &Option<String>) -> (r: Option<String>)
    ensures
        opt_chars(r) == opt_chars(*o),
{
    match o {
        Some(x) => Some(own(x.as_str())),
        None => None,
    }
}

fn cat2(a: &str, b: &str) -> (r: String)
    ensures
        r@ == a@ + b@,
{
    let mut r = own(a);
    push_str(&mut r, b);
    r
}

fn cat3(a: &str, b: &str, c: &str) -> (r: String)
    ensures
        r@ == a@ + b@ + c@,
{
    let mut r = cat2(a, b);
    push_str(&mut r, c);
    r
}

fn cat4(a: &str, b: &str, c: &str, d: &str) -> (r: String)
    ensures
        r@ == a@ + b@ + c@ + d@,
{
    let mut r = cat3(a, b, c);
    push_str(&mut r, d);
    r
}

fn cat6(a: &str, b: &str, c: &str, d: &str, e: &str, f: &str) -> (r: String)
    ensures
        r@ == a@ + b@ + c@ + d@ + e@ + f@,
{
    let mut r = cat4(a, b, c, d);
    push_str(&mut r, e);
    push_str(&mut r, f);
    r
}

/// Appends `f(x)` for each `x` of `src`, where `f`'s contract fixes the
/// item it builds.
pub fn push_rows<T>(out: &mut Vec<RawItem>, src: &Vec<T>, f: impl Fn(&T) -> RawItem, Ghost(sp): Ghost<spec_fn(T) -> RawItemView>)
    requires
        forall|t: &T| f.requires((t,)),
        forall|t: &T, r: RawItem| f.ensures((t,), r) ==> crate::tui_state::raw_view(r) == sp(*t),
    ensures
        raw_views(final(out)@) == raw_views(old(out)@) + src@.map_values(sp),
{
    let ghost start = raw_views(out@);
    let mut i: usize = 0;
    while i < src.len()
        invariant
            0 <= i <= src@.len(),
            forall|t: &T| f.requires((t,)),
            forall|t: &T, r: RawItem| f.ensures((t,), r) ==> crate::tui_state::raw_view(r) == sp(*t),
            raw_views(out@) == start + src@.map_values(sp).take(i as int),
        decreases src@.len() - i,
    {
        let r = f(&src[i]);
        let ghost before = out@;
        out.push(r);
        assert(raw_views(out@) =~= raw_views(before).push(crate::tui_state::raw_view(r)));
        assert(src@.map_values(sp).take(i + 1) =~= src@.map_values(sp).take(i as int).push(sp(src@[i as int])));
        i = i + 1;
    }
    assert(src@.map_values(sp).take(src@.len() as int) =~= src@.map_values(sp));
}

fn push_one(out: &mut Vec<RawItem>, r: RawItem)
    ensures
        raw_views(final(out)@) == raw_views(old(out)@).push(crate::tui_state::raw_view(r)),
{
    let ghost before = out@;
    out.push(r);
    assert(raw_views(out@) =~= raw_views(before).push(crate::tui_state::raw_view(r)));
}

fn site_item(name: String, detail: String) -> (r: RawItem)
    ensures
        crate::tui_state::raw_view(r) == site_view(name@, detail@),
{
    RawItem::new(name, detail, TriageGroup::Site, None, None, false, false, None)
}

fn package_item(p: &PackageDecision) -> (r: RawItem)
    ensures
        crate::tui_state::raw_view(r) == package_row(*p),
{
    let name = if crate::text::char_count(p.arch.as_str()) == 0 || crate::text::str_eq(p.arch.as_str(), "noarch") {
        own(p.name.as_str())
    } else {
        cat3(p.name.as_str(), ".", p.arch.as_str())
    };
    let detail = if crate::text::char_count(p.source_repo.as_str()) == 0 {
        own(p.version.as_str())
    } else {
        cat4(p.version.as_str(), " (", p.source_repo.as_str(), ")")
    };
    let id = ItemId::Package { name: own(p.name.as_str()), arch: own(p.arch.as_str()) };
    RawItem::new(name, detail, bucket_to_group(p.bucket), Some(p.included), Some(id), false, p.locked, None)
}

fn config_item(c: &ConfigDecision) -> (r: RawItem)
    ensures
        crate::tui_state::raw_view(r) == config_row(*c),
{
    let has_content = c.rpm_diff.is_some() || crate::text::char_count(c.content.as_str()) > 0;
    RawItem::new(own(c.path.as_str()), own(c.category.as_str()), bucket_to_group(c.bucket), Some(c.included),
        Some(ItemId::Config { path: own(c.path.as_str()) }), has_content, c.locked, own_opt(&c.attention_reason))
}

fn service_state_item(s: &ServiceStateDecision) -> (r: RawItem)
    ensures
        crate::tui_state::raw_view(r) == service_state_row(*s),
{
    RawItem::new(own(s.unit.as_str()), own(s.state.as_str()), bucket_to_group(s.bucket), Some(s.included),
        Some(ItemId::Service { unit: own(s.unit.as_str()) }), false, s.locked, own_opt(&s.attention_reason))
}

fn dropin_item(d: &DropinDecision) -> (r: RawItem)
    ensures
        crate::tui_state::raw_view(r) == dropin_row(*d),
{
    RawItem::new(cat2(d.unit.as_str(), " (drop-in)"), own(d.path.as_str()), bucket_to_group(d.bucket), Some(d.included),
        Some(ItemId::DropIn { path: own(d.path.as_str()) }), crate::text::char_count(d.content.as_str()) > 0, d.locked, own_opt(&d.attention_reason))
}

fn quadlet_item(q: &QuadletDecision) -> (r: RawItem)
    ensures
        crate::tui_state::raw_view(r) == quadlet_row(*q),
{
    RawItem::new(own(q.name.as_str()), own(q.image.as_str()), bucket_to_group(q.bucket), Some(q.included),
        Some(ItemId::Quadlet { path: own(q.path.as_str()) }), crate::text::char_count(q.content.as_str()) > 0, q.locked, None)
}

fn flatpak_item(f: &FlatpakDecision) -> (r: RawItem)
    ensures
        crate::tui_state::raw_view(r) == flatpak_row(*f),
{
    let id = ItemId::Flatpak { app_id: own(f.app_id.as_str()), remote: own(f.remote.as_str()), branch: own(f.branch.as_str()) };
    RawItem::new(own(f.app_id.as_str()), cat3(f.origin.as_str(), "/", f.branch.as_str()), bucket_to_group(f.bucket),
        Some(f.included), Some(id), false, f.locked, None)
}

fn sysctl_item(s: &SysctlDecision) -> (r: RawItem)
    ensures
        crate::tui_state::raw_view(r) == sysctl_row(*s),
{
    RawItem::new(own(s.key.as_str()), cat4(s.runtime.as_str(), " (source: ", s.source.as_str(), ")"), bucket_to_group(s.bucket),
        Some(s.included), Some(ItemId::Sysctl { key: own(s.key.as_str()) }), false, s.locked, None)
}

fn tuned_item(t: &TunedDecision) -> (r: RawItem)
    ensures
        crate::tui_state::raw_view(r) == tuned_row(*t),
{
    let detail = if t.custom_profiles.len() == 0 {
        own("standard profile")
    } else {
        let j = join_strings(&t.custom_profiles, ", ");
        cat2("custom: ", j.as_str())
    };
    RawItem::new(own(t.active_profile.as_str()), detail, bucket_to_group(t.bucket), Some(t.included),
        Some(ItemId::TunedSelection { profile: own(t.active_profile.as_str()) }), false, false, None)
}

fn divergent_item(x: &RefService) -> (r: RawItem)
    ensures
        crate::tui_state::raw_view(r) == ref_service_row(*x, "divergent"@),
{
    site_item(own(x.unit.as_str()), own("divergent"))
}

fn preset_dropins_item(x: &RefService) -> (r: RawItem)
    ensures
        crate::tui_state::raw_view(r) == ref_service_row(*x, "preset+dropins"@),
{
    site_item(own(x.unit.as_str()), own("preset+dropins"))
}

fn unknown_enabled_item(x: &RefService) -> (r: RawItem)
    ensures
        crate::tui_state::raw_view(r) == ref_service_row(*x, "unknown (enabled)"@),
{
    site_item(own(x.unit.as_str()), own("unknown (enabled)"))
}

fn unknown_disabled_item(x: &RefService) -> (r: RawItem)
    ensures
        crate::tui_state::raw_view(r) == ref_service_row(*x, "unknown (disabled)"@),
{
    site_item(own(x.unit.as_str()), own("unknown (disabled)"))
}

fn standalone_item(d: &StandaloneDropin) -> (r: RawItem)
    ensures
        crate::tui_state::raw_view(r) == standalone_row(*d),
{
    RawItem::new(own(d.unit.as_str()), cat2("drop-in: ", d.path.as_str()), TriageGroup::Site, None, None,
        crate::text::char_count(d.content.as_str()) > 0, false, None)
}

fn omitted_item(o: &OmittedService) -> (r: RawItem)
    ensures
        crate::tui_state::raw_view(r) == omitted_row(*o),
{
    RawItem::new(own(o.unit.as_str()), cat2("omitted: ", o.reason.as_str()), TriageGroup::Baseline, None, None, false, false, None)
}

fn service_advisory_item(a: &ServiceAdvisory) -> (r: RawItem)
    ensures
        crate::tui_state::raw_view(r) == service_advisory_row(*a),
{
    RawItem::advisory(own(a.unit.as_str()), cat3("advisory (", a.owning_package.as_str(), ")"), TriageGroup::Investigate,
        cat2("Full-shadow service owned by ", a.owning_package.as_str()))
}

fn service_warning_item(w: &ServiceWarning) -> (r: RawItem)
    ensures
        crate::tui_state::raw_view(r) == service_warning_row(*w),
{
    RawItem::new(own(w.unit.as_str()), cat2("warning: ", w.message.as_str()), TriageGroup::Investigate, None, None, false, false, None)
}

fn running_item(c: &RunningContainer) -> (r: RawItem)
    ensures
        crate::tui_state::raw_view(r) == running_row(*c),
{
    site_item(own(c.name.as_str()), cat4(c.image.as_str(), " (", c.status.as_str(), ")"))
}

fn compose_item(cf: &ComposeFile) -> (r: RawItem)
    ensures
        crate::tui_state::raw_view(r) == compose_row(*cf),
{
    let mut names: Vec<String> = Vec::new();
    let mut i: usize = 0;
    while i < cf.services.len()
        invariant
            0 <= i <= cf.services@.len(),
            string_views(names@) == cf.services@.map_values(|s: crate::web::adapter::ComposeService| s.service@).take(i as int),
        decreases cf.services@.len() - i,
    {
        let ghost before = names@;
        names.push(own(cf.services[i].service.as_str()));
        assert(string_views(names@) =~= string_views(before).push(cf.services@[i as int].service@));
        assert(string_views(names@) =~= cf.services@.map_values(|s: crate::web::adapter::ComposeService| s.service@).take(i + 1));
        i = i + 1;
    }
    assert(cf.services@.map_values(|s: crate::web::adapter::ComposeService| s.service@).take(cf.services@.len() as int)
        =~= cf.services@.map_values(|s: crate::web::adapter::ComposeService| s.service@));
    site_item(own(cf.path.as_str()), join_strings(&names, ", "))
}

fn downgrade_item(v: &VersionChange) -> (r: RawItem)
    ensures
        crate::tui_state::raw_view(r) == version_change_row(*v, true),
{
    let detail = cat4(v.host_version.as_str(), " -> ", v.base_version.as_str(), " (downgrade)");
    RawItem::new(cat3(v.name.as_str(), ".", v.arch.as_str()), detail, TriageGroup::Investigate, None, None, false, false, None)
}

fn upgrade_item(v: &VersionChange) -> (r: RawItem)
    ensures
        crate::tui_state::raw_view(r) == version_change_row(*v, false),
{
    let detail = cat4(v.host_version.as_str(), " -> ", v.base_version.as_str(), " (upgrade)");
    RawItem::new(cat3(v.name.as_str(), ".", v.arch.as_str()), detail, TriageGroup::Site, None, None, false, false, None)
}

fn push_setting(out: &mut Vec<RawItem>, v: &Option<String>, label: &str, has_content: bool)
    ensures
        raw_views(final(out)@) == raw_views(old(out)@) + opt_setting(*v, label@, has_content),
{
    match v {
        Some(x) => {
            let r = RawItem::new(own(label), own(x.as_str()), TriageGroup::Site, None, None, has_content, false, None);
            push_one(out, r);
            assert(raw_views(out@) =~= raw_views(old(out)@) + opt_setting(*v, label@, has_content));
        },
        None => {
            assert(raw_views(out@) =~= raw_views(old(out)@) + opt_setting(*v, label@, has_content));
        },
    }
}

fn sysctl_override_item(s: &SysctlOverride) -> (r: RawItem)
    ensures
        crate::tui_state::raw_view(r) == sysctl_override_row(*s),
{
    RawItem::new(own(s.key.as_str()), cat4(s.runtime.as_str(), " (default: ", s.default.as_str(), ")"), TriageGroup::Site, None,
        Some(ItemId::Sysctl { key: own(s.key.as_str()) }), false, false, None)
}

fn module_item(m: &KernelModule) -> (r: RawItem)
    ensures
        crate::tui_state::raw_view(r) == module_row(*m),
{
    RawItem::new(own(m.name.as_str()), cat4("size: ", m.size.as_str(), ", used by: ", m.used_by.as_str()), TriageGroup::Site, None,
        Some(ItemId::KernelModule { name: own(m.name.as_str()) }), false, false, None)
}

fn snippet_item(c: &ConfigSnippet, label: &str) -> (r: RawItem)
    ensures
        crate::tui_state::raw_view(r) == snippet_row(*c, label@),
{
    RawItem::new(own(c.path.as_str()), own(label), TriageGroup::Site, None, None, crate::text::char_count(c.content.as_str()) > 0, false, None)
}

fn modules_load_item(c: &ConfigSnippet) -> (r: RawItem)
    ensures
        crate::tui_state::raw_view(r) == snippet_row(*c, "modules-load.d"@),
{
    snippet_item(c, "modules-load.d")
}

fn modprobe_item(c: &ConfigSnippet) -> (r: RawItem)
    ensures
        crate::tui_state::raw_view(r) == snippet_row(*c, "modprobe.d"@),
{
    snippet_item(c, "modprobe.d")
}

fn dracut_item(c: &ConfigSnippet) -> (r: RawItem)
    ensures
        crate::tui_state::raw_view(r) == snippet_row(*c, "dracut.conf"@),
{
    snippet_item(c, "dracut.conf")
}

fn tuned_profile_item(c: &ConfigSnippet) -> (r: RawItem)
    ensures
        crate::tui_state::raw_view(r) == snippet_row(*c, "tuned profile"@),
{
    snippet_item(c, "tuned profile")
}

fn alternative_item(a: &AlternativeEntry) -> (r: RawItem)
    ensures
        crate::tui_state::raw_view(r) == alternative_row(*a),
{
    site_item(own(a.name.as_str()), cat4(a.path.as_str(), " (", a.status.as_str(), ")"))
}

fn connection_item(c: &NetConnection) -> (r: RawItem)
    ensures
        crate::tui_state::raw_view(r) == connection_row(*c),
{
    RawItem::new(own(c.name.as_str()), cat4(c.conn_type.as_str(), " (", c.method.as_str(), ")"), TriageGroup::Site, None,
        Some(ItemId::NMConnection { path: own(c.path.as_str()) }), false, false, None)
}

fn zone_item(z: &FirewallZone) -> (r: RawItem)
    ensures
        crate::tui_state::raw_view(r) == zone_row(*z),
{
    RawItem::new(own(z.name.as_str()), cat3("zone (", z.path.as_str(), ")"), TriageGroup::Site, None,
        Some(ItemId::FirewallZone { path: own(z.path.as_str()) }), crate::text::char_count(z.content.as_str()) > 0, false, None)
}

fn direct_rule_item(r: &DirectRule) -> (out: RawItem)
    ensures
        crate::tui_state::raw_view(out) == direct_rule_row(*r),
{
    site_item(cat3(r.table.as_str(), "/", r.chain.as_str()), cat4("ipv", r.ipv.as_str(), " prio=", r.priority.as_str()))
}

fn static_route_item(r: &StaticRoute) -> (out: RawItem)
    ensures
        crate::tui_state::raw_view(out) == static_route_row(*r),
{
    site_item(own(r.name.as_str()), own(r.path.as_str()))
}

fn ip_route_item(v: &String) -> (r: RawItem)
    ensures
        crate::tui_state::raw_view(r) == labelled_row("ip route"@, *v),
{
    site_item(own("ip route"), own(v.as_str()))
}

fn ip_rule_item(v: &String) -> (r: RawItem)
    ensures
        crate::tui_state::raw_view(r) == labelled_row("ip rule"@, *v),
{
    site_item(own("ip rule"), own(v.as_str()))
}

fn hosts_item(v: &String) -> (r: RawItem)
    ensures
        crate::tui_state::raw_view(r) == labelled_row("/etc/hosts"@, *v),
{
    site_item(own("/etc/hosts"), own(v.as_str()))
}

fn proxy_item(p: &ProxyEntry) -> (r: RawItem)
    ensures
        crate::tui_state::raw_view(r) == proxy_row(*p),
{
    site_item(own("proxy"), cat3(p.source.as_str(), ": ", p.line.as_str()))
}

fn fstab_item(f: &FstabEntry) -> (r: RawItem)
    ensures
        crate::tui_state::raw_view(r) == fstab_row(*f),
{
    RawItem::new(own(f.mount_point.as_str()), cat6(f.device.as_str(), " (", f.fstype.as_str(), " ", f.options.as_str(), ")"),
        TriageGroup::Site, None, Some(ItemId::Fstab { mount_point: own(f.mount_point.as_str()) }), false, f.locked,
        own_opt(&f.attention_reason))
}

fn mount_item(m: &MountPoint) -> (r: RawItem)
    ensures
        crate::tui_state::raw_view(r) == mount_row(*m),
{
    site_item(own(m.target.as_str()), cat6(m.source.as_str(), " (", m.fstype.as_str(), " ", m.options.as_str(), ")"))
}

fn lvm_item(lv: &LvmVolume) -> (r: RawItem)
    ensures
        crate::tui_state::raw_view(r) == lvm_row(*lv),
{
    site_item(cat3(lv.vg_name.as_str(), "/", lv.lv_name.as_str()), own(lv.lv_size.as_str()))
}

fn var_dir_item(d: &VarDirectory) -> (r: RawItem)
    ensures
        crate::tui_state::raw_view(r) == var_dir_row(*d),
{
    site_item(own(d.path.as_str()), cat3(d.size_estimate.as_str(), " \u{2014} ", d.recommendation.as_str()))
}

fn credential_item(c: &CredentialRef) -> (r: RawItem)
    ensures
        crate::tui_state::raw_view(r) == credential_row(*c),
{
    site_item(own(c.credential_path.as_str()), cat4(c.mount_point.as_str(), " (", c.source.as_str(), ")"))
}

fn generic_item(t: &GenericRefItem, non_rpm: bool) -> (r: RawItem)
    ensures
        crate::tui_state::raw_view(r) == generic_row(*t, non_rpm),
{
    let detail = match &t.summary {
        Some(x) => own(x.as_str()),
        None => String::new(),
    };
    let id = if non_rpm { Some(ItemId::NonRpm { name: own(t.key.as_str()) }) } else { None };
    RawItem::new(own(t.key.as_str()), detail, TriageGroup::Site, None, id, t.content.is_some(), false, None)
}

fn plain_generic_item(t: &GenericRefItem) -> (r: RawItem)
    ensures
        crate::tui_state::raw_view(r) == generic_row(*t, false),
{
    generic_item(t, false)
}

fn non_rpm_item(t: &GenericRefItem) -> (r: RawItem)
    ensures
        crate::tui_state::raw_view(r) == generic_row(*t, true),
{
    generic_item(t, true)
}

// ---- sections ----

fn services_items(d: &ScreenData) -> (v: Vec<RawItem>)
    ensures
        raw_views(v@) == services_rows(*d),
{
    let rs = &d.reference.services;
    let mut v: Vec<RawItem> = Vec::new();
    push_rows(&mut v, &d.service_states, service_state_item, Ghost(|s: ServiceStateDecision| service_state_row(s)));
    push_rows(&mut v, &d.service_dropins, dropin_item, Ghost(|x: DropinDecision| dropin_row(x)));
    push_rows(&mut v, &rs.divergent, divergent_item, Ghost(|s: RefService| ref_service_row(s, "divergent"@)));
    push_rows(&mut v, &rs.preset_matched_with_dropins, preset_dropins_item, Ghost(|s: RefService| ref_service_row(s, "preset+dropins"@)));
    push_rows(&mut v, &rs.preset_unknown_enabled, unknown_enabled_item, Ghost(|s: RefService| ref_service_row(s, "unknown (enabled)"@)));
    push_rows(&mut v, &rs.preset_unknown_disabled, unknown_disabled_item, Ghost(|s: RefService| ref_service_row(s, "unknown (disabled)"@)));
    push_rows(&mut v, &rs.standalone_dropins, standalone_item, Ghost(|x: StandaloneDropin| standalone_row(x)));
    push_rows(&mut v, &rs.omitted, omitted_item, Ghost(|o: OmittedService| omitted_row(o)));
    push_rows(&mut v, &rs.advisories, service_advisory_item, Ghost(|a: ServiceAdvisory| service_advisory_row(a)));
    push_rows(&mut v, &rs.warnings, service_warning_item, Ghost(|w: ServiceWarning| service_warning_row(w)));
    assert(raw_views(v@) =~= services_rows(*d));
    v
}

fn containers_items(d: &ScreenData) -> (v: Vec<RawItem>)
    ensures
        raw_views(v@) == containers_rows(*d),
{
    let mut v: Vec<RawItem> = Vec::new();
    push_rows(&mut v, &d.quadlets, quadlet_item, Ghost(|q: QuadletDecision| quadlet_row(q)));
    push_rows(&mut v, &d.flatpaks, flatpak_item, Ghost(|f: FlatpakDecision| flatpak_row(f)));
    push_rows(&mut v, &d.reference.containers.running_containers, running_item, Ghost(|c: RunningContainer| running_row(c)));
    push_rows(&mut v, &d.reference.containers.compose_files, compose_item, Ghost(|c: ComposeFile| compose_row(c)));
    assert(raw_views(v@) =~= containers_rows(*d));
    v
}

fn version_items(vc: &RefVersionChanges) -> (v: Vec<RawItem>)
    ensures
        raw_views(v@) == version_rows(*vc),
{
    let mut v: Vec<RawItem> = Vec::new();
    push_rows(&mut v, &vc.downgrades, downgrade_item, Ghost(|x: VersionChange| version_change_row(x, true)));
    push_rows(&mut v, &vc.upgrades, upgrade_item, Ghost(|x: VersionChange| version_change_row(x, false)));
    assert(raw_views(v@) =~= version_rows(*vc));
    v
}

fn kernel_boot_items(kb: &RefKernelBoot) -> (v: Vec<RawItem>)
    ensures
        raw_views(v@) == kernel_boot_rows(*kb),
{
    let mut v: Vec<RawItem> = Vec::new();
    push_setting(&mut v, &kb.cmdline, "cmdline", true);
    push_setting(&mut v, &kb.grub_defaults, "grub defaults", true);
    push_setting(&mut v, &kb.tuned_active, "tuned active", false);
    push_setting(&mut v, &kb.locale, "locale", false);
    push_setting(&mut v, &kb.timezone, "timezone", false);
    push_rows(&mut v, &kb.sysctl_overrides, sysctl_override_item, Ghost(|s: SysctlOverride| sysctl_override_row(s)));
    push_rows(&mut v, &kb.non_default_modules, module_item, Ghost(|m: KernelModule| module_row(m)));
    push_rows(&mut v, &kb.modules_load_d, modules_load_item, Ghost(|c: ConfigSnippet| snippet_row(c, "modules-load.d"@)));
    push_rows(&mut v, &kb.modprobe_d, modprobe_item, Ghost(|c: ConfigSnippet| snippet_row(c, "modprobe.d"@)));
    push_rows(&mut v, &kb.dracut_conf, dracut_item, Ghost(|c: ConfigSnippet| snippet_row(c, "dracut.conf"@)));
    push_rows(&mut v, &kb.custom_tuned_profiles, tuned_profile_item, Ghost(|c: ConfigSnippet| snippet_row(c, "tuned profile"@)));
    push_rows(&mut v, &kb.alternatives, alternative_item, Ghost(|a: AlternativeEntry| alternative_row(a)));
    assert(raw_views(v@) =~= kernel_boot_rows(*kb));
    v
}

fn uses_ifcfg_exec(conns: &Vec<NetConnection>) -> (b: bool)
    ensures
        b == uses_ifcfg(conns@),
{
    let needle = chars_of("network-scripts");
    let mut i: usize = 0;
    while i < conns.len()
        invariant
            0 <= i <= conns@.len(),
            needle@ == "network-scripts"@,
            forall|j: int| 0 <= j < i ==> !contains_seq(#[trigger] conns@[j].path@, "network-scripts"@),
        decreases conns@.len() - i,
    {
        let hay = chars_of(conns[i].path.as_str());
        if contains_vec(&hay, &needle) {
            return true;
        }
        i = i + 1;
    }
    false
}

fn network_items(net: &RefNetwork, note: &str) -> (v: Vec<RawItem>)
    ensures
        raw_views(v@) == network_rows(*net, note@),
{
    let mut v: Vec<RawItem> = Vec::new();
    push_rows(&mut v, &net.connections, connection_item, Ghost(|c: NetConnection| connection_row(c)));
    push_rows(&mut v, &net.firewall_zones, zone_item, Ghost(|z: FirewallZone| zone_row(z)));
    push_rows(&mut v, &net.firewall_direct_rules, direct_rule_item, Ghost(|r: DirectRule| direct_rule_row(r)));
    push_rows(&mut v, &net.static_routes, static_route_item, Ghost(|r: StaticRoute| static_route_row(r)));
    push_rows(&mut v, &net.ip_routes, ip_route_item, Ghost(|r: String| labelled_row("ip route"@, r)));
    push_rows(&mut v, &net.ip_rules, ip_rule_item, Ghost(|r: String| labelled_row("ip rule"@, r)));
    let ghost mid = raw_views(v@);
    if crate::text::char_count(net.resolv_provenance.as_str()) > 0 {
        push_one(&mut v, site_item(own("resolv.conf"), own(net.resolv_provenance.as_str())));
    }
    let ghost mid2 = raw_views(v@);
    push_rows(&mut v, &net.hosts_additions, hosts_item, Ghost(|h: String| labelled_row("/etc/hosts"@, h)));
    push_rows(&mut v, &net.proxy_env, proxy_item, Ghost(|p: ProxyEntry| proxy_row(p)));
    let ghost mid3 = raw_views(v@);
    if uses_ifcfg_exec(&net.connections) {
        push_one(&mut v, RawItem::advisory(own("ifcfg deprecation"), own(note), TriageGroup::Site,
            own("ifcfg network scripts are deprecated in RHEL 9 and removed in RHEL 10")));
    }
    assert(raw_views(v@) =~= network_rows(*net, note@));
    v
}

fn storage_items(st: &RefStorage) -> (v: Vec<RawItem>)
    ensures
        raw_views(v@) == storage_rows(*st),
{
    let mut v: Vec<RawItem> = Vec::new();
    push_rows(&mut v, &st.fstab_entries, fstab_item, Ghost(|f: FstabEntry| fstab_row(f)));
    push_rows(&mut v, &st.mount_points, mount_item, Ghost(|m: MountPoint| mount_row(m)));
    push_rows(&mut v, &st.lvm_volumes, lvm_item, Ghost(|lv: LvmVolume| lvm_row(lv)));
    push_rows(&mut v, &st.var_directories, var_dir_item, Ghost(|x: VarDirectory| var_dir_row(x)));
    push_rows(&mut v, &st.credential_refs, credential_item, Ghost(|c: CredentialRef| credential_row(c)));
    if st.unbacked_var_paths.len() > 0 {
        let mut summary = String::new();
        push_decimal(&mut summary, st.unbacked_var_paths.len());
        push_str(&mut summary, " unbacked /var dir(s) \u{2014} no tmpfiles.d or systemd backing");
        let detail = join_strings(&st.unbacked_var_paths, ", ");
        push_one(&mut v, RawItem::advisory(summary, detail, TriageGroup::Site,
            own("Unbacked /var dir(s) \u{2014} no declarative lifecycle management (tmpfiles.d, StateDirectory=)")));
    }
    assert(raw_views(v@) =~= storage_rows(*st));
    v
}

/// The items `section` lists, before grouping.
pub fn section_raw_items(d: &ScreenData, section: SectionId) -> (v: Vec<RawItem>)
    ensures
        raw_views(v@) == section_rows(*d, section),
{
    let mut v: Vec<RawItem> = Vec::new();
    match section {
        SectionId::Packages => push_rows(&mut v, &d.packages, package_item, Ghost(|p: PackageDecision| package_row(p))),
        SectionId::Configs => push_rows(&mut v, &d.config_files, config_item, Ghost(|c: ConfigDecision| config_row(c))),
        SectionId::Services => {
            v = services_items(d);
        },
        SectionId::Containers => {
            v = containers_items(d);
        },
        SectionId::Sysctls => push_rows(&mut v, &d.sysctls, sysctl_item, Ghost(|s: SysctlDecision| sysctl_row(s))),
        SectionId::Tuned => push_rows(&mut v, &d.tuned, tuned_item, Ghost(|t: TunedDecision| tuned_row(t))),
        SectionId::Users => {},
        SectionId::VerChanges => {
            v = version_items(&d.reference.version_changes);
        },
        SectionId::KernelBoot => {
            v = kernel_boot_items(&d.reference.kernel_boot);
        },
        SectionId::Network => {
            v = network_items(&d.reference.network, d.ifcfg_note.as_str());
        },
        SectionId::Storage => {
            v = storage_items(&d.reference.storage);
        },
        SectionId::ScheduledTasks => push_rows(&mut v, &d.reference.scheduled_tasks, plain_generic_item,
            Ghost(|t: GenericRefItem| generic_row(t, false))),
        SectionId::NonRpmSoftware => push_rows(&mut v, &d.reference.non_rpm_software, non_rpm_item,
            Ghost(|t: GenericRefItem| generic_row(t, true))),
        SectionId::SELinux => push_rows(&mut v, &d.reference.selinux, plain_generic_item, Ghost(|t: GenericRefItem| generic_row(t, false))),
    }
    assert(raw_views(v@) =~= section_rows(*d, section));
    v
}

/// The list of a section: for packages the repo summary line shown above
/// the list, and the grouped rows.
pub struct SectionList {
    pub repo_bar: Option<String>,
    pub items: Vec<ListItem>,
}

/// The list of `section`: its items grouped into triage buckets (with the
/// state's collapsed groups), and for packages the repo summary line.
pub fn build_list_items(d: &ScreenData, section: SectionId, state: &TuiState) -> (r: SectionList)
    ensures
        exists|raw: Seq<RawItem>|
            raw_views(raw) == section_rows(*d, section)
            && list_view(r.items@) == #[trigger] grouped_spec(raw, state.collapsed_groups@, state.active_section),
        section == SectionId::Packages ==> match r.repo_bar {
            Some(s) => repo_bar_spec(d.repo_groups@) == Some(s@),
            None => repo_bar_spec(d.repo_groups@) is None,
        },
        section != SectionId::Packages ==> r.repo_bar is None,
{
    let raw = section_raw_items(d, section);
    let items = build_grouped_items(raw.as_slice(), state);
    let repo_bar = if section == SectionId::Packages { build_repo_bar_line(&d.repo_groups) } else { None };
    assert(raw_views(raw@) == section_rows(*d, section) && list_view(items@) == grouped_spec(raw@, state.collapsed_groups@, state.active_section));
    SectionList { repo_bar, items }
}

/// The reference sections: read-only facts of the host.
pub open spec fn is_reference_section(section: SectionId) -> bool {
    match section {
        SectionId::VerChanges | SectionId::KernelBoot | SectionId::Network | SectionId::Storage
        | SectionId::ScheduledTasks | SectionId::NonRpmSoftware | SectionId::SELinux => true,
        _ => false,
    }
}

/// Reference sections list read-only items: none of their rows carries a
/// toggle state.
pub proof fn law_reference_sections_read_only(d: ScreenData, section: SectionId)
    requires
        is_reference_section(section),
    ensures
        forall|k: int| 0 <= k < section_rows(d, section).len() ==> (#[trigger] section_rows(d, section)[k]).included is None,
{
    let rows = section_rows(d, section);
    assert forall|k: int| 0 <= k < rows.len() implies (#[trigger] rows[k]).included is None by {
        match section {
            SectionId::KernelBoot => {
                let kb = d.reference.kernel_boot;
                let a = opt_setting(kb.cmdline, "cmdline"@, true);
                let b = opt_setting(kb.grub_defaults, "grub defaults"@, true);
                let c = opt_setting(kb.tuned_active, "tuned active"@, false);
                let e = opt_setting(kb.locale, "locale"@, false);
                let f = opt_setting(kb.timezone, "timezone"@, false);
                assert(forall|j: int| 0 <= j < a.len() ==> (#[trigger] a[j]).included is None);
                assert(forall|j: int| 0 <= j < b.len() ==> (#[trigger] b[j]).included is None);
                assert(forall|j: int| 0 <= j < c.len() ==> (#[trigger] c[j]).included is None);
                assert(forall|j: int| 0 <= j < e.len() ==> (#[trigger] e[j]).included is None);
                assert(forall|j: int| 0 <= j < f.len() ==> (#[trigger] f[j]).included is None);
            },
            SectionId::Storage => {
                let u = unbacked_rows(d.reference.storage.unbacked_var_paths@);
                assert(forall|j: int| 0 <= j < u.len() ==> (#[trigger] u[j]).included is None);
            },
            _ => {},
        }
    }
}

/// Every row of the package, config, sysctl and tuned sections is a
/// decision: it carries its toggle state and an item id.
pub proof fn law_decision_rows_toggle(d: ScreenData, section: SectionId)
    requires
        section == SectionId::Packages || section == SectionId::Configs || section == SectionId::Sysctls
            || section == SectionId::Tuned,
    ensures
        forall|k: int| 0 <= k < section_rows(d, section).len() ==>
            (#[trigger] section_rows(d, section)[k]).included is Some && section_rows(d, section)[k].item_id is Some,
{
}

// ---- info bar and detail view of the selected item ----

/// The section at position `i` of the section order, packages when out
/// of range.
pub open spec fn section_at_or_packages(i: usize) -> SectionId {
    if i < section_order_spec().len() { section_order_spec()[i as int] } else { SectionId::Packages }
}

/// The name of a triage bucket.
pub open spec fn bucket_name(b: TriageBucket) -> Seq<char> {
    match b {
        TriageBucket::Investigate => "Investigate"@,
        TriageBucket::Site => "Site"@,
        TriageBucket::Baseline => "Baseline"@,
    }
}

fn bucket_name_exec(b: TriageBucket) -> (s: String)
    ensures
        s@ == bucket_name(b),
{
    match b {
        TriageBucket::Investigate => own("Investigate"),
        TriageBucket::Site => own("Site"),
        TriageBucket::Baseline => own("Baseline"),
    }
}

/// The first package decision with this name and arch.
pub open spec fn package_from(ps: Seq<PackageDecision>, name: Seq<char>, arch: Seq<char>, i: int) -> Option<int>
    decreases ps.len() - i,
{
    if i < 0 || i >= ps.len() {
        None
    } else if ps[i].name@ == name && ps[i].arch@ == arch {
        Some(i)
    } else {
        package_from(ps, name, arch, i + 1)
    }
}

/// The first config decision with this path.
pub open spec fn config_from(cs: Seq<ConfigDecision>, path: Seq<char>, i: int) -> Option<int>
    decreases cs.len() - i,
{
    if i < 0 || i >= cs.len() {
        None
    } else if cs[i].path@ == path {
        Some(i)
    } else {
        config_from(cs, path, i + 1)
    }
}

fn find_package(ps: &Vec<PackageDecision>, name: &str, arch: &str) -> (r: Option<usize>)
    ensures
        match r {
            Some(i) => package_from(ps@, name@, arch@, 0) == Some(i as int) && i < ps@.len(),
            None => package_from(ps@, name@, arch@, 0) is None,
        },
{
    let mut i: usize = 0;
    while i < ps.len()
        invariant
            0 <= i <= ps@.len(),
            package_from(ps@, name@, arch@, 0) == package_from(ps@, name@, arch@, i as int),
        decreases ps@.len() - i,
    {
        if crate::text::str_eq(ps[i].name.as_str(), name) && crate::text::str_eq(ps[i].arch.as_str(), arch) {
            return Some(i);
        }
        i = i + 1;
    }
    None
}

fn find_config(cs: &Vec<ConfigDecision>, path: &str) -> (r: Option<usize>)
    ensures
        match r {
            Some(i) => config_from(cs@, path@, 0) == Some(i as int) && i < cs@.len(),
            None => config_from(cs@, path@, 0) is None,
        },
{
    let mut i: usize = 0;
    while i < cs.len()
        invariant
            0 <= i <= cs@.len(),
            config_from(cs@, path@, 0) == config_from(cs@, path@, i as int),
        decreases cs@.len() - i,
    {
        if crate::text::str_eq(cs[i].path.as_str(), path) {
            return Some(i);
        }
        i = i + 1;
    }
    None
}

pub open spec fn repo_or_unknown(p: PackageDecision) -> Seq<char> {
    if p.source_repo@.len() == 0 { "unknown"@ } else { p.source_repo@ }
}

pub open spec fn detail_fields(detail: Seq<char>) -> Seq<(Seq<char>, Seq<char>)> {
    seq![("Detail"@, detail)]
}

/// The fields of the info bar for the selected row `it` of `section`.
pub open spec fn info_fields(d: ScreenData, section: SectionId, it: ListItemView) -> Seq<(Seq<char>, Seq<char>)> {
    match (section, it.item_id) {
        (SectionId::Packages, Some(ItemId::Package { name, arch })) => match package_from(d.packages@, name@, arch@, 0) {
            Some(i) => {
                let p = d.packages@[i];
                seq![("Version"@, p.version@), ("Repo"@, repo_or_unknown(p)), ("Triage"@, bucket_name(p.bucket))]
            },
            None => detail_fields(it.detail),
        },
        (SectionId::Configs, Some(ItemId::Config { path })) => match config_from(d.config_files@, path@, 0) {
            Some(i) => seq![("Kind"@, d.config_files@[i].kind@), ("Category"@, d.config_files@[i].category@)],
            None => detail_fields(it.detail),
        },
        _ => if it.detail.len() == 0 { Seq::empty() } else { detail_fields(it.detail) },
    }
}

/// The info bar of the row under the cursor: none past the end or on a
/// group header; otherwise the row's name and its section's fields.
pub open spec fn info_bar_spec(d: ScreenData, state: TuiState, items: Seq<ListItem>) -> Option<(Seq<char>, Seq<(Seq<char>, Seq<char>)>)> {
    if state.cursor >= items.len() {
        None
    } else {
        let it = list_item_view(items[state.cursor as int]);
        if it.is_group_header {
            None
        } else {
            Some((it.name, info_fields(d, section_at_or_packages(state.active_section), it)))
        }
    }
}

pub open spec fn info_view(b: InfoBarData) -> (Seq<char>, Seq<(Seq<char>, Seq<char>)>) {
    (b.name@, b.fields@.map_values(|f: (String, String)| (f.0@, f.1@)))
}

fn own_string(s: &String) -> (r: String)
    ensures
        r@ == s@,
{
    own(s.as_str())
}

fn field(k: &str, v: String) -> (f: (String, String))
    ensures
        f.0@ == k@,
        f.1@ == v@,
{
    (own(k), v)
}

fn section_at(i: usize) -> (s: SectionId)
    ensures
        s == section_at_or_packages(i),
{
    let order = section_order();
    if i < order.len() { order[i] } else { SectionId::Packages }
}

/// The info bar of the row under the cursor.
pub fn build_info_bar_data(d: &ScreenData, state: &TuiState, items: &Vec<ListItem>) -> (r: Option<InfoBarData>)
    ensures
        match r {
            Some(b) => info_bar_spec(*d, *state, items@) == Some(info_view(b)),
            None => info_bar_spec(*d, *state, items@) is None,
        },
{
    if state.cursor >= items.len() {
        return None;
    }
    let it = &items[state.cursor];
    if it.is_group_header {
        return None;
    }
    let section = section_at(state.active_section);
    let ghost iv = list_item_view(*it);
    let mut fields: Vec<(String, String)> = Vec::new();
    let mut handled = false;
    match (section, &it.item_id) {
        (SectionId::Packages, Some(ItemId::Package { name, arch })) => {
            handled = true;
            match find_package(&d.packages, name.as_str(), arch.as_str()) {
                Some(i) => {
                    let p = &d.packages[i];
                    fields.push(field("Version", own_string(&p.version)));
                    let repo = if crate::text::char_count(p.source_repo.as_str()) == 0 { own("unknown") } else { own_string(&p.source_repo) };
                    fields.push(field("Repo", repo));
                    fields.push(field("Triage", bucket_name_exec(p.bucket)));
                },
                None => fields.push(field("Detail", own_string(&it.detail))),
            }
        },
        (SectionId::Configs, Some(ItemId::Config { path })) => {
            handled = true;
            match find_config(&d.config_files, path.as_str()) {
                Some(i) => {
                    fields.push(field("Kind", own_string(&d.config_files[i].kind)));
                    fields.push(field("Category", own_string(&d.config_files[i].category)));
                },
                None => fields.push(field("Detail", own_string(&it.detail))),
            }
        },
        _ => {},
    }
    if !handled && crate::text::char_count(it.detail.as_str()) > 0 {
        fields.push(field("Detail", own_string(&it.detail)));
    }
    let b = InfoBarData { name: own_string(&it.name), fields };
    assert(info_view(b).1 =~= info_fields(*d, section, iv));
    Some(b)
}

/// Number of rows that are not group headers.
pub open spec fn entry_count(items: Seq<ListItem>) -> nat
    decreases items.len(),
{
    if items.len() == 0 {
        0
    } else {
        entry_count(items.drop_last()) + (if items.last().is_group_header { 0nat } else { 1nat })
    }
}

/// `N of M`: the cursor's place among the non-header rows.
pub open spec fn position_text(items: Seq<ListItem>, cursor: int) -> Seq<char> {
    decimal(entry_count(items.take(cursor + 1))) + " of "@ + decimal(entry_count(items))
}

pub open spec fn bool_text(b: bool) -> Seq<char> {
    if b { "true"@ } else { "false"@ }
}

/// The detail view content of a package.
pub open spec fn package_detail_text(p: PackageDecision) -> Seq<char> {
    "Name: "@ + p.name@ + "\nVersion: "@ + p.version@ + "\nArch: "@ + p.arch@ + "\nRepo: "@ + repo_or_unknown(p)
        + "\nTriage: "@ + bucket_name(p.bucket) + "\nInclude: "@ + bool_text(p.included)
}

/// A detail view, by value.
pub struct DetailView {
    pub title: Seq<char>,
    pub content: Seq<char>,
    pub content_type: DetailContentType,
    pub included: Option<bool>,
    pub position: Seq<char>,
}

pub open spec fn detail_data_view(d: DetailData) -> DetailView {
    DetailView { title: d.title@, content: d.content@, content_type: d.content_type, included: d.included, position: d.position@ }
}

/// The detail view of the row under the cursor: none past the end or on
/// a header; an advisory shows its rationale; a config its diff, else its
/// content; a package its summary (none when the row's config or package
/// is not in the session); anything else its detail text.
pub open spec fn detail_spec(d: ScreenData, state: TuiState, items: Seq<ListItem>) -> Option<DetailView> {
    if state.cursor >= items.len() {
        None
    } else {
        let it = list_item_view(items[state.cursor as int]);
        let position = position_text(items, state.cursor as int);
        if it.is_group_header {
            None
        } else if it.is_advisory {
            Some(DetailView {
                title: it.name,
                content: "Advisory: "@ + it.name + "\n\nType: informational\n\nRationale:\n"@ + match it.advisory_rationale {
                    Some(r) => r,
                    None => "No rationale available"@,
                },
                content_type: DetailContentType::Advisory,
                included: None,
                position,
            })
        } else {
            match (section_at_or_packages(state.active_section), it.item_id) {
                (SectionId::Configs, Some(ItemId::Config { path })) => match config_from(d.config_files@, path@, 0) {
                    Some(i) => {
                        let c = d.config_files@[i];
                        Some(DetailView {
                            title: c.path@,
                            content: match c.rpm_diff {
                                Some(diff) => diff@,
                                None => if c.content@.len() > 0 { c.content@ } else { "(no content available)"@ },
                            },
                            content_type: if c.rpm_diff is Some { DetailContentType::Diff } else { DetailContentType::PlainText },
                            included: Some(c.included),
                            position,
                        })
                    },
                    None => None,
                },
                (SectionId::Packages, Some(ItemId::Package { name, arch })) => match package_from(d.packages@, name@, arch@, 0) {
                    Some(i) => Some(DetailView {
                        title: it.name,
                        content: package_detail_text(d.packages@[i]),
                        content_type: DetailContentType::PlainText,
                        included: Some(d.packages@[i].included),
                        position,
                    }),
                    None => None,
                },
                _ => Some(DetailView {
                    title: it.name,
                    content: if it.detail.len() == 0 { "(no detail available)"@ } else { "Detail: "@ + it.detail },
                    content_type: DetailContentType::PlainText,
                    included: it.included,
                    position,
                }),
            }
        }
    }
}

fn count_entries(items: &Vec<ListItem>, n: usize) -> (c: usize)
    requires
        n <= items@.len(),
    ensures
        c == entry_count(items@.take(n as int)),
        c <= n,
{
    let mut c: usize = 0;
    let mut i: usize = 0;
    while i < n
        invariant
            0 <= i <= n <= items@.len(),
            c == entry_count(items@.take(i as int)),
            c <= i,
        decreases n - i,
    {
        assert(items@.take(i + 1).drop_last() =~= items@.take(i as int));
        if !items[i].is_group_header {
            c = c + 1;
        }
        i = i + 1;
    }
    c
}

fn position_exec(items: &Vec<ListItem>, cursor: usize) -> (s: String)
    requires
        cursor < items@.len(),
    ensures
        s@ == position_text(items@, cursor as int),
{
    let len = items.len();
    assert(cursor < len);
    let a = count_entries(items, cursor + 1);
    let b = count_entries(items, items.len());
    assert(items@.take(items@.len() as int) =~= items@);
    let mut s = String::new();
    push_decimal(&mut s, a);
    push_str(&mut s, " of ");
    push_decimal(&mut s, b);
    s
}

fn package_detail_exec(p: &PackageDecision) -> (s: String)
    ensures
        s@ == package_detail_text(*p),
{
    let mut s = own("Name: ");
    push_str(&mut s, p.name.as_str());
    push_str(&mut s, "\nVersion: ");
    push_str(&mut s, p.version.as_str());
    push_str(&mut s, "\nArch: ");
    push_str(&mut s, p.arch.as_str());
    push_str(&mut s, "\nRepo: ");
    if crate::text::char_count(p.source_repo.as_str()) == 0 {
        push_str(&mut s, "unknown");
    } else {
        push_str(&mut s, p.source_repo.as_str());
    }
    push_str(&mut s, "\nTriage: ");
    let b = bucket_name_exec(p.bucket);
    push_str(&mut s, b.as_str());
    push_str(&mut s, "\nInclude: ");
    push_str(&mut s, if p.included { "true" } else { "false" });
    assert(s@ =~= package_detail_text(*p));
    s
}

/// The detail view of the row under the cursor.
pub fn build_detail_data(d: &ScreenData, state: &TuiState, items: &Vec<ListItem>) -> (r: Option<DetailData>)
    ensures
        match r {
            Some(x) => detail_spec(*d, *state, items@) == Some(detail_data_view(x)),
            None => detail_spec(*d, *state, items@) is None,
        },
{
    if state.cursor >= items.len() {
        return None;
    }
    let it = &items[state.cursor];
    if it.is_group_header {
        return None;
    }
    let position = position_exec(items, state.cursor);
    if it.is_advisory {
        let mut content = own("Advisory: ");
        push_str(&mut content, it.name.as_str());
        push_str(&mut content, "\n\nType: informational\n\nRationale:\n");
        match &it.advisory_rationale {
            Some(r) => push_str(&mut content, r.as_str()),
            None => push_str(&mut content, "No rationale available"),
        }
        let x = DetailData { title: own_string(&it.name), content, content_type: DetailContentType::Advisory, included: None, position };
        assert(detail_data_view(x) == detail_spec(*d, *state, items@).unwrap());
        return Some(x);
    }
    let section = section_at(state.active_section);
    match (section, &it.item_id) {
        (SectionId::Configs, Some(ItemId::Config { path })) => {
            match find_config(&d.config_files, path.as_str()) {
                Some(i) => {
                    let c = &d.config_files[i];
                    let (content, content_type) = match &c.rpm_diff {
                        Some(diff) => (own_string(diff), DetailContentType::Diff),
                        None => if crate::text::char_count(c.content.as_str()) > 0 {
                            (own_string(&c.content), DetailContentType::PlainText)
                        } else {
                            (own("(no content available)"), DetailContentType::PlainText)
                        },
                    };
                    Some(DetailData { title: own_string(&c.path), content, content_type, included: Some(c.included), position })
                },
                None => None,
            }
        },
        (SectionId::Packages, Some(ItemId::Package { name, arch })) => {
            match find_package(&d.packages, name.as_str(), arch.as_str()) {
                Some(i) => {
                    let p = &d.packages[i];
                    Some(DetailData {
                        title: own_string(&it.name),
                        content: package_detail_exec(p),
                        content_type: DetailContentType::PlainText,
                        included: Some(p.included),
                        position,
                    })
                },
                None => None,
            }
        },
        _ => {
            let content = if crate::text::char_count(it.detail.as_str()) == 0 {
                own("(no detail available)")
            } else {
                let mut c = own("Detail: ");
                push_str(&mut c, it.detail.as_str());
                c
            };
            Some(DetailData { title: own_string(&it.name), content, content_type: DetailContentType::PlainText, included: it.included, position })
        },
    }
}

} // verus!
