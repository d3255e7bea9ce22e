//! The sections of the fleet view: decision sections (packages, configs,
//! services, containers, kernel parameters, tuned profiles, language
//! packages, unmanaged files) and read-only reference sections, built from
//! the merged snapshot and the refined view.

use vstd::prelude::*;
use crate::text::{push_decimal, push_str};
use crate::tui_types::{ItemId, ItemIdView};
use crate::web::aggregate::{
    agg_item_view, agg_items_view, aggregate_prevalence_dto, build_section, build_triage_dto, clamp_host_count, clamp_usize,
    context_triage_spec, default_context_triage, opt_view, prevalence_dto_spec, section_spec, section_view, sections_view, strings_view,
    triage_dto_view, triage_spec, zone_counts_ok, option_view, variants_view, AggregateContext, AggregateItem, AggregateItemView,
    AggregatePrevalenceDto, AggregateSection, AggregateTriageDto, AggregateVariantOption, AggregateVariants, HostPrevalence,
    LanguagePackageDto, SectionView, TriageDtoView, TriageTag, VariantOptionView, VariantSelection, VariantsView,
    package_dtos_view, FileMetadataView, FileVariantView, LanguageMetadataView, LanguagePackageMetadata,
    LanguagePackageVariantPayload, MetadataView, PackageListView, PayloadView, SectionMetadata, UnmanagedFileMetadata,
    UnmanagedFileProvenanceDto, UnmanagedFileVariantPayload, VariantFileMetadata, VariantPackageList, VariantPayload,
    repo_sources_view, RepoConflict, RepoSourceEntryDto,
};
use crate::web::grouping::{group_by_key, groups_of, grouped_by_key, indices_with, keys_view, lemma_group_members, lemma_groups_of, lemma_indices_with, KeyGroup};
use crate::web::view::{file_type_name, file_type_str, UnmanagedFile};

verus! {

// ---- what the view is built from ----

/// A package of the refined view.
#[derive(Clone, Debug)]
pub struct FleetPackage {
    pub name: String,
    pub arch: String,
    pub included: bool,
    pub locked: bool,
    pub source_repo: String,
    pub triage: TriageTag,
    pub aggregate: Option<HostPrevalence>,
}

/// One content variant of an entry: the hash of its content, whether it
/// is the chosen variant, and its prevalence.
#[derive(Clone, Debug)]
pub struct ContentVariant {
    pub content_hash: String,
    pub selection: VariantSelection,
    pub aggregate: Option<HostPrevalence>,
}

/// A config file entry of the merged snapshot: one per path and content
/// variant.
#[derive(Clone, Debug)]
pub struct ConfigFileVariant {
    pub path: String,
    /// Whether the file is a packaged default or matches the baseline.
    pub default_kind: bool,
    pub variant: ContentVariant,
}

/// A config file of the refined view.
#[derive(Clone, Debug)]
pub struct FleetConfig {
    pub path: String,
    /// The content hash of the file's content.
    pub content_hash: String,
    pub variant_selection: VariantSelection,
    pub included: bool,
    pub locked: bool,
    pub attention_reason: Option<String>,
    pub triage: TriageTag,
    pub aggregate: Option<HostPrevalence>,
}

/// The config files of the merged snapshot and of the refined view.
#[derive(Clone, Debug)]
pub struct FleetConfigs {
    pub files: Vec<ConfigFileVariant>,
    pub refined: Vec<FleetConfig>,
}

/// A service's state, as classified for the fleet.
#[derive(Clone, Debug)]
pub struct FleetService {
    pub unit: String,
    pub included: bool,
    pub locked: bool,
    pub attention_reason: Option<String>,
    pub triage: TriageTag,
    pub aggregate: Option<HostPrevalence>,
}

/// A drop-in override of a unit, one per content variant.
#[derive(Clone, Debug)]
pub struct FleetDropIn {
    pub unit: String,
    pub path: String,
    pub variant: ContentVariant,
    pub included: bool,
    pub locked: bool,
    pub attention_reason: Option<String>,
    pub triage: TriageTag,
}

/// A quadlet unit, one per content variant.
#[derive(Clone, Debug)]
pub struct FleetQuadlet {
    pub path: String,
    pub variant: ContentVariant,
    pub included: bool,
    pub locked: bool,
    pub triage: TriageTag,
}

/// A flatpak application.
#[derive(Clone, Debug)]
pub struct FleetFlatpak {
    pub app_id: String,
    pub remote: String,
    pub branch: String,
    pub included: bool,
    pub locked: bool,
    pub triage: TriageTag,
    pub aggregate: Option<HostPrevalence>,
}

/// A kernel parameter override, one per runtime value.
#[derive(Clone, Debug)]
pub struct FleetSysctl {
    pub key: String,
    pub runtime: String,
    pub included: bool,
    pub locked: bool,
    pub triage: TriageTag,
    pub aggregate: Option<HostPrevalence>,
}

/// The active tuned profile, as classified for the fleet.
#[derive(Clone, Debug)]
pub struct FleetTuned {
    pub active_profile: String,
    pub triage: TriageTag,
}

/// A compose file, one per variant of its images; the variant's hash is
/// that of the path followed by `:service=image` for each image.
#[derive(Clone, Debug)]
pub struct FleetCompose {
    pub path: String,
    pub variant: ContentVariant,
    pub included: bool,
    pub locked: bool,
}

/// A read-only entry of a reference section, by its identifying string
/// (a path, a mount point or a name).
#[derive(Clone, Debug)]
pub struct FleetEntry {
    pub name: String,
    pub included: bool,
    pub locked: bool,
    pub attention_reason: Option<String>,
    pub aggregate: Option<HostPrevalence>,
}

/// An SELinux port label.
#[derive(Clone, Debug)]
pub struct FleetPort {
    pub protocol: String,
    pub port: u32,
    pub included: bool,
    pub locked: bool,
    pub aggregate: Option<HostPrevalence>,
}

/// A non-RPM software item, one per content variant.
#[derive(Clone, Debug)]
pub struct FleetNonRpm {
    pub name: String,
    pub path: String,
    /// How the item was found (`pip list`, `venv`, `npm lockfile`, ...).
    pub method: String,
    pub confidence: String,
    pub packages: Vec<LanguagePackageDto>,
    /// The names of the environment's manifest files.
    pub manifest_files: Vec<String>,
    /// The content hash of the method and the sorted `name=version` list
    /// of the packages.
    pub variant_hash: String,
    pub included: bool,
    pub locked: bool,
    pub aggregate: Option<HostPrevalence>,
}

/// An unmanaged file, one per content variant.
pub struct FleetUnmanagedFile {
    pub file: UnmanagedFile,
    pub variant: ContentVariant,
    pub locked: bool,
}

/// The merged snapshot and refined view, as the fleet view reads them.
/// `packages` and `configs` are absent when the snapshot has no such
/// section; `tuned_included` is false without a kernel/boot section.
pub struct FleetSnapshot {
    pub packages: Option<Vec<FleetPackage>>,
    pub configs: Option<FleetConfigs>,
    pub services: Vec<FleetService>,
    pub dropins: Vec<FleetDropIn>,
    pub quadlets: Vec<FleetQuadlet>,
    pub flatpaks: Vec<FleetFlatpak>,
    pub sysctls: Vec<FleetSysctl>,
    pub tuned: Vec<FleetTuned>,
    pub tuned_included: bool,
    pub compose_files: Vec<FleetCompose>,
    pub connections: Vec<FleetEntry>,
    pub firewall_zones: Vec<FleetEntry>,
    pub fstab: Vec<FleetEntry>,
    pub cron_jobs: Vec<FleetEntry>,
    pub timers: Vec<FleetEntry>,
    pub selinux_ports: Vec<FleetPort>,
    pub kernel_modules: Vec<FleetEntry>,
    pub non_rpm: Vec<FleetNonRpm>,
    pub unmanaged_files: Vec<FleetUnmanagedFile>,
}

// ---- small pieces ----

fn own(x: &str) -> (r: String)
    ensures
        r@ == x@,
{
    x.to_owned()
}

fn copy_string(s: &String) -> (r: String)
    ensures
        r@ == s@,
{
    s.as_str().to_owned()
}

fn copy_opt(o: &Option<String>) -> (r: Option<String>)
    ensures
        opt_view(r) == opt_view(*o),
{
    match o {
        Some(s) => Some(copy_string(s)),
        None => None,
    }
}

fn copy_strings(v: &Vec<String>) -> (r: Vec<String>)
    ensures
        strings_view(r@) == strings_view(v@),
{
    let mut r: Vec<String> = Vec::new();
    let mut i: usize = 0;
    while i < v.len()
        invariant
            0 <= i <= v@.len(),
            strings_view(r@) == strings_view(v@).take(i as int),
        decreases v@.len() - i,
    {
        let ghost before = r@;
        r.push(copy_string(&v[i]));
        assert(strings_view(r@) =~= strings_view(before).push(v@[i as int]@));
        assert(strings_view(v@).take(i + 1) =~= strings_view(v@).take(i as int).push(v@[i as int]@));
        i = i + 1;
    }
    assert(strings_view(v@).take(v@.len() as int) =~= strings_view(v@));
    r
}

/// The hosts an entry occurs on, none without prevalence data.
pub open spec fn hosts_spec(fp: Option<HostPrevalence>) -> Seq<Seq<char>> {
    match fp {
        Some(f) => strings_view(f.hosts@),
        None => Seq::empty(),
    }
}

/// The number of hosts an entry occurs on, zero without prevalence data.
pub open spec fn host_count_spec(fp: Option<HostPrevalence>) -> usize {
    match fp {
        Some(f) => clamp_usize(f.count),
        None => 0,
    }
}

fn hosts_of(fp: &Option<HostPrevalence>) -> (r: Vec<String>)
    ensures
        strings_view(r@) == hosts_spec(*fp),
{
    match fp {
        Some(f) => copy_strings(&f.hosts),
        None => Vec::new(),
    }
}

fn host_count_of(fp: &Option<HostPrevalence>) -> (r: usize)
    ensures
        r == host_count_spec(*fp),
{
    match fp {
        Some(f) => clamp_host_count(f.count),
        None => 0,
    }
}

/// An item with no variants, repository or section data.
pub open spec fn plain_item(id: ItemIdView, included: bool, locked: bool, attention: Option<Seq<char>>, triage: TriageDtoView, prevalence: AggregatePrevalenceDto) -> AggregateItemView {
    AggregateItemView {
        item_id: id,
        included,
        locked,
        attention_reason: attention,
        triage,
        prevalence,
        variants: None,
        source_repo: Seq::empty(),
        repo_conflict: None,
        section_metadata: None,
        variant_payload: None,
    }
}

fn plain_item_exec(id: ItemId, included: bool, locked: bool, attention: Option<String>, triage: AggregateTriageDto, prevalence: AggregatePrevalenceDto) -> (r: AggregateItem)
    ensures
        agg_item_view(r) == plain_item(crate::tui_types::item_id_view(id), included, locked, opt_view(attention), triage_dto_view(triage), prevalence),
{
    AggregateItem {
        item_id: id,
        included,
        locked,
        attention_reason: attention,
        triage,
        prevalence,
        variants: None,
        source_repo: String::new(),
        repo_conflict: None,
        section_metadata: None,
        variant_payload: None,
    }
}

/// The section, when it has items.
pub open spec fn opt_section(id: Seq<char>, name: Seq<char>, decision: bool, items: Seq<AggregateItemView>, ctx: AggregateContext) -> Seq<SectionView> {
    if items.len() > 0 { seq![section_spec(id, name, decision, items, ctx.zones_active)] } else { Seq::empty() }
}

/// Every section from position `k` on has zone counts that match.
pub open spec fn counts_ok_from(v: Seq<AggregateSection>, k: int) -> bool {
    forall|i: int| k <= i < v.len() ==> zone_counts_ok(#[trigger] v[i])
}

/// Appending keeps sections whose counts matched matching.
pub open spec fn keeps_counts(before: Seq<AggregateSection>, after: Seq<AggregateSection>) -> bool {
    forall|k: int| 0 <= k <= before.len() && counts_ok_from(before, k) ==> #[trigger] counts_ok_from(after, k)
}

/// `after` starts with `before`: sections were only appended.
pub open spec fn extends(before: Seq<AggregateSection>, after: Seq<AggregateSection>) -> bool {
    after.len() >= before.len() && after.subrange(0, before.len() as int) == before
}

proof fn lemma_extends_trans(a: Seq<AggregateSection>, b: Seq<AggregateSection>, c: Seq<AggregateSection>)
    requires
        extends(a, b),
        extends(b, c),
    ensures
        extends(a, c),
{
    assert(c.subrange(0, a.len() as int) =~= b.subrange(0, a.len() as int));
}

fn push_section(out: &mut Vec<AggregateSection>, id: &str, name: &str, decision: bool, items: Vec<AggregateItem>, ctx: &AggregateContext)
    ensures
        extends(old(out)@, final(out)@),
        sections_view(final(out)@) == sections_view(old(out)@).push(section_spec(id@, name@, decision, agg_items_view(items@), ctx.zones_active)),
        keeps_counts(old(out)@, final(out)@),
{
    let s = build_section(id, name, decision, items, ctx);
    let ghost before = out@;
    out.push(s);
    assert(out@.subrange(0, before.len() as int) =~= before);
    assert(sections_view(out@) =~= sections_view(before).push(section_view(s)));
    assert forall|k: int| 0 <= k <= before.len() && counts_ok_from(before, k) implies #[trigger] counts_ok_from(out@, k) by {
        assert forall|i: int| k <= i < out@.len() implies zone_counts_ok(#[trigger] out@[i]) by {
            if i < before.len() {
                assert(out@[i] == before[i]);
            }
        }
    }
}

fn push_section_if(out: &mut Vec<AggregateSection>, id: &str, name: &str, decision: bool, items: Vec<AggregateItem>, ctx: &AggregateContext)
    ensures
        extends(old(out)@, final(out)@),
        sections_view(final(out)@) == sections_view(old(out)@) + opt_section(id@, name@, decision, agg_items_view(items@), *ctx),
        keeps_counts(old(out)@, final(out)@),
{
    if items.len() > 0 {
        push_section(out, id, name, decision, items, ctx);
        assert(sections_view(out@) =~= sections_view(old(out)@) + opt_section(id@, name@, decision, agg_items_view(items@), *ctx));
    } else {
        assert(sections_view(out@) =~= sections_view(old(out)@) + opt_section(id@, name@, decision, agg_items_view(items@), *ctx));
        assert(out@.subrange(0, out@.len() as int) =~= out@);
    }
}

fn push_item(out: &mut Vec<AggregateItem>, it: AggregateItem)
    ensures
        agg_items_view(final(out)@) == agg_items_view(old(out)@).push(agg_item_view(it)),
{
    let ghost before = out@;
    out.push(it);
    assert(agg_items_view(out@) =~= agg_items_view(before).push(agg_item_view(it)));
}

// ---- reference entries ----

/// The kinds of read-only entries, by the id they get.
#[derive(Clone, Copy, PartialEq, Eq, Structural)]
pub enum RefKind {
    Connection,
    FirewallZone,
    Fstab,
    CronJob,
    Timer,
    KernelModule,
}

pub open spec fn ref_id(kind: RefKind, name: Seq<char>) -> ItemIdView {
    match kind {
        RefKind::Connection => ItemIdView::NMConnection { path: name },
        RefKind::FirewallZone => ItemIdView::FirewallZone { path: name },
        RefKind::Fstab => ItemIdView::Fstab { mount_point: name },
        RefKind::CronJob => ItemIdView::CronJob { path: name },
        RefKind::Timer => ItemIdView::SystemdTimer { name },
        RefKind::KernelModule => ItemIdView::KernelModule { name },
    }
}

/// A read-only entry's item: context triage; only fstab entries carry
/// their attention reason.
pub open spec fn ref_item(e: FleetEntry, kind: RefKind, ctx: AggregateContext) -> AggregateItemView {
    plain_item(
        ref_id(kind, e.name@),
        e.included,
        e.locked,
        if kind == RefKind::Fstab { opt_view(e.attention_reason) } else { None },
        context_triage_spec(e.aggregate, ctx),
        prevalence_dto_spec(e.aggregate, ctx),
    )
}

fn ref_item_exec(e: &FleetEntry, kind: RefKind, ctx: &AggregateContext) -> (r: AggregateItem)
    ensures
        agg_item_view(r) == ref_item(*e, kind, *ctx),
{
    let name = copy_string(&e.name);
    let id = match kind {
        RefKind::Connection => ItemId::NMConnection { path: name },
        RefKind::FirewallZone => ItemId::FirewallZone { path: name },
        RefKind::Fstab => ItemId::Fstab { mount_point: name },
        RefKind::CronJob => ItemId::CronJob { path: name },
        RefKind::Timer => ItemId::SystemdTimer { name },
        RefKind::KernelModule => ItemId::KernelModule { name },
    };
    let attention = if kind == RefKind::Fstab { copy_opt(&e.attention_reason) } else { None };
    plain_item_exec(id, e.included, e.locked, attention, default_context_triage(&e.aggregate, ctx), aggregate_prevalence_dto(&e.aggregate, ctx))
}

fn push_refs(out: &mut Vec<AggregateItem>, es: &Vec<FleetEntry>, kind: RefKind, ctx: &AggregateContext)
    ensures
        agg_items_view(final(out)@) == agg_items_view(old(out)@) + es@.map_values(|e: FleetEntry| ref_item(e, kind, *ctx)),
{
    let ghost start = agg_items_view(out@);
    let mut i: usize = 0;
    while i < es.len()
        invariant
            0 <= i <= es@.len(),
            agg_items_view(out@) == start + es@.map_values(|e: FleetEntry| ref_item(e, kind, *ctx)).take(i as int),
        decreases es@.len() - i,
    {
        push_item(out, ref_item_exec(&es[i], kind, ctx));
        assert(es@.map_values(|e: FleetEntry| ref_item(e, kind, *ctx)).take(i + 1)
            =~= es@.map_values(|e: FleetEntry| ref_item(e, kind, *ctx)).take(i as int).push(ref_item(es@[i as int], kind, *ctx)));
        i = i + 1;
    }
    assert(es@.map_values(|e: FleetEntry| ref_item(e, kind, *ctx)).take(es@.len() as int) =~= es@.map_values(|e: FleetEntry| ref_item(e, kind, *ctx)));
}

/// A port label's item, identified by `protocol:port`.
pub open spec fn port_item(p: FleetPort, ctx: AggregateContext) -> AggregateItemView {
    plain_item(
        ItemIdView::SelinuxPort { protocol_port: p.protocol@ + ":"@ + crate::text::decimal(p.port as nat) },
        p.included,
        p.locked,
        None,
        context_triage_spec(p.aggregate, ctx),
        prevalence_dto_spec(p.aggregate, ctx),
    )
}

fn port_item_exec(p: &FleetPort, ctx: &AggregateContext) -> (r: AggregateItem)
    ensures
        agg_item_view(r) == port_item(*p, *ctx),
{
    let mut pp = copy_string(&p.protocol);
    push_str(&mut pp, ":");
    push_decimal(&mut pp, p.port as usize);
    plain_item_exec(ItemId::SelinuxPort { protocol_port: pp }, p.included, p.locked, None, default_context_triage(&p.aggregate, ctx), aggregate_prevalence_dto(&p.aggregate, ctx))
}

fn port_items(ps: &Vec<FleetPort>, ctx: &AggregateContext) -> (v: Vec<AggregateItem>)
    ensures
        agg_items_view(v@) == ps@.map_values(|p: FleetPort| port_item(p, *ctx)),
{
    let mut v: Vec<AggregateItem> = Vec::new();
    let mut i: usize = 0;
    while i < ps.len()
        invariant
            0 <= i <= ps@.len(),
            agg_items_view(v@) == ps@.map_values(|p: FleetPort| port_item(p, *ctx)).take(i as int),
        decreases ps@.len() - i,
    {
        push_item(&mut v, port_item_exec(&ps[i], ctx));
        assert(ps@.map_values(|p: FleetPort| port_item(p, *ctx)).take(i + 1)
            =~= ps@.map_values(|p: FleetPort| port_item(p, *ctx)).take(i as int).push(port_item(ps@[i as int], *ctx)));
        i = i + 1;
    }
    assert(ps@.map_values(|p: FleetPort| port_item(p, *ctx)).take(ps@.len() as int) =~= ps@.map_values(|p: FleetPort| port_item(p, *ctx)));
    v
}

} // verus!

verus! {

// ---- content variants ----

/// An entry that is one content variant of an item.
pub trait HasVariant {
    spec fn variant_spec(&self) -> ContentVariant;

    fn variant(&self) -> (r: &ContentVariant)
        ensures
            *r == self.variant_spec(),
    ;
}

impl HasVariant for FleetDropIn {
    open spec fn variant_spec(&self) -> ContentVariant {
        self.variant
    }

    fn variant(&self) -> (r: &ContentVariant) {
        &self.variant
    }
}

impl HasVariant for FleetQuadlet {
    open spec fn variant_spec(&self) -> ContentVariant {
        self.variant
    }

    fn variant(&self) -> (r: &ContentVariant) {
        &self.variant
    }
}

impl HasVariant for FleetCompose {
    open spec fn variant_spec(&self) -> ContentVariant {
        self.variant
    }

    fn variant(&self) -> (r: &ContentVariant) {
        &self.variant
    }
}

impl HasVariant for ConfigFileVariant {
    open spec fn variant_spec(&self) -> ContentVariant {
        self.variant
    }

    fn variant(&self) -> (r: &ContentVariant) {
        &self.variant
    }
}

/// The variants of the entries at `members` of `src`, in member order.
pub open spec fn member_variants<T: HasVariant>(src: Seq<T>, members: Seq<int>) -> Seq<ContentVariant> {
    members.map_values(|j: int| src[j].variant_spec())
}

/// A variant that stands for its item: the selected one, or the only one.
pub open spec fn chosen(v: ContentVariant) -> bool {
    v.selection == VariantSelection::Selected || v.selection == VariantSelection::Only
}

/// The position of the first chosen variant from `i` on; 0 when there is
/// none.
pub open spec fn first_chosen_from(vs: Seq<ContentVariant>, i: int) -> int
    decreases vs.len() - i,
{
    if i < 0 || i >= vs.len() {
        0
    } else if chosen(vs[i]) {
        i
    } else {
        first_chosen_from(vs, i + 1)
    }
}

/// The position of the variant that represents an item: the first chosen
/// one, else the first.
pub open spec fn rep_index(vs: Seq<ContentVariant>) -> int {
    first_chosen_from(vs, 0)
}

pub proof fn lemma_first_chosen_range(vs: Seq<ContentVariant>, i: int)
    requires
        vs.len() > 0,
    ensures
        0 <= first_chosen_from(vs, i) < vs.len(),
    decreases vs.len() - i,
{
    if 0 <= i < vs.len() && !chosen(vs[i]) {
        lemma_first_chosen_range(vs, i + 1);
    }
}

/// A variant as an option of its item: selected when it is the selected
/// variant, or the only one and its hash is the item's selected hash.
pub open spec fn variant_option(v: ContentVariant, selected: Seq<char>) -> VariantOptionView {
    VariantOptionView {
        hash: v.content_hash@,
        hosts: hosts_spec(v.aggregate),
        host_count: host_count_spec(v.aggregate),
        selected: v.selection == VariantSelection::Selected || (v.selection == VariantSelection::Only && v.content_hash@ == selected),
    }
}

/// The variants of an item given the hash of its selected variant.
pub open spec fn variants_with(vs: Seq<ContentVariant>, selected: Seq<char>) -> VariantsView {
    VariantsView {
        count: vs.len() as usize,
        selected,
        options: vs.map_values(|v: ContentVariant| variant_option(v, selected)),
    }
}

/// The variants of an item whose selected hash is that of its
/// representative variant.
pub open spec fn content_variants(vs: Seq<ContentVariant>) -> VariantsView {
    variants_with(vs, vs[rep_index(vs)].content_hash@)
}

fn option_exec(v: &ContentVariant, selected: &str) -> (r: AggregateVariantOption)
    ensures
        option_view(r) == variant_option(*v, selected@),
{
    let is_selected = match v.selection {
        VariantSelection::Selected => true,
        VariantSelection::Only => crate::text::str_eq(v.content_hash.as_str(), selected),
        VariantSelection::Alternative => false,
    };
    AggregateVariantOption { hash: copy_string(&v.content_hash), hosts: hosts_of(&v.aggregate), host_count: host_count_of(&v.aggregate), selected: is_selected }
}

/// The representative of the entries at `members`.
fn rep_member<T: HasVariant>(src: &Vec<T>, members: &Vec<usize>) -> (r: usize)
    requires
        members@.len() > 0,
        forall|j: int| 0 <= j < members@.len() ==> #[trigger] members@[j] < src@.len(),
    ensures
        r < members@.len(),
        r == rep_index(member_variants(src@, members@.map_values(|m: usize| m as int))),
{
    let ghost vs = member_variants(src@, members@.map_values(|m: usize| m as int));
    let mut i: usize = 0;
    while i < members.len()
        invariant
            0 <= i <= members@.len(),
            vs == member_variants(src@, members@.map_values(|m: usize| m as int)),
            vs.len() == members@.len(),
            forall|j: int| 0 <= j < members@.len() ==> #[trigger] members@[j] < src@.len(),
            first_chosen_from(vs, 0) == first_chosen_from(vs, i as int),
        decreases members@.len() - i,
    {
        let v = src[members[i]].variant();
        assert(vs[i as int] == *v);
        match v.selection {
            VariantSelection::Selected => {
                return i;
            },
            VariantSelection::Only => {
                return i;
            },
            VariantSelection::Alternative => {},
        }
        i = i + 1;
    }
    0
}

/// The variants of the entries at `members`, given the selected hash.
fn variants_of<T: HasVariant>(src: &Vec<T>, members: &Vec<usize>, selected: &str) -> (r: AggregateVariants)
    requires
        forall|j: int| 0 <= j < members@.len() ==> #[trigger] members@[j] < src@.len(),
    ensures
        variants_view(r) == variants_with(member_variants(src@, members@.map_values(|m: usize| m as int)), selected@),
{
    let ghost vs = member_variants(src@, members@.map_values(|m: usize| m as int));
    let mut options: Vec<AggregateVariantOption> = Vec::new();
    let mut i: usize = 0;
    while i < members.len()
        invariant
            0 <= i <= members@.len(),
            vs == member_variants(src@, members@.map_values(|m: usize| m as int)),
            vs.len() == members@.len(),
            forall|j: int| 0 <= j < members@.len() ==> #[trigger] members@[j] < src@.len(),
            options@.map_values(|o: AggregateVariantOption| option_view(o)) == vs.map_values(|v: ContentVariant| variant_option(v, selected@)).take(i as int),
        decreases members@.len() - i,
    {
        let v = src[members[i]].variant();
        assert(vs[i as int] == *v);
        let o = option_exec(v, selected);
        let ghost before = options@;
        options.push(o);
        assert(options@.map_values(|o: AggregateVariantOption| option_view(o)) =~= before.map_values(|o: AggregateVariantOption| option_view(o)).push(option_view(o)));
        assert(vs.map_values(|v: ContentVariant| variant_option(v, selected@)).take(i + 1)
            =~= vs.map_values(|v: ContentVariant| variant_option(v, selected@)).take(i as int).push(variant_option(vs[i as int], selected@)));
        i = i + 1;
    }
    assert(vs.map_values(|v: ContentVariant| variant_option(v, selected@)).take(members@.len() as int) =~= vs.map_values(|v: ContentVariant| variant_option(v, selected@)));
    AggregateVariants { count: members.len(), selected: own(selected), options }
}

/// The variants of the entries at `members`, selected by their
/// representative.
fn content_variants_of<T: HasVariant>(src: &Vec<T>, members: &Vec<usize>) -> (r: AggregateVariants)
    requires
        members@.len() > 0,
        forall|j: int| 0 <= j < members@.len() ==> #[trigger] members@[j] < src@.len(),
    ensures
        variants_view(r) == content_variants(member_variants(src@, members@.map_values(|m: usize| m as int))),
{
    let k = rep_member(src, members);
    let v = src[members[k]].variant();
    let ghost vs = member_variants(src@, members@.map_values(|m: usize| m as int));
    assert(vs[k as int] == *v);
    variants_of(src, members, v.content_hash.as_str())
}

} // verus!

verus! {

// ---- grouped entries ----

pub type KeyView = (Seq<char>, Seq<char>);

pub open spec fn members_view(g: KeyGroup) -> Seq<int> {
    g.members@.map_values(|m: usize| m as int)
}

/// The entries at `members` of `src`, in member order.
pub open spec fn members_of<T>(src: Seq<T>, members: Seq<int>) -> Seq<T> {
    members.map_values(|j: int| src[j])
}

proof fn lemma_group_valid(keys: Seq<KeyView>, gs: Seq<KeyGroup>, g: int)
    requires
        grouped_by_key(keys, crate::web::grouping::groups_view(gs)),
        0 <= g < gs.len(),
    ensures
        gs[g].members@.len() > 0,
        forall|j: int| 0 <= j < gs[g].members@.len() ==> #[trigger] gs[g].members@[j] < keys.len()
            && keys[gs[g].members@[j] as int] == (gs[g].first@, gs[g].second@),
{
    let gv = crate::web::grouping::groups_view(gs);
    lemma_group_members(keys, gv, g);
    assert(gv[g] == crate::web::grouping::group_view(gs[g]));
    assert forall|j: int| 0 <= j < gs[g].members@.len() implies #[trigger] gs[g].members@[j] < keys.len()
        && keys[gs[g].members@[j] as int] == (gs[g].first@, gs[g].second@) by {
        assert(gv[g].1[j] == gs[g].members@[j] as int);
    }
}

/// A drop-in item: one per unit and path, shown by its representative
/// variant, with the variants listed when there are several.
pub open spec fn dropin_group_item(ds: Seq<FleetDropIn>, g: (KeyView, Seq<int>), ctx: AggregateContext) -> AggregateItemView {
    let vs = member_variants(ds, g.1);
    let r = ds[g.1[rep_index(vs)]];
    AggregateItemView {
        item_id: ItemIdView::DropIn { path: g.0.1 },
        included: r.included,
        locked: r.locked,
        attention_reason: opt_view(r.attention_reason),
        triage: triage_spec(r.triage, r.variant.aggregate, ctx),
        prevalence: prevalence_dto_spec(r.variant.aggregate, ctx),
        variants: if g.1.len() >= 2 { Some(content_variants(vs)) } else { None },
        source_repo: Seq::empty(),
        repo_conflict: None,
        section_metadata: None,
        variant_payload: None,
    }
}



/// A quadlet item: one per path, shown by its representative variant.
pub open spec fn quadlet_group_item(qs: Seq<FleetQuadlet>, g: (KeyView, Seq<int>), ctx: AggregateContext) -> AggregateItemView {
    let vs = member_variants(qs, g.1);
    let r = qs[g.1[rep_index(vs)]];
    AggregateItemView {
        item_id: ItemIdView::Quadlet { path: g.0.0 },
        included: r.included,
        locked: r.locked,
        attention_reason: None,
        triage: triage_spec(r.triage, r.variant.aggregate, ctx),
        prevalence: prevalence_dto_spec(r.variant.aggregate, ctx),
        variants: if g.1.len() >= 2 { Some(content_variants(vs)) } else { None },
        source_repo: Seq::empty(),
        repo_conflict: None,
        section_metadata: None,
        variant_payload: None,
    }
}



/// A compose file item: one per path, read-only, shown by its
/// representative variant.
pub open spec fn compose_group_item(cs: Seq<FleetCompose>, g: (KeyView, Seq<int>), ctx: AggregateContext) -> AggregateItemView {
    let vs = member_variants(cs, g.1);
    let r = cs[g.1[rep_index(vs)]];
    AggregateItemView {
        item_id: ItemIdView::Compose { path: g.0.0 },
        included: r.included,
        locked: r.locked,
        attention_reason: None,
        triage: context_triage_spec(r.variant.aggregate, ctx),
        prevalence: prevalence_dto_spec(r.variant.aggregate, ctx),
        variants: if g.1.len() >= 2 { Some(content_variants(vs)) } else { None },
        source_repo: Seq::empty(),
        repo_conflict: None,
        section_metadata: None,
        variant_payload: None,
    }
}



/// The count a kernel parameter's value is ranked by: its prevalence
/// count, zero without prevalence data.
pub open spec fn sysctl_count(s: FleetSysctl) -> i32 {
    match s.aggregate {
        Some(f) => f.count,
        None => 0,
    }
}

/// The position of the most prevalent value, the last one among equals.
pub open spec fn best_index(ss: Seq<FleetSysctl>) -> int
    decreases ss.len(),
{
    if ss.len() <= 1 {
        0
    } else {
        let b = best_index(ss.drop_last());
        if sysctl_count(ss.last()) >= sysctl_count(ss[b]) { ss.len() - 1 } else { b }
    }
}

/// The values of a kernel parameter as variants, each identified by the
/// value itself.
pub open spec fn sysctl_variants(ss: Seq<FleetSysctl>, selected: Seq<char>) -> VariantsView {
    VariantsView {
        count: ss.len() as usize,
        selected,
        options: ss.map_values(|s: FleetSysctl| VariantOptionView {
            hash: s.runtime@,
            hosts: hosts_spec(s.aggregate),
            host_count: host_count_spec(s.aggregate),
            selected: s.runtime@ == selected,
        }),
    }
}

/// A kernel parameter item: one per key, shown by its most prevalent
/// value, with the values listed when there are several.
pub open spec fn sysctl_group_item(ss: Seq<FleetSysctl>, g: (KeyView, Seq<int>), ctx: AggregateContext) -> AggregateItemView {
    let es = members_of(ss, g.1);
    let r = es[best_index(es)];
    AggregateItemView {
        item_id: ItemIdView::Sysctl { key: g.0.0 },
        included: r.included,
        locked: r.locked,
        attention_reason: None,
        triage: triage_spec(r.triage, r.aggregate, ctx),
        prevalence: prevalence_dto_spec(r.aggregate, ctx),
        variants: if g.1.len() >= 2 { Some(sysctl_variants(es, r.runtime@)) } else { None },
        source_repo: Seq::empty(),
        repo_conflict: None,
        section_metadata: None,
        variant_payload: None,
    }
}



fn dropin_group_exec(ds: &Vec<FleetDropIn>, g: &KeyGroup, ctx: &AggregateContext) -> (r: AggregateItem)
    requires
        g.members@.len() > 0,
        forall|j: int| 0 <= j < g.members@.len() ==> #[trigger] g.members@[j] < ds@.len(),
    ensures
        agg_item_view(r) == dropin_group_item(ds@, crate::web::grouping::group_view(*g), *ctx),
{
    let k = rep_member(ds, &g.members);
    let d = &ds[g.members[k]];
    let variants = if g.members.len() >= 2 { Some(content_variants_of(ds, &g.members)) } else { None };
    let r = AggregateItem {
        item_id: ItemId::DropIn { path: copy_string(&g.second) },
        included: d.included,
        locked: d.locked,
        attention_reason: copy_opt(&d.attention_reason),
        triage: build_triage_dto(&d.triage, &d.variant.aggregate, ctx),
        prevalence: aggregate_prevalence_dto(&d.variant.aggregate, ctx),
        variants,
        source_repo: String::new(),
        repo_conflict: None,
        section_metadata: None,
        variant_payload: None,
    };
    assert(members_view(*g)[k as int] == g.members@[k as int] as int);
    assert(agg_item_view(r) =~= dropin_group_item(ds@, crate::web::grouping::group_view(*g), *ctx));
    r
}


fn quadlet_group_exec(qs: &Vec<FleetQuadlet>, g: &KeyGroup, ctx: &AggregateContext) -> (r: AggregateItem)
    requires
        g.members@.len() > 0,
        forall|j: int| 0 <= j < g.members@.len() ==> #[trigger] g.members@[j] < qs@.len(),
    ensures
        agg_item_view(r) == quadlet_group_item(qs@, crate::web::grouping::group_view(*g), *ctx),
{
    let k = rep_member(qs, &g.members);
    let q = &qs[g.members[k]];
    let variants = if g.members.len() >= 2 { Some(content_variants_of(qs, &g.members)) } else { None };
    let r = AggregateItem {
        item_id: ItemId::Quadlet { path: copy_string(&g.first) },
        included: q.included,
        locked: q.locked,
        attention_reason: None,
        triage: build_triage_dto(&q.triage, &q.variant.aggregate, ctx),
        prevalence: aggregate_prevalence_dto(&q.variant.aggregate, ctx),
        variants,
        source_repo: String::new(),
        repo_conflict: None,
        section_metadata: None,
        variant_payload: None,
    };
    assert(members_view(*g)[k as int] == g.members@[k as int] as int);
    assert(agg_item_view(r) =~= quadlet_group_item(qs@, crate::web::grouping::group_view(*g), *ctx));
    r
}

fn compose_group_exec(cs: &Vec<FleetCompose>, g: &KeyGroup, ctx: &AggregateContext) -> (r: AggregateItem)
    requires
        g.members@.len() > 0,
        forall|j: int| 0 <= j < g.members@.len() ==> #[trigger] g.members@[j] < cs@.len(),
    ensures
        agg_item_view(r) == compose_group_item(cs@, crate::web::grouping::group_view(*g), *ctx),
{
    let k = rep_member(cs, &g.members);
    let c = &cs[g.members[k]];
    let variants = if g.members.len() >= 2 { Some(content_variants_of(cs, &g.members)) } else { None };
    let r = AggregateItem {
        item_id: ItemId::Compose { path: copy_string(&g.first) },
        included: c.included,
        locked: c.locked,
        attention_reason: None,
        triage: default_context_triage(&c.variant.aggregate, ctx),
        prevalence: aggregate_prevalence_dto(&c.variant.aggregate, ctx),
        variants,
        source_repo: String::new(),
        repo_conflict: None,
        section_metadata: None,
        variant_payload: None,
    };
    assert(members_view(*g)[k as int] == g.members@[k as int] as int);
    assert(agg_item_view(r) =~= compose_group_item(cs@, crate::web::grouping::group_view(*g), *ctx));
    r
}

fn count_of(s: &FleetSysctl) -> (c: i32)
    ensures
        c == sysctl_count(*s),
{
    match &s.aggregate {
        Some(f) => f.count,
        None => 0,
    }
}

/// The member with the most prevalent value, the last among equals.
fn best_member(ss: &Vec<FleetSysctl>, members: &Vec<usize>) -> (b: usize)
    requires
        members@.len() > 0,
        forall|j: int| 0 <= j < members@.len() ==> #[trigger] members@[j] < ss@.len(),
    ensures
        b < members@.len(),
        b == best_index(members_of(ss@, members@.map_values(|m: usize| m as int))),
{
    let ghost es = members_of(ss@, members@.map_values(|m: usize| m as int));
    let mut b: usize = 0;
    let mut i: usize = 1;
    assert(es.take(1).len() == 1);
    while i < members.len()
        invariant
            1 <= i <= members@.len(),
            es == members_of(ss@, members@.map_values(|m: usize| m as int)),
            es.len() == members@.len(),
            forall|j: int| 0 <= j < members@.len() ==> #[trigger] members@[j] < ss@.len(),
            b < i,
            b == best_index(es.take(i as int)),
        decreases members@.len() - i,
    {
        let ghost pre = es.take(i as int);
        let ghost nxt = es.take(i + 1);
        assert(nxt.drop_last() =~= pre);
        assert(nxt.last() == es[i as int]);
        assert(nxt[b as int] == es[b as int]);
        assert(es[i as int] == ss@[members@[i as int] as int]);
        assert(es[b as int] == ss@[members@[b as int] as int]);
        if count_of(&ss[members[i]]) >= count_of(&ss[members[b]]) {
            b = i;
        }
        i = i + 1;
    }
    assert(es.take(members@.len() as int) =~= es);
    b
}

fn sysctl_variants_exec(ss: &Vec<FleetSysctl>, members: &Vec<usize>, selected: &str) -> (r: AggregateVariants)
    requires
        forall|j: int| 0 <= j < members@.len() ==> #[trigger] members@[j] < ss@.len(),
    ensures
        variants_view(r) == sysctl_variants(members_of(ss@, members@.map_values(|m: usize| m as int)), selected@),
{
    let ghost es = members_of(ss@, members@.map_values(|m: usize| m as int));
    let ghost want = sysctl_variants(es, selected@).options;
    let mut options: Vec<AggregateVariantOption> = Vec::new();
    let mut i: usize = 0;
    while i < members.len()
        invariant
            0 <= i <= members@.len(),
            es == members_of(ss@, members@.map_values(|m: usize| m as int)),
            es.len() == members@.len(),
            want == sysctl_variants(es, selected@).options,
            forall|j: int| 0 <= j < members@.len() ==> #[trigger] members@[j] < ss@.len(),
            options@.map_values(|o: AggregateVariantOption| option_view(o)) == want.take(i as int),
        decreases members@.len() - i,
    {
        let s = &ss[members[i]];
        assert(es[i as int] == *s);
        let o = AggregateVariantOption {
            hash: copy_string(&s.runtime),
            hosts: hosts_of(&s.aggregate),
            host_count: host_count_of(&s.aggregate),
            selected: crate::text::str_eq(s.runtime.as_str(), selected),
        };
        let ghost before = options@;
        options.push(o);
        assert(options@.map_values(|o: AggregateVariantOption| option_view(o)) =~= before.map_values(|o: AggregateVariantOption| option_view(o)).push(option_view(o)));
        assert(want.take(i + 1) =~= want.take(i as int).push(want[i as int]));
        i = i + 1;
    }
    assert(want.take(members@.len() as int) =~= want);
    AggregateVariants { count: members.len(), selected: own(selected), options }
}

fn sysctl_group_exec(ss: &Vec<FleetSysctl>, g: &KeyGroup, ctx: &AggregateContext) -> (r: AggregateItem)
    requires
        g.members@.len() > 0,
        forall|j: int| 0 <= j < g.members@.len() ==> #[trigger] g.members@[j] < ss@.len(),
    ensures
        agg_item_view(r) == sysctl_group_item(ss@, crate::web::grouping::group_view(*g), *ctx),
{
    let ghost es = members_of(ss@, members_view(*g));
    let b = best_member(ss, &g.members);
    let s = &ss[g.members[b]];
    assert(es[b as int] == *s);
    let variants = if g.members.len() >= 2 { Some(sysctl_variants_exec(ss, &g.members, s.runtime.as_str())) } else { None };
    let r = AggregateItem {
        item_id: ItemId::Sysctl { key: copy_string(&g.first) },
        included: s.included,
        locked: s.locked,
        attention_reason: None,
        triage: build_triage_dto(&s.triage, &s.aggregate, ctx),
        prevalence: aggregate_prevalence_dto(&s.aggregate, ctx),
        variants,
        source_repo: String::new(),
        repo_conflict: None,
        section_metadata: None,
        variant_payload: None,
    };
    assert(agg_item_view(r) =~= sysctl_group_item(ss@, crate::web::grouping::group_view(*g), *ctx));
    r
}

/// Entries grouped into one item per key.
pub trait Grouped: Sized {
    spec fn key_spec(&self) -> KeyView;

    spec fn group_item(src: Seq<Self>, g: (KeyView, Seq<int>), ctx: AggregateContext) -> AggregateItemView;

    fn key_exec(&self) -> (r: (String, String))
        ensures
            crate::web::grouping::key_of(r) == self.key_spec(),
    ;

    fn group_exec(src: &Vec<Self>, g: &KeyGroup, ctx: &AggregateContext) -> (r: AggregateItem)
        requires
            g.members@.len() > 0,
            forall|j: int| 0 <= j < g.members@.len() ==> #[trigger] g.members@[j] < src@.len(),
        ensures
            agg_item_view(r) == Self::group_item(src@, crate::web::grouping::group_view(*g), *ctx),
    ;
}

impl Grouped for FleetDropIn {
    /// Drop-ins are grouped by unit and path.
    open spec fn key_spec(&self) -> KeyView {
        (self.unit@, self.path@)
    }

    open spec fn group_item(src: Seq<Self>, g: (KeyView, Seq<int>), ctx: AggregateContext) -> AggregateItemView {
        dropin_group_item(src, g, ctx)
    }

    fn key_exec(&self) -> (r: (String, String)) {
        (copy_string(&self.unit), copy_string(&self.path))
    }

    fn group_exec(src: &Vec<Self>, g: &KeyGroup, ctx: &AggregateContext) -> (r: AggregateItem) {
        dropin_group_exec(src, g, ctx)
    }
}

impl Grouped for FleetQuadlet {
    open spec fn key_spec(&self) -> KeyView {
        (self.path@, Seq::<char>::empty())
    }

    open spec fn group_item(src: Seq<Self>, g: (KeyView, Seq<int>), ctx: AggregateContext) -> AggregateItemView {
        quadlet_group_item(src, g, ctx)
    }

    fn key_exec(&self) -> (r: (String, String)) {
        (copy_string(&self.path), String::new())
    }

    fn group_exec(src: &Vec<Self>, g: &KeyGroup, ctx: &AggregateContext) -> (r: AggregateItem) {
        quadlet_group_exec(src, g, ctx)
    }
}

impl Grouped for FleetCompose {
    open spec fn key_spec(&self) -> KeyView {
        (self.path@, Seq::<char>::empty())
    }

    open spec fn group_item(src: Seq<Self>, g: (KeyView, Seq<int>), ctx: AggregateContext) -> AggregateItemView {
        compose_group_item(src, g, ctx)
    }

    fn key_exec(&self) -> (r: (String, String)) {
        (copy_string(&self.path), String::new())
    }

    fn group_exec(src: &Vec<Self>, g: &KeyGroup, ctx: &AggregateContext) -> (r: AggregateItem) {
        compose_group_exec(src, g, ctx)
    }
}

impl Grouped for FleetSysctl {
    open spec fn key_spec(&self) -> KeyView {
        (self.key@, Seq::<char>::empty())
    }

    open spec fn group_item(src: Seq<Self>, g: (KeyView, Seq<int>), ctx: AggregateContext) -> AggregateItemView {
        sysctl_group_item(src, g, ctx)
    }

    fn key_exec(&self) -> (r: (String, String)) {
        (copy_string(&self.key), String::new())
    }

    fn group_exec(src: &Vec<Self>, g: &KeyGroup, ctx: &AggregateContext) -> (r: AggregateItem) {
        sysctl_group_exec(src, g, ctx)
    }
}

pub open spec fn entry_keys<T: Grouped>(src: Seq<T>) -> Seq<KeyView> {
    src.map_values(|e: T| e.key_spec())
}

/// One item per key of the entries, keys in increasing order.
pub open spec fn grouped_items<T: Grouped>(src: Seq<T>, ctx: AggregateContext) -> Seq<AggregateItemView> {
    groups_of(entry_keys(src)).map_values(|g: (KeyView, Seq<int>)| T::group_item(src, g, ctx))
}

fn keys_exec<T: Grouped>(src: &Vec<T>) -> (v: Vec<(String, String)>)
    ensures
        keys_view(v@) == entry_keys(src@),
{
    let mut v: Vec<(String, String)> = Vec::new();
    let mut i: usize = 0;
    while i < src.len()
        invariant
            0 <= i <= src@.len(),
            keys_view(v@) == entry_keys(src@).take(i as int),
        decreases src@.len() - i,
    {
        let k = src[i].key_exec();
        let ghost before = v@;
        v.push(k);
        assert(keys_view(v@) =~= keys_view(before).push(crate::web::grouping::key_of(k)));
        assert(entry_keys(src@).take(i + 1) =~= entry_keys(src@).take(i as int).push(src@[i as int].key_spec()));
        i = i + 1;
    }
    assert(entry_keys(src@).take(src@.len() as int) =~= entry_keys(src@));
    v
}

fn push_grouped<T: Grouped>(out: &mut Vec<AggregateItem>, src: &Vec<T>, ctx: &AggregateContext)
    ensures
        agg_items_view(final(out)@) == agg_items_view(old(out)@) + grouped_items(src@, *ctx),
{
    let keys = keys_exec(src);
    let groups = group_by_key(&keys);
    let ghost kv = keys_view(keys@);
    let ghost gv = crate::web::grouping::groups_view(groups@);
    let ghost want = grouped_items(src@, *ctx);
    proof {
        lemma_groups_of(kv, gv);
        assert(want =~= gv.map_values(|g: (KeyView, Seq<int>)| T::group_item(src@, g, *ctx)));
    }
    let ghost start = agg_items_view(out@);
    let mut i: usize = 0;
    while i < groups.len()
        invariant
            0 <= i <= groups@.len(),
            kv == keys_view(keys@),
            kv.len() == src@.len(),
            gv == crate::web::grouping::groups_view(groups@),
            grouped_by_key(kv, gv),
            want == gv.map_values(|g: (KeyView, Seq<int>)| T::group_item(src@, g, *ctx)),
            agg_items_view(out@) == start + want.take(i as int),
        decreases groups@.len() - i,
    {
        proof {
            lemma_group_valid(kv, groups@, i as int);
        }
        let it = T::group_exec(src, &groups[i], ctx);
        push_item(out, it);
        assert(gv[i as int] == crate::web::grouping::group_view(groups@[i as int]));
        assert(want.take(i + 1) =~= want.take(i as int).push(want[i as int]));
        i = i + 1;
    }
    assert(want.take(groups@.len() as int) =~= want);
}

} // verus!

verus! {

// ---- sibling variants ----

/// The positions of the entries whose key is `k`.
fn positions_of(keys: &Vec<(String, String)>, a: &str, b: &str) -> (v: Vec<usize>)
    ensures
        v@.map_values(|m: usize| m as int) == indices_with(keys_view(keys@), (a@, b@)),
        forall|j: int| 0 <= j < v@.len() ==> #[trigger] v@[j] < keys@.len(),
{
    let ghost kv = keys_view(keys@);
    let mut v: Vec<usize> = Vec::new();
    let mut i: usize = 0;
    while i < keys.len()
        invariant
            0 <= i <= keys@.len(),
            kv == keys_view(keys@),
            v@.map_values(|m: usize| m as int) == indices_with(kv.take(i as int), (a@, b@)),
            forall|j: int| 0 <= j < v@.len() ==> #[trigger] v@[j] < i,
        decreases keys@.len() - i,
    {
        let ghost before = v@;
        assert(kv.take(i + 1).drop_last() =~= kv.take(i as int));
        assert(kv.take(i + 1).last() == kv[i as int]);
        assert(kv[i as int] == (keys@[i as int].0@, keys@[i as int].1@));
        if crate::text::str_eq(keys[i].0.as_str(), a) && crate::text::str_eq(keys[i].1.as_str(), b) {
            v.push(i);
            assert(v@.map_values(|m: usize| m as int) =~= before.map_values(|m: usize| m as int).push(i as int));
        }
        i = i + 1;
    }
    assert(kv.take(keys@.len() as int) =~= kv);
    v
}

/// The hash of the first selected option, empty when none is selected.
pub open spec fn first_selected_hash(os: Seq<VariantOptionView>) -> Seq<char>
    decreases os.len(),
{
    if os.len() == 0 {
        Seq::empty()
    } else if os[0].selected {
        os[0].hash
    } else {
        first_selected_hash(os.drop_first())
    }
}

fn first_selected_exec(os: &Vec<AggregateVariantOption>) -> (r: String)
    ensures
        r@ == first_selected_hash(os@.map_values(|o: AggregateVariantOption| option_view(o))),
{
    let ghost ov = os@.map_values(|o: AggregateVariantOption| option_view(o));
    let mut i: usize = 0;
    assert(ov.skip(0) =~= ov);
    while i < os.len()
        invariant
            0 <= i <= os@.len(),
            ov == os@.map_values(|o: AggregateVariantOption| option_view(o)),
            first_selected_hash(ov) == first_selected_hash(ov.skip(i as int)),
        decreases os@.len() - i,
    {
        assert(ov.skip(i as int)[0] == option_view(os@[i as int]));
        if os[i].selected {
            return copy_string(&os[i].hash);
        }
        assert(ov.skip(i as int).drop_first() =~= ov.skip(i + 1));
        i = i + 1;
    }
    String::new()
}

/// Options listed with the hash of the first selected one.
pub open spec fn listed_variants(os: Seq<VariantOptionView>) -> VariantsView {
    VariantsView { count: os.len() as usize, selected: first_selected_hash(os), options: os }
}

// ---- language package environments ----

/// Detection methods that find language package environments.
pub open spec fn is_lang_method(m: Seq<char>) -> bool {
    m == "pip list"@ || m == "pip dist-info"@ || m == "venv"@ || m == "npm lockfile"@ || m == "gem lockfile"@
}

/// The ecosystem a detection method belongs to.
pub open spec fn ecosystem_of(m: Seq<char>) -> Seq<char> {
    if m == "pip list"@ || m == "pip dist-info"@ || m == "venv"@ {
        "pip"@
    } else if m == "npm lockfile"@ {
        "npm"@
    } else if m == "gem lockfile"@ {
        "gem"@
    } else {
        "other"@
    }
}

fn is_lang_method_exec(m: &str) -> (b: bool)
    ensures
        b == is_lang_method(m@),
{
    proof {
        reveal_strlit("pip list");
        reveal_strlit("pip dist-info");
        reveal_strlit("venv");
        reveal_strlit("npm lockfile");
        reveal_strlit("gem lockfile");
    }
    crate::text::str_eq(m, "pip list") || crate::text::str_eq(m, "pip dist-info") || crate::text::str_eq(m, "venv")
        || crate::text::str_eq(m, "npm lockfile") || crate::text::str_eq(m, "gem lockfile")
}

fn ecosystem_exec(m: &str) -> (e: String)
    ensures
        e@ == ecosystem_of(m@),
{
    if crate::text::str_eq(m, "pip list") || crate::text::str_eq(m, "pip dist-info") || crate::text::str_eq(m, "venv") {
        own("pip")
    } else if crate::text::str_eq(m, "npm lockfile") {
        own("npm")
    } else if crate::text::str_eq(m, "gem lockfile") {
        own("gem")
    } else {
        own("other")
    }
}

/// The non-RPM items that are language package environments, in order.
pub open spec fn lang_envs(ns: Seq<FleetNonRpm>) -> Seq<FleetNonRpm>
    decreases ns.len(),
{
    if ns.len() == 0 {
        Seq::empty()
    } else {
        lang_envs(ns.drop_last()) + (if is_lang_method(ns.last().method@) { seq![ns.last()] } else { Seq::empty() })
    }
}

/// An environment's identity: `ecosystem:path`.
pub open spec fn lang_key(n: FleetNonRpm) -> KeyView {
    (ecosystem_of(n.method@) + ":"@ + n.path@, Seq::<char>::empty())
}

pub open spec fn lang_keys(envs: Seq<FleetNonRpm>) -> Seq<KeyView> {
    envs.map_values(|n: FleetNonRpm| lang_key(n))
}

/// The smallest of the names, by string order.
pub open spec fn min_name(ks: Seq<Seq<char>>) -> Seq<char>
    decreases ks.len(),
{
    if ks.len() <= 1 {
        if ks.len() == 0 { Seq::empty() } else { ks[0] }
    } else {
        let m = min_name(ks.drop_last());
        if crate::web::view::chars_lt(ks.last(), m) { ks.last() } else { m }
    }
}

/// The manifest an environment's package list was read from: the first of
/// `requirements.txt`, `package-lock.json`, `Gemfile.lock` that it has,
/// else its smallest manifest name, else `dist-info` for a `pip
/// dist-info` environment.
pub open spec fn manifest_basis(n: FleetNonRpm) -> Option<Seq<char>> {
    let ks = strings_view(n.manifest_files@);
    if ks.contains("requirements.txt"@) {
        Some("requirements.txt"@)
    } else if ks.contains("package-lock.json"@) {
        Some("package-lock.json"@)
    } else if ks.contains("Gemfile.lock"@) {
        Some("Gemfile.lock"@)
    } else if ks.len() > 0 {
        Some(min_name(ks))
    } else if n.method@ == "pip dist-info"@ {
        Some("dist-info"@)
    } else {
        None
    }
}

pub open spec fn lang_metadata(n: FleetNonRpm) -> LanguageMetadataView {
    LanguageMetadataView {
        ecosystem: ecosystem_of(n.method@),
        confidence: n.confidence@,
        package_count: n.packages@.len() as usize,
        manifest_basis: manifest_basis(n),
        packages: package_dtos_view(n.packages@),
    }
}

/// An environment as a variant of its identity: selected when included.
pub open spec fn lang_option(n: FleetNonRpm) -> VariantOptionView {
    VariantOptionView { hash: n.variant_hash@, hosts: hosts_spec(n.aggregate), host_count: host_count_spec(n.aggregate), selected: n.included }
}

pub open spec fn lang_package_list(n: FleetNonRpm) -> PackageListView {
    PackageListView {
        content_hash: n.variant_hash@,
        hosts: hosts_spec(n.aggregate),
        host_count: host_count_spec(n.aggregate),
        selected: n.included,
        packages: package_dtos_view(n.packages@),
    }
}

/// The item of environment `i`: its variants and their package lists when
/// other environments share its identity.
pub open spec fn lang_item(envs: Seq<FleetNonRpm>, i: int, ctx: AggregateContext) -> AggregateItemView {
    let n = envs[i];
    let sibs = members_of(envs, indices_with(lang_keys(envs), lang_key(n)));
    AggregateItemView {
        item_id: ItemIdView::LanguageEnv { ecosystem: ecosystem_of(n.method@), path: n.path@ },
        included: n.included,
        locked: n.locked,
        attention_reason: None,
        triage: context_triage_spec(n.aggregate, ctx),
        prevalence: prevalence_dto_spec(n.aggregate, ctx),
        variants: if sibs.len() >= 2 { Some(listed_variants(sibs.map_values(|s: FleetNonRpm| lang_option(s)))) } else { None },
        source_repo: Seq::empty(),
        repo_conflict: None,
        section_metadata: Some(MetadataView::LanguagePackages(lang_metadata(n))),
        variant_payload: if sibs.len() >= 2 {
            Some(PayloadView::LanguagePackages(sibs.map_values(|s: FleetNonRpm| lang_package_list(s))))
        } else {
            None
        },
    }
}

pub open spec fn lang_items(ns: Seq<FleetNonRpm>, ctx: AggregateContext) -> Seq<AggregateItemView> {
    let envs = lang_envs(ns);
    Seq::new(envs.len(), |i: int| lang_item(envs, i, ctx))
}

fn copy_package(p: &LanguagePackageDto) -> (r: LanguagePackageDto)
    ensures
        crate::web::aggregate::package_dto_view(r) == crate::web::aggregate::package_dto_view(*p),
{
    LanguagePackageDto { name: copy_string(&p.name), version: copy_string(&p.version) }
}

fn copy_packages(ps: &Vec<LanguagePackageDto>) -> (r: Vec<LanguagePackageDto>)
    ensures
        package_dtos_view(r@) == package_dtos_view(ps@),
{
    let mut r: Vec<LanguagePackageDto> = Vec::new();
    let mut i: usize = 0;
    while i < ps.len()
        invariant
            0 <= i <= ps@.len(),
            package_dtos_view(r@) == package_dtos_view(ps@).take(i as int),
        decreases ps@.len() - i,
    {
        let ghost before = r@;
        let p = copy_package(&ps[i]);
        r.push(p);
        assert(package_dtos_view(r@) =~= package_dtos_view(before).push(crate::web::aggregate::package_dto_view(p)));
        assert(package_dtos_view(ps@).take(i + 1) =~= package_dtos_view(ps@).take(i as int).push(crate::web::aggregate::package_dto_view(ps@[i as int])));
        i = i + 1;
    }
    assert(package_dtos_view(ps@).take(ps@.len() as int) =~= package_dtos_view(ps@));
    r
}

fn has_name(ks: &Vec<String>, k: &str) -> (b: bool)
    ensures
        b == strings_view(ks@).contains(k@),
{
    let ghost kv = strings_view(ks@);
    let mut i: usize = 0;
    while i < ks.len()
        invariant
            0 <= i <= ks@.len(),
            kv == strings_view(ks@),
            forall|j: int| 0 <= j < i ==> kv[j] != k@,
        decreases ks@.len() - i,
    {
        if crate::text::str_eq(ks[i].as_str(), k) {
            assert(kv[i as int] == k@);
            return true;
        }
        i = i + 1;
    }
    false
}

fn min_name_exec(ks: &Vec<String>) -> (m: String)
    requires
        ks@.len() > 0,
    ensures
        m@ == min_name(strings_view(ks@)),
{
    let ghost kv = strings_view(ks@);
    let mut m = copy_string(&ks[0]);
    let mut i: usize = 1;
    assert(kv.take(1) =~= seq![kv[0]]);
    while i < ks.len()
        invariant
            1 <= i <= ks@.len(),
            kv == strings_view(ks@),
            m@ == min_name(kv.take(i as int)),
        decreases ks@.len() - i,
    {
        assert(kv.take(i + 1).drop_last() =~= kv.take(i as int));
        assert(kv.take(i + 1).last() == ks@[i as int]@);
        if crate::web::view::str_lt(ks[i].as_str(), m.as_str()) {
            m = copy_string(&ks[i]);
        }
        i = i + 1;
    }
    assert(kv.take(ks@.len() as int) =~= kv);
    m
}

fn manifest_basis_exec(n: &FleetNonRpm) -> (r: Option<String>)
    ensures
        opt_view(r) == manifest_basis(*n),
{
    if has_name(&n.manifest_files, "requirements.txt") {
        Some(own("requirements.txt"))
    } else if has_name(&n.manifest_files, "package-lock.json") {
        Some(own("package-lock.json"))
    } else if has_name(&n.manifest_files, "Gemfile.lock") {
        Some(own("Gemfile.lock"))
    } else if n.manifest_files.len() > 0 {
        Some(min_name_exec(&n.manifest_files))
    } else if crate::text::str_eq(n.method.as_str(), "pip dist-info") {
        Some(own("dist-info"))
    } else {
        None
    }
}

pub fn build_language_package_metadata(n: &FleetNonRpm) -> (m: LanguagePackageMetadata)
    ensures
        crate::web::aggregate::language_metadata_view(m) == lang_metadata(*n),
{
    LanguagePackageMetadata {
        ecosystem: ecosystem_exec(n.method.as_str()),
        confidence: copy_string(&n.confidence),
        package_count: n.packages.len(),
        manifest_basis: manifest_basis_exec(n),
        packages: copy_packages(&n.packages),
    }
}

fn lang_option_exec(n: &FleetNonRpm) -> (o: AggregateVariantOption)
    ensures
        option_view(o) == lang_option(*n),
{
    AggregateVariantOption { hash: copy_string(&n.variant_hash), hosts: hosts_of(&n.aggregate), host_count: host_count_of(&n.aggregate), selected: n.included }
}

/// The variants of the environments at `sibs`.
pub fn build_language_package_variants(envs: &Vec<FleetNonRpm>, sibs: &Vec<usize>) -> (r: AggregateVariants)
    requires
        forall|j: int| 0 <= j < sibs@.len() ==> #[trigger] sibs@[j] < envs@.len(),
    ensures
        variants_view(r) == listed_variants(members_of(envs@, sibs@.map_values(|m: usize| m as int)).map_values(|s: FleetNonRpm| lang_option(s))),
{
    let ghost es = members_of(envs@, sibs@.map_values(|m: usize| m as int));
    let ghost want = es.map_values(|s: FleetNonRpm| lang_option(s));
    let mut options: Vec<AggregateVariantOption> = Vec::new();
    let mut i: usize = 0;
    while i < sibs.len()
        invariant
            0 <= i <= sibs@.len(),
            es == members_of(envs@, sibs@.map_values(|m: usize| m as int)),
            want == es.map_values(|s: FleetNonRpm| lang_option(s)),
            forall|j: int| 0 <= j < sibs@.len() ==> #[trigger] sibs@[j] < envs@.len(),
            options@.map_values(|o: AggregateVariantOption| option_view(o)) == want.take(i as int),
        decreases sibs@.len() - i,
    {
        let o = lang_option_exec(&envs[sibs[i]]);
        assert(es[i as int] == envs@[sibs@[i as int] as int]);
        let ghost before = options@;
        options.push(o);
        assert(options@.map_values(|o: AggregateVariantOption| option_view(o)) =~= before.map_values(|o: AggregateVariantOption| option_view(o)).push(option_view(o)));
        assert(want.take(i + 1) =~= want.take(i as int).push(want[i as int]));
        i = i + 1;
    }
    assert(want.take(sibs@.len() as int) =~= want);
    let selected = first_selected_exec(&options);
    AggregateVariants { count: options.len(), selected, options }
}

/// The package lists of the environments at `sibs`.
pub fn build_language_package_variant_payload(envs: &Vec<FleetNonRpm>, sibs: &Vec<usize>) -> (r: LanguagePackageVariantPayload)
    requires
        forall|j: int| 0 <= j < sibs@.len() ==> #[trigger] sibs@[j] < envs@.len(),
    ensures
        r.variant_packages@.map_values(|l: VariantPackageList| crate::web::aggregate::package_list_view(l))
            == members_of(envs@, sibs@.map_values(|m: usize| m as int)).map_values(|s: FleetNonRpm| lang_package_list(s)),
{
    let ghost es = members_of(envs@, sibs@.map_values(|m: usize| m as int));
    let ghost want = es.map_values(|s: FleetNonRpm| lang_package_list(s));
    let mut lists: Vec<VariantPackageList> = Vec::new();
    let mut i: usize = 0;
    while i < sibs.len()
        invariant
            0 <= i <= sibs@.len(),
            es == members_of(envs@, sibs@.map_values(|m: usize| m as int)),
            want == es.map_values(|s: FleetNonRpm| lang_package_list(s)),
            forall|j: int| 0 <= j < sibs@.len() ==> #[trigger] sibs@[j] < envs@.len(),
            lists@.map_values(|l: VariantPackageList| crate::web::aggregate::package_list_view(l)) == want.take(i as int),
        decreases sibs@.len() - i,
    {
        let n = &envs[sibs[i]];
        assert(es[i as int] == *n);
        let l = VariantPackageList {
            content_hash: copy_string(&n.variant_hash),
            hosts: hosts_of(&n.aggregate),
            host_count: host_count_of(&n.aggregate),
            selected: n.included,
            packages: copy_packages(&n.packages),
        };
        let ghost before = lists@;
        lists.push(l);
        assert(lists@.map_values(|l: VariantPackageList| crate::web::aggregate::package_list_view(l))
            =~= before.map_values(|l: VariantPackageList| crate::web::aggregate::package_list_view(l)).push(crate::web::aggregate::package_list_view(l)));
        assert(want.take(i + 1) =~= want.take(i as int).push(want[i as int]));
        i = i + 1;
    }
    assert(want.take(sibs@.len() as int) =~= want);
    LanguagePackageVariantPayload { variant_packages: lists }
}

/// The environments among the non-RPM items, in order.
pub fn classify_language_envs(ns: &Vec<FleetNonRpm>) -> (v: Vec<usize>)
    ensures
        forall|j: int| 0 <= j < v@.len() ==> #[trigger] v@[j] < ns@.len(),
        members_of(ns@, v@.map_values(|m: usize| m as int)) == lang_envs(ns@),
{
    let mut v: Vec<usize> = Vec::new();
    let mut i: usize = 0;
    while i < ns.len()
        invariant
            0 <= i <= ns@.len(),
            forall|j: int| 0 <= j < v@.len() ==> #[trigger] v@[j] < i,
            members_of(ns@, v@.map_values(|m: usize| m as int)) == lang_envs(ns@.take(i as int)),
        decreases ns@.len() - i,
    {
        let ghost before = v@;
        assert(ns@.take(i + 1).drop_last() =~= ns@.take(i as int));
        assert(ns@.take(i + 1).last() == ns@[i as int]);
        if is_lang_method_exec(ns[i].method.as_str()) {
            v.push(i);
            assert(members_of(ns@, v@.map_values(|m: usize| m as int))
                =~= members_of(ns@, before.map_values(|m: usize| m as int)).push(ns@[i as int]));
        } else {
            assert(members_of(ns@, v@.map_values(|m: usize| m as int)) =~= members_of(ns@, before.map_values(|m: usize| m as int)));
        }
        i = i + 1;
    }
    assert(ns@.take(ns@.len() as int) =~= ns@);
    v
}

} // verus!

verus! {

// ---- unmanaged files ----

pub open spec fn file_key(f: FleetUnmanagedFile) -> KeyView {
    (f.file.path@, Seq::<char>::empty())
}

pub open spec fn file_keys(fs: Seq<FleetUnmanagedFile>) -> Seq<KeyView> {
    fs.map_values(|f: FleetUnmanagedFile| file_key(f))
}

/// A file as a variant of its path: selected when it is the chosen one.
pub open spec fn file_option(f: FleetUnmanagedFile) -> VariantOptionView {
    VariantOptionView {
        hash: f.variant.content_hash@,
        hosts: hosts_spec(f.variant.aggregate),
        host_count: host_count_spec(f.variant.aggregate),
        selected: chosen(f.variant),
    }
}

pub open spec fn file_variant(f: FleetUnmanagedFile) -> FileVariantView {
    FileVariantView {
        content_hash: f.variant.content_hash@,
        hosts: hosts_spec(f.variant.aggregate),
        host_count: host_count_spec(f.variant.aggregate),
        selected: chosen(f.variant),
        size: f.file.size,
        last_modified: f.file.provenance.last_modified,
    }
}

pub open spec fn file_metadata(f: FleetUnmanagedFile) -> FileMetadataView {
    FileMetadataView {
        file_type: file_type_name(f.file.file_type),
        size: f.file.size,
        under_var: f.file.under_var,
        last_modified: f.file.provenance.last_modified,
        uid: f.file.provenance.uid,
        gid: f.file.provenance.gid,
        permissions: f.file.provenance.permissions@,
        writable_mount: f.file.provenance.writable_mount,
        mutability: f.file.provenance.mutable,
        service_working_dir: f.file.provenance.service_working_dir,
    }
}

/// The item of file `i`: its variants and their metadata when other
/// files share its path.
pub open spec fn unmanaged_item(fs: Seq<FleetUnmanagedFile>, i: int, ctx: AggregateContext) -> AggregateItemView {
    let f = fs[i];
    let sibs = members_of(fs, indices_with(file_keys(fs), file_key(f)));
    AggregateItemView {
        item_id: ItemIdView::UnmanagedFile { path: f.file.path@ },
        included: f.file.included,
        locked: f.locked,
        attention_reason: None,
        triage: context_triage_spec(f.variant.aggregate, ctx),
        prevalence: prevalence_dto_spec(f.variant.aggregate, ctx),
        variants: if sibs.len() >= 2 { Some(listed_variants(sibs.map_values(|s: FleetUnmanagedFile| file_option(s)))) } else { None },
        source_repo: Seq::empty(),
        repo_conflict: None,
        section_metadata: Some(MetadataView::UnmanagedFile(file_metadata(f))),
        variant_payload: if sibs.len() >= 2 {
            Some(PayloadView::UnmanagedFile(sibs.map_values(|s: FleetUnmanagedFile| file_variant(s))))
        } else {
            None
        },
    }
}

pub open spec fn unmanaged_items(fs: Seq<FleetUnmanagedFile>, ctx: AggregateContext) -> Seq<AggregateItemView> {
    Seq::new(fs.len(), |i: int| unmanaged_item(fs, i, ctx))
}

fn is_chosen(v: &ContentVariant) -> (b: bool)
    ensures
        b == chosen(*v),
{
    match v.selection {
        VariantSelection::Selected => true,
        VariantSelection::Only => true,
        VariantSelection::Alternative => false,
    }
}

pub fn build_unmanaged_file_metadata(f: &FleetUnmanagedFile) -> (m: UnmanagedFileMetadata)
    ensures
        crate::web::aggregate::file_metadata_view(m) == file_metadata(*f),
{
    UnmanagedFileMetadata {
        file_type: file_type_str(f.file.file_type),
        size: f.file.size,
        under_var: f.file.under_var,
        provenance: UnmanagedFileProvenanceDto {
            last_modified: f.file.provenance.last_modified,
            uid: f.file.provenance.uid,
            gid: f.file.provenance.gid,
            permissions: copy_string(&f.file.provenance.permissions),
            writable_mount: f.file.provenance.writable_mount,
            mutability: f.file.provenance.mutable,
            service_working_dir: f.file.provenance.service_working_dir,
        },
    }
}

/// The variants of the files at `sibs`.
pub fn build_unmanaged_file_variants(fs: &Vec<FleetUnmanagedFile>, sibs: &Vec<usize>) -> (r: AggregateVariants)
    requires
        forall|j: int| 0 <= j < sibs@.len() ==> #[trigger] sibs@[j] < fs@.len(),
    ensures
        variants_view(r) == listed_variants(members_of(fs@, sibs@.map_values(|m: usize| m as int)).map_values(|s: FleetUnmanagedFile| file_option(s))),
{
    let ghost es = members_of(fs@, sibs@.map_values(|m: usize| m as int));
    let ghost want = es.map_values(|s: FleetUnmanagedFile| file_option(s));
    let mut options: Vec<AggregateVariantOption> = Vec::new();
    let mut i: usize = 0;
    while i < sibs.len()
        invariant
            0 <= i <= sibs@.len(),
            es == members_of(fs@, sibs@.map_values(|m: usize| m as int)),
            want == es.map_values(|s: FleetUnmanagedFile| file_option(s)),
            forall|j: int| 0 <= j < sibs@.len() ==> #[trigger] sibs@[j] < fs@.len(),
            options@.map_values(|o: AggregateVariantOption| option_view(o)) == want.take(i as int),
        decreases sibs@.len() - i,
    {
        let f = &fs[sibs[i]];
        assert(es[i as int] == *f);
        let o = AggregateVariantOption {
            hash: copy_string(&f.variant.content_hash),
            hosts: hosts_of(&f.variant.aggregate),
            host_count: host_count_of(&f.variant.aggregate),
            selected: is_chosen(&f.variant),
        };
        let ghost before = options@;
        options.push(o);
        assert(options@.map_values(|o: AggregateVariantOption| option_view(o)) =~= before.map_values(|o: AggregateVariantOption| option_view(o)).push(option_view(o)));
        assert(want.take(i + 1) =~= want.take(i as int).push(want[i as int]));
        i = i + 1;
    }
    assert(want.take(sibs@.len() as int) =~= want);
    let selected = first_selected_exec(&options);
    AggregateVariants { count: options.len(), selected, options }
}

/// The metadata of the files at `sibs`, for comparing them.
pub fn build_unmanaged_file_variant_payload(fs: &Vec<FleetUnmanagedFile>, sibs: &Vec<usize>) -> (r: UnmanagedFileVariantPayload)
    requires
        forall|j: int| 0 <= j < sibs@.len() ==> #[trigger] sibs@[j] < fs@.len(),
    ensures
        r.variant_metadata@.map_values(|m: VariantFileMetadata| crate::web::aggregate::file_variant_view(m))
            == members_of(fs@, sibs@.map_values(|m: usize| m as int)).map_values(|s: FleetUnmanagedFile| file_variant(s)),
{
    let ghost es = members_of(fs@, sibs@.map_values(|m: usize| m as int));
    let ghost want = es.map_values(|s: FleetUnmanagedFile| file_variant(s));
    let mut metas: Vec<VariantFileMetadata> = Vec::new();
    let mut i: usize = 0;
    while i < sibs.len()
        invariant
            0 <= i <= sibs@.len(),
            es == members_of(fs@, sibs@.map_values(|m: usize| m as int)),
            want == es.map_values(|s: FleetUnmanagedFile| file_variant(s)),
            forall|j: int| 0 <= j < sibs@.len() ==> #[trigger] sibs@[j] < fs@.len(),
            metas@.map_values(|m: VariantFileMetadata| crate::web::aggregate::file_variant_view(m)) == want.take(i as int),
        decreases sibs@.len() - i,
    {
        let f = &fs[sibs[i]];
        assert(es[i as int] == *f);
        let m = VariantFileMetadata {
            content_hash: copy_string(&f.variant.content_hash),
            hosts: hosts_of(&f.variant.aggregate),
            host_count: host_count_of(&f.variant.aggregate),
            selected: is_chosen(&f.variant),
            size: f.file.size,
            last_modified: f.file.provenance.last_modified,
        };
        let ghost before = metas@;
        metas.push(m);
        assert(metas@.map_values(|m: VariantFileMetadata| crate::web::aggregate::file_variant_view(m))
            =~= before.map_values(|m: VariantFileMetadata| crate::web::aggregate::file_variant_view(m)).push(crate::web::aggregate::file_variant_view(m)));
        assert(want.take(i + 1) =~= want.take(i as int).push(want[i as int]));
        i = i + 1;
    }
    assert(want.take(sibs@.len() as int) =~= want);
    UnmanagedFileVariantPayload { variant_metadata: metas }
}

fn file_keys_exec(fs: &Vec<FleetUnmanagedFile>) -> (v: Vec<(String, String)>)
    ensures
        keys_view(v@) == file_keys(fs@),
{
    let mut v: Vec<(String, String)> = Vec::new();
    let mut i: usize = 0;
    while i < fs.len()
        invariant
            0 <= i <= fs@.len(),
            keys_view(v@) == file_keys(fs@).take(i as int),
        decreases fs@.len() - i,
    {
        let k = (copy_string(&fs[i].file.path), String::new());
        let ghost before = v@;
        v.push(k);
        assert(keys_view(v@) =~= keys_view(before).push(crate::web::grouping::key_of(k)));
        assert(file_keys(fs@).take(i + 1) =~= file_keys(fs@).take(i as int).push(file_key(fs@[i as int])));
        i = i + 1;
    }
    assert(file_keys(fs@).take(fs@.len() as int) =~= file_keys(fs@));
    v
}

fn unmanaged_items_exec(fs: &Vec<FleetUnmanagedFile>, ctx: &AggregateContext) -> (v: Vec<AggregateItem>)
    ensures
        agg_items_view(v@) == unmanaged_items(fs@, *ctx),
{
    let keys = file_keys_exec(fs);
    let ghost want = unmanaged_items(fs@, *ctx);
    let mut v: Vec<AggregateItem> = Vec::new();
    let mut i: usize = 0;
    while i < fs.len()
        invariant
            0 <= i <= fs@.len(),
            keys_view(keys@) == file_keys(fs@),
            want == unmanaged_items(fs@, *ctx),
            agg_items_view(v@) == want.take(i as int),
        decreases fs@.len() - i,
    {
        let f = &fs[i];
        let sibs = positions_of(&keys, f.file.path.as_str(), "");
        proof {
            reveal_strlit("");
            assert(file_key(fs@[i as int]) == (f.file.path@, ""@));
        }
        let (variants, payload) = if sibs.len() >= 2 {
            (Some(build_unmanaged_file_variants(fs, &sibs)), Some(VariantPayload::UnmanagedFile(build_unmanaged_file_variant_payload(fs, &sibs))))
        } else {
            (None, None)
        };
        let it = AggregateItem {
            item_id: ItemId::UnmanagedFile { path: copy_string(&f.file.path) },
            included: f.file.included,
            locked: f.locked,
            attention_reason: None,
            triage: default_context_triage(&f.variant.aggregate, ctx),
            prevalence: aggregate_prevalence_dto(&f.variant.aggregate, ctx),
            variants,
            source_repo: String::new(),
            repo_conflict: None,
            section_metadata: Some(SectionMetadata::UnmanagedFile(build_unmanaged_file_metadata(f))),
            variant_payload: payload,
        };
        assert(agg_item_view(it) =~= unmanaged_item(fs@, i as int, *ctx));
        push_item(&mut v, it);
        assert(want.take(i + 1) =~= want.take(i as int).push(want[i as int]));
        i = i + 1;
    }
    assert(want.take(fs@.len() as int) =~= want);
    v
}

// ---- non-RPM software ----

pub open spec fn nonrpm_item(n: FleetNonRpm, ctx: AggregateContext) -> AggregateItemView {
    plain_item(ItemIdView::NonRpm { name: n.name@ }, n.included, n.locked, None, context_triage_spec(n.aggregate, ctx), prevalence_dto_spec(n.aggregate, ctx))
}

fn nonrpm_items_exec(ns: &Vec<FleetNonRpm>, ctx: &AggregateContext) -> (v: Vec<AggregateItem>)
    ensures
        agg_items_view(v@) == ns@.map_values(|n: FleetNonRpm| nonrpm_item(n, *ctx)),
{
    let ghost want = ns@.map_values(|n: FleetNonRpm| nonrpm_item(n, *ctx));
    let mut v: Vec<AggregateItem> = Vec::new();
    let mut i: usize = 0;
    while i < ns.len()
        invariant
            0 <= i <= ns@.len(),
            want == ns@.map_values(|n: FleetNonRpm| nonrpm_item(n, *ctx)),
            agg_items_view(v@) == want.take(i as int),
        decreases ns@.len() - i,
    {
        let n = &ns[i];
        let it = plain_item_exec(ItemId::NonRpm { name: copy_string(&n.name) }, n.included, n.locked, None,
            default_context_triage(&n.aggregate, ctx), aggregate_prevalence_dto(&n.aggregate, ctx));
        push_item(&mut v, it);
        assert(want.take(i + 1) =~= want.take(i as int).push(want[i as int]));
        i = i + 1;
    }
    assert(want.take(ns@.len() as int) =~= want);
    v
}

fn lang_keys_exec(ns: &Vec<FleetNonRpm>, envs: &Vec<usize>) -> (v: Vec<(String, String)>)
    requires
        forall|j: int| 0 <= j < envs@.len() ==> #[trigger] envs@[j] < ns@.len(),
    ensures
        keys_view(v@) == lang_keys(members_of(ns@, envs@.map_values(|m: usize| m as int))),
{
    let ghost es = members_of(ns@, envs@.map_values(|m: usize| m as int));
    let mut v: Vec<(String, String)> = Vec::new();
    let mut i: usize = 0;
    while i < envs.len()
        invariant
            0 <= i <= envs@.len(),
            es == members_of(ns@, envs@.map_values(|m: usize| m as int)),
            forall|j: int| 0 <= j < envs@.len() ==> #[trigger] envs@[j] < ns@.len(),
            keys_view(v@) == lang_keys(es).take(i as int),
        decreases envs@.len() - i,
    {
        let n = &ns[envs[i]];
        assert(es[i as int] == *n);
        let mut key = ecosystem_exec(n.method.as_str());
        push_str(&mut key, ":");
        push_str(&mut key, n.path.as_str());
        let k = (key, String::new());
        let ghost before = v@;
        v.push(k);
        assert(keys_view(v@) =~= keys_view(before).push(crate::web::grouping::key_of(k)));
        assert(lang_keys(es).take(i + 1) =~= lang_keys(es).take(i as int).push(lang_key(es[i as int])));
        i = i + 1;
    }
    assert(lang_keys(es).take(envs@.len() as int) =~= lang_keys(es));
    v
}

/// Positions into the environments, taken as positions into the items.
fn through(envs: &Vec<usize>, ps: &Vec<usize>) -> (v: Vec<usize>)
    requires
        forall|j: int| 0 <= j < ps@.len() ==> #[trigger] ps@[j] < envs@.len(),
    ensures
        v@.len() == ps@.len(),
        forall|j: int| 0 <= j < ps@.len() ==> #[trigger] v@[j] == envs@[ps@[j] as int],
{
    let mut v: Vec<usize> = Vec::new();
    let mut i: usize = 0;
    while i < ps.len()
        invariant
            0 <= i <= ps@.len(),
            v@.len() == i,
            forall|j: int| 0 <= j < ps@.len() ==> #[trigger] ps@[j] < envs@.len(),
            forall|j: int| 0 <= j < i ==> #[trigger] v@[j] == envs@[ps@[j] as int],
        decreases ps@.len() - i,
    {
        v.push(envs[ps[i]]);
        i = i + 1;
    }
    v
}

fn lang_items_exec(ns: &Vec<FleetNonRpm>, ctx: &AggregateContext) -> (v: Vec<AggregateItem>)
    ensures
        agg_items_view(v@) == lang_items(ns@, *ctx),
{
    let envs = classify_language_envs(ns);
    let ghost es = members_of(ns@, envs@.map_values(|m: usize| m as int));
    let keys = lang_keys_exec(ns, &envs);
    let ghost want = lang_items(ns@, *ctx);
    assert(es == lang_envs(ns@));
    let mut v: Vec<AggregateItem> = Vec::new();
    let mut i: usize = 0;
    while i < envs.len()
        invariant
            0 <= i <= envs@.len(),
            es == members_of(ns@, envs@.map_values(|m: usize| m as int)),
            es == lang_envs(ns@),
            forall|j: int| 0 <= j < envs@.len() ==> #[trigger] envs@[j] < ns@.len(),
            keys_view(keys@) == lang_keys(es),
            want == lang_items(ns@, *ctx),
            agg_items_view(v@) == want.take(i as int),
        decreases envs@.len() - i,
    {
        let n = &ns[envs[i]];
        assert(es[i as int] == *n);
        let key = &keys[i];
        assert(keys_view(keys@)[i as int] == (key.0@, key.1@));
        let ps = positions_of(&keys, key.0.as_str(), key.1.as_str());
        proof {
            lemma_indices_with(keys_view(keys@), (key.0@, key.1@));
        }
        let ghost pv = ps@.map_values(|m: usize| m as int);
        assert forall|j: int| 0 <= j < ps@.len() implies #[trigger] ps@[j] < envs@.len() by {
            assert(pv[j] == indices_with(keys_view(keys@), (key.0@, key.1@))[j]);
        }
        let sibs = through(&envs, &ps);
        let ghost sv = sibs@.map_values(|m: usize| m as int);
        assert(members_of(ns@, sv) =~= members_of(es, pv));
        let (variants, payload) = if sibs.len() >= 2 {
            (Some(build_language_package_variants(ns, &sibs)), Some(VariantPayload::LanguagePackages(build_language_package_variant_payload(ns, &sibs))))
        } else {
            (None, None)
        };
        let eco = ecosystem_exec(n.method.as_str());
        let it = AggregateItem {
            item_id: ItemId::LanguageEnv { ecosystem: eco, path: copy_string(&n.path) },
            included: n.included,
            locked: n.locked,
            attention_reason: None,
            triage: default_context_triage(&n.aggregate, ctx),
            prevalence: aggregate_prevalence_dto(&n.aggregate, ctx),
            variants,
            source_repo: String::new(),
            repo_conflict: None,
            section_metadata: Some(SectionMetadata::LanguagePackages(build_language_package_metadata(n))),
            variant_payload: payload,
        };
        assert(agg_item_view(it) =~= lang_item(es, i as int, *ctx));
        push_item(&mut v, it);
        assert(want.take(i + 1) =~= want.take(i as int).push(want[i as int]));
        i = i + 1;
    }
    assert(want.take(envs@.len() as int) =~= want);
    v
}

} // verus!

verus! {

// ---- decision items ----

/// The repository conflict recorded for `name_arch`, the first when
/// several are.
pub open spec fn conflict_for(cs: Seq<RepoConflict>, name_arch: Seq<char>) -> Option<Seq<(Seq<char>, usize)>>
    decreases cs.len(),
{
    if cs.len() == 0 {
        None
    } else if cs[0].name_arch@ == name_arch {
        Some(repo_sources_view(cs[0].sources@))
    } else {
        conflict_for(cs.drop_first(), name_arch)
    }
}

fn copy_sources(es: &Vec<RepoSourceEntryDto>) -> (r: Vec<RepoSourceEntryDto>)
    ensures
        repo_sources_view(r@) == repo_sources_view(es@),
{
    let mut r: Vec<RepoSourceEntryDto> = Vec::new();
    let mut i: usize = 0;
    while i < es.len()
        invariant
            0 <= i <= es@.len(),
            repo_sources_view(r@) == repo_sources_view(es@).take(i as int),
        decreases es@.len() - i,
    {
        let e = RepoSourceEntryDto { repo: copy_string(&es[i].repo), host_count: es[i].host_count };
        let ghost before = r@;
        r.push(e);
        assert(repo_sources_view(r@) =~= repo_sources_view(before).push(crate::web::aggregate::repo_source_view(e)));
        assert(repo_sources_view(es@).take(i + 1) =~= repo_sources_view(es@).take(i as int).push(crate::web::aggregate::repo_source_view(es@[i as int])));
        i = i + 1;
    }
    assert(repo_sources_view(es@).take(es@.len() as int) =~= repo_sources_view(es@));
    r
}

fn conflict_exec(cs: &Vec<RepoConflict>, name_arch: &str) -> (r: Option<Vec<RepoSourceEntryDto>>)
    ensures
        match r {
            Some(v) => conflict_for(cs@, name_arch@) == Some(repo_sources_view(v@)),
            None => conflict_for(cs@, name_arch@) is None,
        },
{
    let mut i: usize = 0;
    assert(cs@.skip(0) =~= cs@);
    while i < cs.len()
        invariant
            0 <= i <= cs@.len(),
            conflict_for(cs@, name_arch@) == conflict_for(cs@.skip(i as int), name_arch@),
        decreases cs@.len() - i,
    {
        assert(cs@.skip(i as int)[0] == cs@[i as int]);
        if crate::text::str_eq(cs[i].name_arch.as_str(), name_arch) {
            return Some(copy_sources(&cs[i].sources));
        }
        assert(cs@.skip(i as int).drop_first() =~= cs@.skip(i + 1));
        i = i + 1;
    }
    None
}

/// A package item: its repository and, when repositories disagree across
/// the fleet, the conflict recorded for its `name.arch`.
pub open spec fn package_item(p: FleetPackage, ctx: AggregateContext) -> AggregateItemView {
    AggregateItemView {
        item_id: ItemIdView::Package { name: p.name@, arch: p.arch@ },
        included: p.included,
        locked: p.locked,
        attention_reason: None,
        triage: triage_spec(p.triage, p.aggregate, ctx),
        prevalence: prevalence_dto_spec(p.aggregate, ctx),
        variants: None,
        source_repo: p.source_repo@,
        repo_conflict: conflict_for(ctx.repo_conflicts@, p.name@ + "."@ + p.arch@),
        section_metadata: None,
        variant_payload: None,
    }
}

fn package_item_exec(p: &FleetPackage, ctx: &AggregateContext) -> (r: AggregateItem)
    ensures
        agg_item_view(r) == package_item(*p, *ctx),
{
    let mut key = copy_string(&p.name);
    push_str(&mut key, ".");
    push_str(&mut key, p.arch.as_str());
    let conflict = conflict_exec(&ctx.repo_conflicts, key.as_str());
    let r = AggregateItem {
        item_id: ItemId::Package { name: copy_string(&p.name), arch: copy_string(&p.arch) },
        included: p.included,
        locked: p.locked,
        attention_reason: None,
        triage: build_triage_dto(&p.triage, &p.aggregate, ctx),
        prevalence: aggregate_prevalence_dto(&p.aggregate, ctx),
        variants: None,
        source_repo: copy_string(&p.source_repo),
        repo_conflict: conflict,
        section_metadata: None,
        variant_payload: None,
    };
    assert(agg_item_view(r) =~= package_item(*p, *ctx));
    r
}

pub open spec fn config_keys(fs: Seq<ConfigFileVariant>) -> Seq<KeyView> {
    fs.map_values(|f: ConfigFileVariant| (f.path@, Seq::<char>::empty()))
}

/// The snapshot's entries for `path`, in order.
pub open spec fn path_entries(fs: Seq<ConfigFileVariant>, path: Seq<char>) -> Seq<int> {
    indices_with(config_keys(fs), (path, Seq::<char>::empty()))
}

/// Every entry of the path is a packaged default or matches the baseline.
pub open spec fn dominated_by_defaults(fs: Seq<ConfigFileVariant>, path: Seq<char>) -> bool {
    let ix = path_entries(fs, path);
    ix.len() > 0 && forall|j: int| 0 <= j < ix.len() ==> (#[trigger] fs[ix[j]]).default_kind
}

/// A config of the refined view is shown when it is the selected (or
/// only) variant of its path and some variant of the path is not a
/// default.
pub open spec fn config_shown(c: FleetConfig, fs: Seq<ConfigFileVariant>) -> bool {
    (c.variant_selection == VariantSelection::Selected || c.variant_selection == VariantSelection::Only) && !dominated_by_defaults(fs, c.path@)
}

/// A config item, with the path's variants listed when there are several,
/// the selected one being the config's own content.
pub open spec fn config_item(c: FleetConfig, fs: Seq<ConfigFileVariant>, ctx: AggregateContext) -> AggregateItemView {
    let ix = path_entries(fs, c.path@);
    AggregateItemView {
        item_id: ItemIdView::Config { path: c.path@ },
        included: c.included,
        locked: c.locked,
        attention_reason: opt_view(c.attention_reason),
        triage: triage_spec(c.triage, c.aggregate, ctx),
        prevalence: prevalence_dto_spec(c.aggregate, ctx),
        variants: if ix.len() >= 2 { Some(variants_with(member_variants(fs, ix), c.content_hash@)) } else { None },
        source_repo: Seq::empty(),
        repo_conflict: None,
        section_metadata: None,
        variant_payload: None,
    }
}

/// The items of the shown configs, in the refined view's order.
pub open spec fn config_items(cs: Seq<FleetConfig>, fs: Seq<ConfigFileVariant>, ctx: AggregateContext) -> Seq<AggregateItemView>
    decreases cs.len(),
{
    if cs.len() == 0 {
        Seq::empty()
    } else {
        config_items(cs.drop_last(), fs, ctx) + (if config_shown(cs.last(), fs) { seq![config_item(cs.last(), fs, ctx)] } else { Seq::empty() })
    }
}

fn config_keys_exec(fs: &Vec<ConfigFileVariant>) -> (v: Vec<(String, String)>)
    ensures
        keys_view(v@) == config_keys(fs@),
{
    let mut v: Vec<(String, String)> = Vec::new();
    let mut i: usize = 0;
    while i < fs.len()
        invariant
            0 <= i <= fs@.len(),
            keys_view(v@) == config_keys(fs@).take(i as int),
        decreases fs@.len() - i,
    {
        let k = (copy_string(&fs[i].path), String::new());
        let ghost before = v@;
        v.push(k);
        assert(keys_view(v@) =~= keys_view(before).push(crate::web::grouping::key_of(k)));
        assert(config_keys(fs@).take(i + 1) =~= config_keys(fs@).take(i as int).push((fs@[i as int].path@, Seq::<char>::empty())));
        i = i + 1;
    }
    assert(config_keys(fs@).take(fs@.len() as int) =~= config_keys(fs@));
    v
}

fn all_default(fs: &Vec<ConfigFileVariant>, ix: &Vec<usize>) -> (b: bool)
    requires
        forall|j: int| 0 <= j < ix@.len() ==> #[trigger] ix@[j] < fs@.len(),
    ensures
        b == forall|j: int| 0 <= j < ix@.len() ==> (#[trigger] fs@[ix@[j] as int]).default_kind,
{
    let mut i: usize = 0;
    while i < ix.len()
        invariant
            0 <= i <= ix@.len(),
            forall|j: int| 0 <= j < ix@.len() ==> #[trigger] ix@[j] < fs@.len(),
            forall|j: int| 0 <= j < i ==> (#[trigger] fs@[ix@[j] as int]).default_kind,
        decreases ix@.len() - i,
    {
        if !fs[ix[i]].default_kind {
            return false;
        }
        i = i + 1;
    }
    true
}

fn config_items_exec(cfg: &FleetConfigs, ctx: &AggregateContext) -> (v: Vec<AggregateItem>)
    ensures
        agg_items_view(v@) == config_items(cfg.refined@, cfg.files@, *ctx),
{
    let keys = config_keys_exec(&cfg.files);
    let ghost fs = cfg.files@;
    let ghost cs = cfg.refined@;
    let mut v: Vec<AggregateItem> = Vec::new();
    let mut i: usize = 0;
    while i < cfg.refined.len()
        invariant
            0 <= i <= cs.len(),
            fs == cfg.files@,
            cs == cfg.refined@,
            keys_view(keys@) == config_keys(fs),
            agg_items_view(v@) == config_items(cs.take(i as int), fs, *ctx),
        decreases cs.len() - i,
    {
        let c = &cfg.refined[i];
        assert(cs.take(i + 1).drop_last() =~= cs.take(i as int));
        assert(cs.take(i + 1).last() == *c);
        let ix = positions_of(&keys, c.path.as_str(), "");
        proof {
            reveal_strlit("");
            assert(""@ =~= Seq::<char>::empty());
            lemma_indices_with(config_keys(fs), (c.path@, Seq::<char>::empty()));
        }
        let ghost iv = ix@.map_values(|m: usize| m as int);
        assert(iv == path_entries(fs, c.path@));
        assert forall|j: int| 0 <= j < ix@.len() implies #[trigger] ix@[j] < fs.len() by {
            assert(iv[j] == ix@[j] as int);
        }
        let chosen_sel = match c.variant_selection {
            VariantSelection::Selected => true,
            VariantSelection::Only => true,
            VariantSelection::Alternative => false,
        };
        let dominated = ix.len() > 0 && all_default(&cfg.files, &ix);
        proof {
            assert forall|j: int| 0 <= j < iv.len() implies #[trigger] iv[j] == ix@[j] as int by {}
            if dominated {
                assert forall|j: int| 0 <= j < iv.len() implies (#[trigger] fs[iv[j]]).default_kind by {
                    assert(iv[j] == ix@[j] as int);
                    assert(fs[ix@[j] as int].default_kind);
                }
            } else if ix.len() > 0 {
                let j = choose|j: int| 0 <= j < ix@.len() && !(#[trigger] cfg.files@[ix@[j] as int]).default_kind;
                assert(iv[j] == ix@[j] as int);
                assert(!fs[iv[j]].default_kind);
            }
            assert(dominated == dominated_by_defaults(fs, c.path@));
        }
        if chosen_sel && !dominated {
            let variants = if ix.len() >= 2 { Some(variants_of(&cfg.files, &ix, c.content_hash.as_str())) } else { None };
            let it = AggregateItem {
                item_id: ItemId::Config { path: copy_string(&c.path) },
                included: c.included,
                locked: c.locked,
                attention_reason: copy_opt(&c.attention_reason),
                triage: build_triage_dto(&c.triage, &c.aggregate, ctx),
                prevalence: aggregate_prevalence_dto(&c.aggregate, ctx),
                variants,
                source_repo: String::new(),
                repo_conflict: None,
                section_metadata: None,
                variant_payload: None,
            };
            assert(agg_item_view(it) =~= config_item(*c, fs, *ctx));
            push_item(&mut v, it);
        }
        i = i + 1;
    }
    assert(cs.take(cs.len() as int) =~= cs);
    v
}

pub open spec fn service_item(s: FleetService, ctx: AggregateContext) -> AggregateItemView {
    plain_item(ItemIdView::Service { unit: s.unit@ }, s.included, s.locked, opt_view(s.attention_reason), triage_spec(s.triage, s.aggregate, ctx), prevalence_dto_spec(s.aggregate, ctx))
}

/// A flatpak item; its triage carries no prevalence data of its own.
pub open spec fn flatpak_item(f: FleetFlatpak, ctx: AggregateContext) -> AggregateItemView {
    plain_item(
        ItemIdView::Flatpak { app_id: f.app_id@, remote: f.remote@, branch: f.branch@ },
        f.included,
        f.locked,
        None,
        triage_spec(f.triage, None, ctx),
        prevalence_dto_spec(f.aggregate, ctx),
    )
}

/// A tuned profile item: included when the profile is kept, on every host
/// when it is kept and on none shown otherwise.
pub open spec fn tuned_item(t: FleetTuned, included: bool, ctx: AggregateContext) -> AggregateItemView {
    plain_item(
        ItemIdView::TunedSelection { profile: t.active_profile@ },
        included,
        false,
        None,
        triage_spec(t.triage, None, ctx),
        AggregatePrevalenceDto { count: if included { ctx.total_hosts as u32 } else { 0 }, total: ctx.total_hosts as u32 },
    )
}

fn package_items_exec(ps: &Vec<FleetPackage>, ctx: &AggregateContext) -> (v: Vec<AggregateItem>)
    ensures
        agg_items_view(v@) == ps@.map_values(|p: FleetPackage| package_item(p, *ctx)),
{
    let ghost want = ps@.map_values(|p: FleetPackage| package_item(p, *ctx));
    let mut v: Vec<AggregateItem> = Vec::new();
    let mut i: usize = 0;
    while i < ps.len()
        invariant
            0 <= i <= ps@.len(),
            want == ps@.map_values(|p: FleetPackage| package_item(p, *ctx)),
            agg_items_view(v@) == want.take(i as int),
        decreases ps@.len() - i,
    {
        push_item(&mut v, package_item_exec(&ps[i], ctx));
        assert(want.take(i + 1) =~= want.take(i as int).push(want[i as int]));
        i = i + 1;
    }
    assert(want.take(ps@.len() as int) =~= want);
    v
}

fn service_items_exec(ss: &Vec<FleetService>, ctx: &AggregateContext) -> (v: Vec<AggregateItem>)
    ensures
        agg_items_view(v@) == ss@.map_values(|s: FleetService| service_item(s, *ctx)),
{
    let ghost want = ss@.map_values(|s: FleetService| service_item(s, *ctx));
    let mut v: Vec<AggregateItem> = Vec::new();
    let mut i: usize = 0;
    while i < ss.len()
        invariant
            0 <= i <= ss@.len(),
            want == ss@.map_values(|s: FleetService| service_item(s, *ctx)),
            agg_items_view(v@) == want.take(i as int),
        decreases ss@.len() - i,
    {
        let s = &ss[i];
        let it = plain_item_exec(ItemId::Service { unit: copy_string(&s.unit) }, s.included, s.locked, copy_opt(&s.attention_reason),
            build_triage_dto(&s.triage, &s.aggregate, ctx), aggregate_prevalence_dto(&s.aggregate, ctx));
        push_item(&mut v, it);
        assert(want.take(i + 1) =~= want.take(i as int).push(want[i as int]));
        i = i + 1;
    }
    assert(want.take(ss@.len() as int) =~= want);
    v
}

fn push_flatpaks(out: &mut Vec<AggregateItem>, fs: &Vec<FleetFlatpak>, ctx: &AggregateContext)
    ensures
        agg_items_view(final(out)@) == agg_items_view(old(out)@) + fs@.map_values(|f: FleetFlatpak| flatpak_item(f, *ctx)),
{
    let ghost start = agg_items_view(out@);
    let ghost want = fs@.map_values(|f: FleetFlatpak| flatpak_item(f, *ctx));
    let mut i: usize = 0;
    while i < fs.len()
        invariant
            0 <= i <= fs@.len(),
            want == fs@.map_values(|f: FleetFlatpak| flatpak_item(f, *ctx)),
            agg_items_view(out@) == start + want.take(i as int),
        decreases fs@.len() - i,
    {
        let f = &fs[i];
        let id = ItemId::Flatpak { app_id: copy_string(&f.app_id), remote: copy_string(&f.remote), branch: copy_string(&f.branch) };
        let it = plain_item_exec(id, f.included, f.locked, None, build_triage_dto(&f.triage, &None, ctx), aggregate_prevalence_dto(&f.aggregate, ctx));
        push_item(out, it);
        assert(want.take(i + 1) =~= want.take(i as int).push(want[i as int]));
        i = i + 1;
    }
    assert(want.take(fs@.len() as int) =~= want);
}

fn tuned_items_exec(ts: &Vec<FleetTuned>, included: bool, ctx: &AggregateContext) -> (v: Vec<AggregateItem>)
    ensures
        agg_items_view(v@) == ts@.map_values(|t: FleetTuned| tuned_item(t, included, *ctx)),
{
    let ghost want = ts@.map_values(|t: FleetTuned| tuned_item(t, included, *ctx));
    let total: u32 = #[verifier::truncate] (ctx.total_hosts as u32);
    let mut v: Vec<AggregateItem> = Vec::new();
    let mut i: usize = 0;
    while i < ts.len()
        invariant
            0 <= i <= ts@.len(),
            want == ts@.map_values(|t: FleetTuned| tuned_item(t, included, *ctx)),
            total == ctx.total_hosts as u32,
            agg_items_view(v@) == want.take(i as int),
        decreases ts@.len() - i,
    {
        let t = &ts[i];
        let prevalence = AggregatePrevalenceDto { count: if included { total } else { 0 }, total };
        let it = plain_item_exec(ItemId::TunedSelection { profile: copy_string(&t.active_profile) }, included, false, None,
            build_triage_dto(&t.triage, &None, ctx), prevalence);
        push_item(&mut v, it);
        assert(want.take(i + 1) =~= want.take(i as int).push(want[i as int]));
        i = i + 1;
    }
    assert(want.take(ts@.len() as int) =~= want);
    v
}

} // verus!

verus! {

// ---- the sections ----

/// The read-only sections of the system's context, each only when it has
/// items: compose files, network, storage, scheduled tasks, SELinux.
pub open spec fn context_sections_spec(s: FleetSnapshot, ctx: AggregateContext) -> Seq<SectionView> {
    opt_section("compose"@, "Compose Files"@, false, grouped_items(s.compose_files@, ctx), ctx)
        + opt_section("network"@, "Network"@, false,
            s.connections@.map_values(|e: FleetEntry| ref_item(e, RefKind::Connection, ctx))
                + s.firewall_zones@.map_values(|e: FleetEntry| ref_item(e, RefKind::FirewallZone, ctx)), ctx)
        + opt_section("storage"@, "Storage"@, false, s.fstab@.map_values(|e: FleetEntry| ref_item(e, RefKind::Fstab, ctx)), ctx)
        + opt_section("scheduled"@, "Scheduled Tasks"@, false,
            s.cron_jobs@.map_values(|e: FleetEntry| ref_item(e, RefKind::CronJob, ctx))
                + s.timers@.map_values(|e: FleetEntry| ref_item(e, RefKind::Timer, ctx)), ctx)
        + opt_section("selinux"@, "SELinux"@, false, s.selinux_ports@.map_values(|p: FleetPort| port_item(p, ctx)), ctx)
}

/// The software sections, each only when it has items: kernel modules and
/// non-RPM software (read-only), then the language package and unmanaged
/// file decision sections.
pub open spec fn software_sections_spec(s: FleetSnapshot, ctx: AggregateContext) -> Seq<SectionView> {
    opt_section("kernel_boot"@, "Kernel & Boot"@, false, s.kernel_modules@.map_values(|e: FleetEntry| ref_item(e, RefKind::KernelModule, ctx)), ctx)
        + opt_section("nonrpm"@, "Non-RPM Software"@, false, s.non_rpm@.map_values(|n: FleetNonRpm| nonrpm_item(n, ctx)), ctx)
        + opt_section("language_packages"@, "Language Packages"@, true, lang_items(s.non_rpm@, ctx), ctx)
        + opt_section("unmanaged_files"@, "Unmanaged Files"@, true, unmanaged_items(s.unmanaged_files@, ctx), ctx)
}

/// The reference sections: those of the system's context, then those of
/// its software.
pub open spec fn reference_sections_spec(s: FleetSnapshot, ctx: AggregateContext) -> Seq<SectionView> {
    context_sections_spec(s, ctx) + software_sections_spec(s, ctx)
}

/// The sections of the fleet view, in order: packages and configuration
/// files whenever the snapshot has them, then services, containers,
/// kernel parameters and tuned profiles when they have items, then the
/// reference sections.
pub open spec fn aggregate_sections_spec(s: FleetSnapshot, ctx: AggregateContext) -> Seq<SectionView> {
    (match s.packages {
        Some(ps) => seq![section_spec("packages"@, "Packages"@, true, ps@.map_values(|p: FleetPackage| package_item(p, ctx)), ctx.zones_active)],
        None => Seq::empty(),
    }) + (match s.configs {
        Some(c) => seq![section_spec("configs"@, "Configuration Files"@, true, config_items(c.refined@, c.files@, ctx), ctx.zones_active)],
        None => Seq::empty(),
    }) + opt_section("services"@, "Services"@, true,
        s.services@.map_values(|x: FleetService| service_item(x, ctx)) + grouped_items(s.dropins@, ctx), ctx)
        + opt_section("containers"@, "Containers"@, true,
        grouped_items(s.quadlets@, ctx) + s.flatpaks@.map_values(|f: FleetFlatpak| flatpak_item(f, ctx)), ctx)
        + opt_section("sysctls"@, "Kernel Parameters"@, true, grouped_items(s.sysctls@, ctx), ctx)
        + opt_section("tuned"@, "Tuned Profiles"@, true, s.tuned@.map_values(|x: FleetTuned| tuned_item(x, s.tuned_included, ctx)), ctx)
        + reference_sections_spec(s, ctx)
}

proof fn lemma_keeps_counts_trans(a: Seq<AggregateSection>, b: Seq<AggregateSection>, c: Seq<AggregateSection>)
    requires
        keeps_counts(a, b),
        keeps_counts(b, c),
        a.len() <= b.len(),
    ensures
        keeps_counts(a, c),
{
    assert forall|k: int| 0 <= k <= a.len() && counts_ok_from(a, k) implies #[trigger] counts_ok_from(c, k) by {
        assert(counts_ok_from(b, k));
    }
}

#[verifier::spinoff_prover]
fn push_context_sections(sections: &mut Vec<AggregateSection>, snap: &FleetSnapshot, ctx: &AggregateContext)
    ensures
        extends(old(sections)@, final(sections)@),
        sections_view(final(sections)@) == sections_view(old(sections)@) + context_sections_spec(*snap, *ctx),
        keeps_counts(old(sections)@, final(sections)@),
{
    let ghost s0 = sections@;
    let ghost v0 = sections_view(s0);
    let ghost z = *ctx;

    let mut items: Vec<AggregateItem> = Vec::new();
    push_grouped(&mut items, &snap.compose_files, ctx);
    assert(agg_items_view(items@) =~= grouped_items(snap.compose_files@, z));
    let ghost a = opt_section("compose"@, "Compose Files"@, false, agg_items_view(items@), z);
    push_section_if(sections, "compose", "Compose Files", false, items, ctx);
    let ghost s1 = sections@;

    let mut items: Vec<AggregateItem> = Vec::new();
    push_refs(&mut items, &snap.connections, RefKind::Connection, ctx);
    push_refs(&mut items, &snap.firewall_zones, RefKind::FirewallZone, ctx);
    assert(agg_items_view(items@) =~= snap.connections@.map_values(|e: FleetEntry| ref_item(e, RefKind::Connection, z))
        + snap.firewall_zones@.map_values(|e: FleetEntry| ref_item(e, RefKind::FirewallZone, z)));
    let ghost b = opt_section("network"@, "Network"@, false, agg_items_view(items@), z);
    push_section_if(sections, "network", "Network", false, items, ctx);
    let ghost s2 = sections@;
    assert(sections_view(s2) =~= v0 + (a + b));

    let mut items: Vec<AggregateItem> = Vec::new();
    push_refs(&mut items, &snap.fstab, RefKind::Fstab, ctx);
    assert(agg_items_view(items@) =~= snap.fstab@.map_values(|e: FleetEntry| ref_item(e, RefKind::Fstab, z)));
    let ghost c = opt_section("storage"@, "Storage"@, false, agg_items_view(items@), z);
    push_section_if(sections, "storage", "Storage", false, items, ctx);
    let ghost s3 = sections@;
    assert(sections_view(s3) =~= v0 + (a + b + c));

    let mut items: Vec<AggregateItem> = Vec::new();
    push_refs(&mut items, &snap.cron_jobs, RefKind::CronJob, ctx);
    push_refs(&mut items, &snap.timers, RefKind::Timer, ctx);
    assert(agg_items_view(items@) =~= snap.cron_jobs@.map_values(|e: FleetEntry| ref_item(e, RefKind::CronJob, z))
        + snap.timers@.map_values(|e: FleetEntry| ref_item(e, RefKind::Timer, z)));
    let ghost d = opt_section("scheduled"@, "Scheduled Tasks"@, false, agg_items_view(items@), z);
    push_section_if(sections, "scheduled", "Scheduled Tasks", false, items, ctx);
    let ghost s4 = sections@;
    assert(sections_view(s4) =~= v0 + (a + b + c + d));

    let items = port_items(&snap.selinux_ports, ctx);
    let ghost e = opt_section("selinux"@, "SELinux"@, false, agg_items_view(items@), z);
    push_section_if(sections, "selinux", "SELinux", false, items, ctx);
    assert(sections_view(sections@) =~= v0 + (a + b + c + d + e));
    assert(a + b + c + d + e == context_sections_spec(*snap, z));
    proof {
        lemma_keeps_counts_trans(s0, s1, s2);
        lemma_keeps_counts_trans(s0, s2, s3);
        lemma_keeps_counts_trans(s0, s3, s4);
        lemma_keeps_counts_trans(s0, s4, sections@);
        lemma_extends_trans(s0, s1, s2);
        lemma_extends_trans(s0, s2, s3);
        lemma_extends_trans(s0, s3, s4);
        lemma_extends_trans(s0, s4, sections@);
    }
}

#[verifier::spinoff_prover]
fn push_software_sections(sections: &mut Vec<AggregateSection>, snap: &FleetSnapshot, ctx: &AggregateContext)
    ensures
        extends(old(sections)@, final(sections)@),
        sections_view(final(sections)@) == sections_view(old(sections)@) + software_sections_spec(*snap, *ctx),
        keeps_counts(old(sections)@, final(sections)@),
{
    let ghost s0 = sections@;
    let ghost v0 = sections_view(s0);
    let ghost z = *ctx;

    let mut items: Vec<AggregateItem> = Vec::new();
    push_refs(&mut items, &snap.kernel_modules, RefKind::KernelModule, ctx);
    assert(agg_items_view(items@) =~= snap.kernel_modules@.map_values(|e: FleetEntry| ref_item(e, RefKind::KernelModule, z)));
    let ghost a = opt_section("kernel_boot"@, "Kernel & Boot"@, false, agg_items_view(items@), z);
    push_section_if(sections, "kernel_boot", "Kernel & Boot", false, items, ctx);
    let ghost s1 = sections@;

    let items = nonrpm_items_exec(&snap.non_rpm, ctx);
    let ghost b = opt_section("nonrpm"@, "Non-RPM Software"@, false, agg_items_view(items@), z);
    push_section_if(sections, "nonrpm", "Non-RPM Software", false, items, ctx);
    let ghost s2 = sections@;
    assert(sections_view(s2) =~= v0 + (a + b));

    let items = lang_items_exec(&snap.non_rpm, ctx);
    let ghost c = opt_section("language_packages"@, "Language Packages"@, true, agg_items_view(items@), z);
    push_section_if(sections, "language_packages", "Language Packages", true, items, ctx);
    let ghost s3 = sections@;
    assert(sections_view(s3) =~= v0 + (a + b + c));

    let items = unmanaged_items_exec(&snap.unmanaged_files, ctx);
    let ghost d = opt_section("unmanaged_files"@, "Unmanaged Files"@, true, agg_items_view(items@), z);
    push_section_if(sections, "unmanaged_files", "Unmanaged Files", true, items, ctx);
    assert(sections_view(sections@) =~= v0 + (a + b + c + d));
    assert(a + b + c + d == software_sections_spec(*snap, z));
    proof {
        lemma_keeps_counts_trans(s0, s1, s2);
        lemma_keeps_counts_trans(s0, s2, s3);
        lemma_keeps_counts_trans(s0, s3, sections@);
        lemma_extends_trans(s0, s1, s2);
        lemma_extends_trans(s0, s2, s3);
        lemma_extends_trans(s0, s3, sections@);
    }
}

/// Appends the reference sections to `sections`, leaving the sections
/// already there as they were.
pub fn build_reference_sections(sections: &mut Vec<AggregateSection>, snap: &FleetSnapshot, ctx: &AggregateContext)
    ensures
        extends(old(sections)@, final(sections)@),
        sections_view(final(sections)@) == sections_view(old(sections)@) + reference_sections_spec(*snap, *ctx),
        keeps_counts(old(sections)@, final(sections)@),
{
    let ghost s0 = sections@;
    push_context_sections(sections, snap, ctx);
    let ghost s1 = sections@;
    push_software_sections(sections, snap, ctx);
    proof {
        lemma_keeps_counts_trans(s0, s1, sections@);
        lemma_extends_trans(s0, s1, sections@);
    }
    assert(sections_view(sections@) =~= sections_view(s0) + reference_sections_spec(*snap, *ctx));
}

#[verifier::spinoff_prover]
#[verifier::rlimit(40)]
pub fn build_aggregate_sections(snap: &FleetSnapshot, ctx: &AggregateContext) -> (v: Vec<AggregateSection>)
    ensures
        sections_view(v@) == aggregate_sections_spec(*snap, *ctx),
        counts_ok_from(v@, 0),
{
    let ghost z = *ctx;
    let mut sections: Vec<AggregateSection> = Vec::new();
    let ghost s0 = sections@;
    match &snap.packages {
        Some(ps) => {
            let items = package_items_exec(ps, ctx);
            push_section(&mut sections, "packages", "Packages", true, items, ctx);
        },
        None => {},
    }
    let ghost s1 = sections@;
    match &snap.configs {
        Some(c) => {
            let items = config_items_exec(c, ctx);
            push_section(&mut sections, "configs", "Configuration Files", true, items, ctx);
        },
        None => {},
    }
    let ghost s2 = sections@;

    let mut items = service_items_exec(&snap.services, ctx);
    push_grouped(&mut items, &snap.dropins, ctx);
    push_section_if(&mut sections, "services", "Services", true, items, ctx);
    let ghost s3 = sections@;

    let mut items: Vec<AggregateItem> = Vec::new();
    push_grouped(&mut items, &snap.quadlets, ctx);
    push_flatpaks(&mut items, &snap.flatpaks, ctx);
    assert(agg_items_view(items@) =~= grouped_items(snap.quadlets@, z) + snap.flatpaks@.map_values(|f: FleetFlatpak| flatpak_item(f, z)));
    push_section_if(&mut sections, "containers", "Containers", true, items, ctx);
    let ghost s4 = sections@;

    let mut items: Vec<AggregateItem> = Vec::new();
    push_grouped(&mut items, &snap.sysctls, ctx);
    assert(agg_items_view(items@) =~= grouped_items(snap.sysctls@, z));
    push_section_if(&mut sections, "sysctls", "Kernel Parameters", true, items, ctx);
    let ghost s5 = sections@;

    let items = tuned_items_exec(&snap.tuned, snap.tuned_included, ctx);
    push_section_if(&mut sections, "tuned", "Tuned Profiles", true, items, ctx);
    let ghost s6 = sections@;

    build_reference_sections(&mut sections, snap, ctx);
    proof {
        assert(counts_ok_from(s0, 0));
        assert(keeps_counts(s0, s1));
        lemma_keeps_counts_trans(s0, s1, s2);
        lemma_keeps_counts_trans(s0, s2, s3);
        lemma_keeps_counts_trans(s0, s3, s4);
        lemma_keeps_counts_trans(s0, s4, s5);
        lemma_keeps_counts_trans(s0, s5, s6);
        lemma_keeps_counts_trans(s0, s6, sections@);
    }
    assert(sections_view(sections@) =~= aggregate_sections_spec(*snap, *ctx));
    sections
}

} // verus!

verus! {

// ---- laws ----

proof fn lemma_best_index(ss: Seq<FleetSysctl>)
    requires
        ss.len() > 0,
    ensures
        0 <= best_index(ss) < ss.len(),
        forall|j: int| 0 <= j < ss.len() ==> sysctl_count(#[trigger] ss[j]) <= sysctl_count(ss[best_index(ss)]),
        forall|j: int| best_index(ss) < j < ss.len() ==> sysctl_count(#[trigger] ss[j]) < sysctl_count(ss[best_index(ss)]),
    decreases ss.len(),
{
    if ss.len() > 1 {
        let init = ss.drop_last();
        lemma_best_index(init);
        let b = best_index(init);
        assert(init[b] == ss[b]);
        assert forall|j: int| 0 <= j < ss.len() - 1 implies #[trigger] ss[j] == init[j] by {}
    }
}

/// A kernel parameter is shown by its most prevalent value: no value is
/// on more hosts, and among equally prevalent values the last one wins.
pub proof fn law_sysctl_shows_most_prevalent(ss: Seq<FleetSysctl>)
    requires
        ss.len() > 0,
    ensures
        0 <= best_index(ss) < ss.len(),
        forall|j: int| 0 <= j < ss.len() ==> sysctl_count(#[trigger] ss[j]) <= sysctl_count(ss[best_index(ss)]),
        forall|j: int| best_index(ss) < j < ss.len() ==> sysctl_count(#[trigger] ss[j]) < sysctl_count(ss[best_index(ss)]),
{
    lemma_best_index(ss);
}

proof fn lemma_first_chosen_found(vs: Seq<ContentVariant>, i: int, j: int)
    requires
        0 <= i <= j < vs.len(),
        chosen(vs[j]),
    ensures
        i <= first_chosen_from(vs, i) <= j,
        chosen(vs[first_chosen_from(vs, i)]),
        forall|k: int| i <= k < first_chosen_from(vs, i) ==> !chosen(#[trigger] vs[k]),
    decreases vs.len() - i,
{
    if !chosen(vs[i]) {
        lemma_first_chosen_found(vs, i + 1, j);
    }
}

/// When an item has a chosen variant, it is shown by the first chosen
/// one, whose hash is the item's selected hash and whose option is marked
/// selected; an item lists one option per variant.
pub proof fn law_representative_is_selected(vs: Seq<ContentVariant>)
    requires
        vs.len() > 0,
        exists|j: int| 0 <= j < vs.len() && chosen(#[trigger] vs[j]),
    ensures
        chosen(vs[rep_index(vs)]),
        forall|k: int| 0 <= k < rep_index(vs) ==> !chosen(#[trigger] vs[k]),
        content_variants(vs).selected == vs[rep_index(vs)].content_hash@,
        content_variants(vs).options.len() == vs.len(),
        content_variants(vs).options[rep_index(vs)].selected,
{
    let j = choose|j: int| 0 <= j < vs.len() && chosen(#[trigger] vs[j]);
    lemma_first_chosen_found(vs, 0, j);
    lemma_first_chosen_range(vs, 0);
}

/// A tuned profile's prevalence shows whether it is kept: on every host
/// when it is, on fewer than all when it is not.
pub proof fn law_tuned_count_shows_universality(t: FleetTuned, included: bool, ctx: AggregateContext)
    requires
        0 < ctx.total_hosts <= u32::MAX,
    ensures
        included ==> tuned_item(t, included, ctx).prevalence.count == tuned_item(t, included, ctx).prevalence.total,
        !included ==> tuned_item(t, included, ctx).prevalence.count < tuned_item(t, included, ctx).prevalence.total,
{
    assert(ctx.total_hosts as u32 == ctx.total_hosts);
}

} // verus!

verus! {

// ---- the summary ----

/// How the variants of a config path are spread across the fleet: how
/// many there are and on how many hosts each is.
pub struct VariantDistribution {
    pub path: String,
    pub variant_count: usize,
    pub host_split: Vec<usize>,
}

/// A config path with variants, which the user has to decide on.
pub struct ActionableVariantItem {
    pub item_id: ItemId,
    pub section_id: String,
    pub variant_count: usize,
    pub max_host_spread: usize,
}

/// The head of the fleet view.
pub struct AggregateSummary {
    pub host_count: usize,
    pub actionable_variant_items: Vec<ActionableVariantItem>,
    pub informational_variant_count: usize,
    pub leaf_authority_hosts: Option<u32>,
    pub leaf_total_hosts: Option<u32>,
}

/// The largest number, 0 for none.
pub open spec fn max_of(s: Seq<usize>) -> usize
    decreases s.len(),
{
    if s.len() == 0 {
        0
    } else {
        let m = max_of(s.drop_last());
        if s.last() > m { s.last() } else { m }
    }
}

pub open spec fn actionable_view(a: ActionableVariantItem) -> (ItemIdView, Seq<char>, usize, usize) {
    (crate::tui_types::item_id_view(a.item_id), a.section_id@, a.variant_count, a.max_host_spread)
}

/// A config path's variants as an actionable item of the configs section.
pub open spec fn actionable_spec(d: VariantDistribution) -> (ItemIdView, Seq<char>, usize, usize) {
    (ItemIdView::Config { path: d.path@ }, "configs"@, d.variant_count, max_of(d.host_split@))
}

/// All items of a section, zone by zone, then the flat list.
pub open spec fn section_items(s: SectionView) -> Seq<AggregateItemView> {
    (match s.zones {
        Some(z) => z.0 + z.1 + z.2,
        None => Seq::empty(),
    }) + (match s.items {
        Some(v) => v,
        None => Seq::empty(),
    })
}

pub open spec fn count_with_variants(items: Seq<AggregateItemView>) -> nat
    decreases items.len(),
{
    if items.len() == 0 {
        0
    } else {
        count_with_variants(items.drop_last()) + (if items.last().variants is Some { 1nat } else { 0nat })
    }
}

/// The number of items with variants in the sections that are not
/// decision sections.
pub open spec fn informational_count(ss: Seq<SectionView>) -> nat
    decreases ss.len(),
{
    if ss.len() == 0 {
        0
    } else {
        informational_count(ss.drop_last()) + (if ss.last().is_decision_section { 0nat } else { count_with_variants(section_items(ss.last())) })
    }
}

pub open spec fn item_total(ss: Seq<SectionView>) -> nat
    decreases ss.len(),
{
    if ss.len() == 0 {
        0
    } else {
        item_total(ss.drop_last()) + section_items(ss.last()).len()
    }
}

proof fn lemma_count_le(items: Seq<AggregateItemView>)
    ensures
        count_with_variants(items) <= items.len(),
    decreases items.len(),
{
    if items.len() > 0 {
        lemma_count_le(items.drop_last());
    }
}

proof fn lemma_informational_le(ss: Seq<SectionView>)
    ensures
        informational_count(ss) <= item_total(ss),
    decreases ss.len(),
{
    if ss.len() > 0 {
        lemma_informational_le(ss.drop_last());
        lemma_count_le(section_items(ss.last()));
    }
}

fn count_items_with_variants(items: &Vec<AggregateItem>) -> (n: usize)
    ensures
        n == count_with_variants(agg_items_view(items@)),
{
    let ghost iv = agg_items_view(items@);
    let mut n: usize = 0;
    let mut i: usize = 0;
    while i < items.len()
        invariant
            0 <= i <= items@.len(),
            iv == agg_items_view(items@),
            n == count_with_variants(iv.take(i as int)),
            n <= i,
        decreases items@.len() - i,
    {
        assert(iv.take(i + 1).drop_last() =~= iv.take(i as int));
        assert(iv.take(i + 1).last() == agg_item_view(items@[i as int]));
        if items[i].variants.is_some() {
            n = n + 1;
        }
        i = i + 1;
    }
    assert(iv.take(items@.len() as int) =~= iv);
    n
}

proof fn lemma_count_concat(a: Seq<AggregateItemView>, b: Seq<AggregateItemView>)
    ensures
        count_with_variants(a + b) == count_with_variants(a) + count_with_variants(b),
    decreases b.len(),
{
    if b.len() == 0 {
        assert(a + b =~= a);
    } else {
        lemma_count_concat(a, b.drop_last());
        assert((a + b).drop_last() =~= a + b.drop_last());
    }
}

fn section_variant_count(s: &AggregateSection) -> (n: usize)
    requires
        section_items(section_view(*s)).len() <= usize::MAX,
    ensures
        n == count_with_variants(section_items(section_view(*s))),
{
    let ghost sv = section_view(*s);
    let mut n: usize = 0;
    match &s.zones {
        Some(z) => {
            let c = count_items_with_variants(&z.consensus.items);
            let m = count_items_with_variants(&z.near_consensus.items);
            let d = count_items_with_variants(&z.divergent.items);
            proof {
                let zv = sv.zones.unwrap();
                lemma_count_concat(zv.0, zv.1);
                lemma_count_concat(zv.0 + zv.1, zv.2);
                lemma_count_le(zv.0);
                lemma_count_le(zv.1);
                lemma_count_le(zv.2);
                lemma_count_concat(zv.0 + zv.1 + zv.2, match sv.items { Some(v) => v, None => Seq::empty() });
            }
            n = c + m + d;
        },
        None => {
            proof {
                lemma_count_concat(Seq::empty(), match sv.items { Some(v) => v, None => Seq::empty() });
            }
        },
    }
    match &s.items {
        Some(v) => {
            let f = count_items_with_variants(v);
            proof {
                lemma_count_le(agg_items_view(v@));
                let head = match sv.zones { Some(z) => z.0 + z.1 + z.2, None => Seq::<AggregateItemView>::empty() };
                lemma_count_le(head);
                lemma_count_concat(head, agg_items_view(v@));
            }
            n = n + f;
        },
        None => {
            proof {
                let head = match sv.zones { Some(z) => z.0 + z.1 + z.2, None => Seq::<AggregateItemView>::empty() };
                assert(head + Seq::<AggregateItemView>::empty() =~= head);
            }
        },
    }
    n
}

proof fn lemma_max_of(s: Seq<usize>)
    ensures
        forall|i: int| 0 <= i < s.len() ==> s[i] <= max_of(s),
        s.len() > 0 ==> s.contains(max_of(s)),
        s.len() == 0 ==> max_of(s) == 0,
    decreases s.len(),
{
    if s.len() > 0 {
        let init = s.drop_last();
        lemma_max_of(init);
        assert forall|i: int| 0 <= i < s.len() implies s[i] <= max_of(s) by {
            if i < init.len() {
                assert(s[i] == init[i]);
            }
        }
        if s.last() > max_of(init) || init.len() == 0 {
            assert(s[s.len() - 1] == s.last());
            if init.len() == 0 && s.last() <= max_of(init) {
                assert(max_of(s) == 0 && s.last() == 0);
            }
        } else {
            let j = choose|j: int| 0 <= j < init.len() && init[j] == max_of(init);
            assert(s[j] == init[j]);
        }
    }
}

/// A config path's largest host spread is the largest of its host splits:
/// one of them, at least as large as each, and 0 when there is none. So
/// the summary's actionable item for each variant distribution reports
/// exactly that largest split.
pub proof fn law_max_host_spread(d: VariantDistribution)
    ensures
        forall|i: int| 0 <= i < d.host_split@.len() ==> d.host_split@[i] <= #[trigger] actionable_spec(d).3,
        d.host_split@.len() > 0 ==> d.host_split@.contains(actionable_spec(d).3),
        d.host_split@.len() == 0 ==> actionable_spec(d).3 == 0,
{
    lemma_max_of(d.host_split@);
}

/// The informational variant count adds up over joined section lists:
/// a decision section adds nothing, any other section adds one for each of
/// its items that has variants, whether in its flat list or its zones.
pub proof fn law_informational_count_adds(a: Seq<SectionView>, b: Seq<SectionView>)
    ensures
        informational_count(a + b) == informational_count(a) + informational_count(b),
        forall|x: SectionView| #[trigger] informational_count(seq![x])
            == if x.is_decision_section { 0nat } else { count_with_variants(section_items(x)) },
        forall|y: Seq<AggregateItemView>, z: Seq<AggregateItemView>| #[trigger] count_with_variants(y + z)
            == count_with_variants(y) + count_with_variants(z),
        forall|it: AggregateItemView| #[trigger] count_with_variants(seq![it]) == if it.variants is Some { 1nat } else { 0nat },
    decreases b.len(),
{
    assert forall|x: SectionView| #[trigger] informational_count(seq![x])
        == if x.is_decision_section { 0nat } else { count_with_variants(section_items(x)) } by {
        assert(seq![x].drop_last() =~= Seq::<SectionView>::empty());
        assert(informational_count(Seq::<SectionView>::empty()) == 0);
        assert(seq![x].last() == x);
    }
    assert forall|y: Seq<AggregateItemView>, z: Seq<AggregateItemView>| #[trigger] count_with_variants(y + z)
        == count_with_variants(y) + count_with_variants(z) by {
        lemma_count_concat(y, z);
    }
    assert forall|it: AggregateItemView| #[trigger] count_with_variants(seq![it]) == if it.variants is Some { 1nat } else { 0nat } by {
        assert(seq![it].drop_last() =~= Seq::<AggregateItemView>::empty());
        assert(count_with_variants(Seq::<AggregateItemView>::empty()) == 0);
        assert(seq![it].last() == it);
    }
    if b.len() == 0 {
        assert(a + b =~= a);
    } else {
        law_informational_count_adds(a, b.drop_last());
        assert((a + b).drop_last() =~= a + b.drop_last());
        assert((a + b).last() == b.last());
    }
}

fn max_exec(s: &Vec<usize>) -> (m: usize)
    ensures
        m == max_of(s@),
{
    let mut m: usize = 0;
    let mut i: usize = 0;
    while i < s.len()
        invariant
            0 <= i <= s@.len(),
            m == max_of(s@.take(i as int)),
        decreases s@.len() - i,
    {
        assert(s@.take(i + 1).drop_last() =~= s@.take(i as int));
        if s[i] > m {
            m = s[i];
        }
        i = i + 1;
    }
    assert(s@.take(s@.len() as int) =~= s@);
    m
}

/// The head of the fleet view: the fleet's size, the config paths with
/// variants (as the variant summary lists them), how many items of the
/// other sections have variants, and the leaf package host counts of the
/// package section when there is one.
pub fn build_aggregate_summary(
    distribution: &Option<Vec<VariantDistribution>>,
    sections: &Vec<AggregateSection>,
    leaf_hosts: Option<(Option<u32>, Option<u32>)>,
    ctx: &AggregateContext,
) -> (r: AggregateSummary)
    requires
        item_total(sections_view(sections@)) <= usize::MAX,
    ensures
        r.host_count == ctx.total_hosts,
        r.actionable_variant_items@.map_values(|a: ActionableVariantItem| actionable_view(a)) == (match *distribution {
            Some(ds) => ds@.map_values(|d: VariantDistribution| actionable_spec(d)),
            None => Seq::empty(),
        }),
        r.informational_variant_count == informational_count(sections_view(sections@)),
        (r.leaf_authority_hosts, r.leaf_total_hosts) == (match leaf_hosts {
            Some(l) => l,
            None => (None, None),
        }),
{
    let mut actionable: Vec<ActionableVariantItem> = Vec::new();
    match distribution {
        Some(ds) => {
            let ghost want = ds@.map_values(|d: VariantDistribution| actionable_spec(d));
            let mut i: usize = 0;
            while i < ds.len()
                invariant
                    0 <= i <= ds@.len(),
                    want == ds@.map_values(|d: VariantDistribution| actionable_spec(d)),
                    actionable@.map_values(|a: ActionableVariantItem| actionable_view(a)) == want.take(i as int),
                decreases ds@.len() - i,
            {
                let d = &ds[i];
                let a = ActionableVariantItem {
                    item_id: ItemId::Config { path: copy_string(&d.path) },
                    section_id: own("configs"),
                    variant_count: d.variant_count,
                    max_host_spread: max_exec(&d.host_split),
                };
                let ghost before = actionable@;
                actionable.push(a);
                assert(actionable@.map_values(|a: ActionableVariantItem| actionable_view(a))
                    =~= before.map_values(|a: ActionableVariantItem| actionable_view(a)).push(actionable_view(a)));
                assert(want.take(i + 1) =~= want.take(i as int).push(want[i as int]));
                i = i + 1;
            }
            assert(want.take(ds@.len() as int) =~= want);
        },
        None => {},
    }
    let ghost sv = sections_view(sections@);
    let mut count: usize = 0;
    let mut i: usize = 0;
    while i < sections.len()
        invariant
            0 <= i <= sections@.len(),
            sv == sections_view(sections@),
            item_total(sv) <= usize::MAX,
            count == informational_count(sv.take(i as int)),
            count <= item_total(sv.take(i as int)),
            item_total(sv.take(i as int)) <= item_total(sv),
        decreases sections@.len() - i,
    {
        let ghost pre = sv.take(i as int);
        let ghost nxt = sv.take(i + 1);
        assert(nxt.drop_last() =~= pre);
        assert(nxt.last() == section_view(sections@[i as int]));
        proof {
            lemma_item_total_prefix(sv, i + 1);
        }
        let s = &sections[i];
        if !s.is_decision_section {
            let c = section_variant_count(s);
            proof {
                lemma_count_le(section_items(section_view(*s)));
            }
            count = count + c;
        }
        i = i + 1;
    }
    assert(sv.take(sections@.len() as int) =~= sv);
    let (leaf_authority_hosts, leaf_total_hosts) = match leaf_hosts {
        Some(l) => l,
        None => (None, None),
    };
    AggregateSummary {
        host_count: ctx.total_hosts,
        actionable_variant_items: actionable,
        informational_variant_count: count,
        leaf_authority_hosts,
        leaf_total_hosts,
    }
}

proof fn lemma_item_total_prefix(ss: Seq<SectionView>, k: int)
    requires
        0 <= k <= ss.len(),
    ensures
        item_total(ss.take(k)) <= item_total(ss),
    decreases ss.len() - k,
{
    if k < ss.len() {
        lemma_item_total_prefix(ss, k + 1);
        assert(ss.take(k + 1).drop_last() =~= ss.take(k));
    } else {
        assert(ss.take(k) =~= ss);
    }
}

} // verus!
