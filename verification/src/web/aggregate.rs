//! DTOs of the fleet (aggregate) view, the merge layer's prevalence and
//! triage data they are built from, and the per-item and per-section
//! projections into them.

use vstd::prelude::*;
use crate::screen::TriageBucket;
use crate::tui_types::{item_id_view, ItemId, ItemIdView};

verus! {

/// A repository that items come from, with the number of hosts using it.
#[derive(Clone, Debug, PartialEq, Eq)]
pub struct RepoSourceEntryDto {
    pub repo: String,
    pub host_count: usize,
}

/// On how many of the fleet's hosts an item occurs.
#[derive(Clone, Copy, Debug, PartialEq, Eq, Structural)]
pub struct AggregatePrevalenceDto {
    pub count: u32,
    pub total: u32,
}

/// The content variants of an item across hosts.
#[derive(Clone, Debug, PartialEq, Eq)]
pub struct AggregateVariants {
    pub count: usize,
    pub selected: String,
    pub options: Vec<AggregateVariantOption>,
}

/// One content variant: its hash and the hosts that have it.
#[derive(Clone, Debug, PartialEq, Eq)]
pub struct AggregateVariantOption {
    pub hash: String,
    pub hosts: Vec<String>,
    pub host_count: usize,
    pub selected: bool,
}

/// Metadata of a language package environment row.
#[derive(Clone, Debug, PartialEq, Eq)]
pub struct LanguagePackageMetadata {
    /// Ecosystem identifier (pip, npm, gem).
    pub ecosystem: String,
    /// Confidence level (high, medium, low).
    pub confidence: String,
    /// Number of packages in the environment.
    pub package_count: usize,
    /// Manifest file the package list was read from.
    pub manifest_basis: Option<String>,
    /// Full package list for the detail pane.
    pub packages: Vec<LanguagePackageDto>,
}

/// A language package: name and version.
#[derive(Clone, Debug, PartialEq, Eq)]
pub struct LanguagePackageDto {
    pub name: String,
    pub version: String,
}

/// Metadata of an unmanaged file row.
#[derive(Clone, Debug, PartialEq, Eq)]
pub struct UnmanagedFileMetadata {
    /// Detected file type (elf_binary, jar, script, ...).
    pub file_type: String,
    /// File size in bytes.
    pub size: u64,
    /// Whether the path is under /var (persistence warning).
    pub under_var: bool,
    /// Provenance detail for the detail pane.
    pub provenance: UnmanagedFileProvenanceDto,
}

/// Provenance detail of an unmanaged file.
#[derive(Clone, Debug, PartialEq, Eq)]
pub struct UnmanagedFileProvenanceDto {
    pub last_modified: u64,
    pub uid: u32,
    pub gid: u32,
    pub permissions: String,
    pub writable_mount: bool,
    pub mutability: bool,
    pub service_working_dir: bool,
}

/// Per-variant package lists of a language environment, for diffing.
#[derive(Clone, Debug, PartialEq, Eq)]
pub struct LanguagePackageVariantPayload {
    pub variant_packages: Vec<VariantPackageList>,
}

/// The package list of one variant.
#[derive(Clone, Debug, PartialEq, Eq)]
pub struct VariantPackageList {
    pub content_hash: String,
    pub hosts: Vec<String>,
    pub host_count: usize,
    pub selected: bool,
    pub packages: Vec<LanguagePackageDto>,
}

/// Per-variant metadata of an unmanaged file, for comparison.
#[derive(Clone, Debug, PartialEq, Eq)]
pub struct UnmanagedFileVariantPayload {
    pub variant_metadata: Vec<VariantFileMetadata>,
}

/// The metadata of one variant of an unmanaged file.
#[derive(Clone, Debug, PartialEq, Eq)]
pub struct VariantFileMetadata {
    pub content_hash: String,
    pub hosts: Vec<String>,
    pub host_count: usize,
    pub selected: bool,
    pub size: u64,
    pub last_modified: u64,
}

/// The diff between two variants of a config file.
#[derive(Clone, Debug, PartialEq, Eq)]
pub struct AggregateDiffResponse {
    pub base_hash: String,
    pub target_hash: String,
    pub base_hosts: Vec<String>,
    pub target_hosts: Vec<String>,
    pub hunks: Vec<AggregateDiffHunk>,
    pub stats: AggregateDiffStats,
}

/// One hunk of a diff.
#[derive(Clone, Debug, PartialEq, Eq)]
pub struct AggregateDiffHunk {
    pub base_range: AggregateLineRange,
    pub target_range: AggregateLineRange,
    pub changes: Vec<AggregateDiffChange>,
}

/// A range of lines: first line and count.
#[derive(Clone, Copy, Debug, PartialEq, Eq, Structural)]
pub struct AggregateLineRange {
    pub start: usize,
    pub count: usize,
}

/// One line of a hunk: its kind (`equal`, `delete`, `insert`) and text.
#[derive(Clone, Debug, PartialEq, Eq)]
pub struct AggregateDiffChange {
    pub kind: String,
    pub content: String,
}

/// Totals of a diff.
#[derive(Clone, Copy, Debug, PartialEq, Eq, Structural)]
pub struct AggregateDiffStats {
    pub total_changes: usize,
    pub insertions: usize,
    pub deletions: usize,
}

} // verus!

verus! {

// ---- what the merge layer hands over ----

/// How widely an item is shared across the fleet.
#[derive(Clone, Copy, Debug, PartialEq, Eq, Structural)]
pub enum PrevalenceZone {
    Consensus,
    NearConsensus,
    Divergent,
}

/// Which of an item's content variants a host entry is.
#[derive(Clone, Copy, Debug, PartialEq, Eq, Structural)]
pub enum VariantSelection {
    /// The item has a single variant.
    Only,
    /// The variant chosen for the image.
    Selected,
    /// A variant that was not chosen.
    Alternative,
}

/// On how many of the fleet's hosts an entry occurs, on which hosts, and
/// the zone the merge layer classified that prevalence into.
#[derive(Clone, Debug)]
pub struct HostPrevalence {
    pub count: i32,
    pub total: i32,
    pub hosts: Vec<String>,
    pub zone: PrevalenceZone,
}

/// The fleet-level triage bucket of an item.
#[derive(Clone, Copy, Debug, PartialEq, Eq, Structural)]
pub enum AggregateBucket {
    Investigate,
    Divergent,
    Partial,
    Universal,
}

/// Whether an item was triaged at fleet level or as on a single host.
#[derive(Clone, Copy, Debug, PartialEq, Eq, Structural)]
pub enum TriageKind {
    Aggregate(AggregateBucket),
    SingleHost,
}

/// Why an item was triaged as it was.
#[derive(Clone, Debug)]
pub enum TriageReason {
    PackageBaselineMatch,
    PackageUserAdded,
    PackageVersionChanged,
    PackageProvenanceUnavailable,
    PackageLocalInstall,
    PackageNoRepoSource,
    PackageConfigCaptured,
    ConfigDefault,
    ConfigBaselineMatch,
    ConfigModified,
    ConfigUnowned,
    ConfigOrphaned,
    SensitivePath,
    PackagePlatformPlumbing,
    PackageInstallerDefault,
    PackageInstallerPromotedService,
    PackageInstallerPromotedConfig,
    PackageInstallerAmbiguous,
    PackageInstallerEvidenceUnavailable,
    /// A reason given as free text.
    Custom(String),
    /// Any other reason, carried by its name.
    Other(String),
}

/// The triage of an item: bucket, primary reason, and how it was made.
#[derive(Clone, Debug)]
pub struct TriageTag {
    pub bucket: TriageBucket,
    pub primary_reason: TriageReason,
    pub triage: TriageKind,
}

/// Several repositories provide a package (`name.arch`) across the fleet.
#[derive(Clone, Debug)]
pub struct RepoConflict {
    pub name_arch: String,
    pub sources: Vec<RepoSourceEntryDto>,
}

/// The fleet the view is built for: its size, whether prevalence zones
/// are shown, and the repository conflicts by `name.arch`.
#[derive(Clone, Debug)]
pub struct AggregateContext {
    pub total_hosts: usize,
    pub zones_active: bool,
    pub repo_conflicts: Vec<RepoConflict>,
}

// ---- DTOs ----

/// The triage of an item as the fleet view shows it.
#[derive(Clone, Debug)]
pub struct AggregateTriageDto {
    pub bucket: String,
    pub reason: String,
    pub zone: Option<PrevalenceZone>,
    pub prevalence: u32,
}

/// Section-specific metadata of an item.
#[derive(Clone, Debug)]
pub enum SectionMetadata {
    LanguagePackages(LanguagePackageMetadata),
    UnmanagedFile(UnmanagedFileMetadata),
}

/// Section-specific inputs for comparing an item's variants.
#[derive(Clone, Debug)]
pub enum VariantPayload {
    LanguagePackages(LanguagePackageVariantPayload),
    UnmanagedFile(UnmanagedFileVariantPayload),
}

/// One row of the fleet view.
#[derive(Clone, Debug)]
pub struct AggregateItem {
    pub item_id: ItemId,
    pub included: bool,
    pub locked: bool,
    pub attention_reason: Option<String>,
    pub triage: AggregateTriageDto,
    pub prevalence: AggregatePrevalenceDto,
    pub variants: Option<AggregateVariants>,
    pub source_repo: String,
    pub repo_conflict: Option<Vec<RepoSourceEntryDto>>,
    pub section_metadata: Option<SectionMetadata>,
    pub variant_payload: Option<VariantPayload>,
}

/// The items of one prevalence zone and their number.
#[derive(Debug)]
pub struct AggregateZoneGroup {
    pub items: Vec<AggregateItem>,
    pub count: usize,
}

/// A section's items by prevalence zone.
#[derive(Debug)]
pub struct AggregateZones {
    pub consensus: AggregateZoneGroup,
    pub near_consensus: AggregateZoneGroup,
    pub divergent: AggregateZoneGroup,
}

/// A section of the fleet view: its items grouped by zone when zones are
/// active, else as one flat list.
#[derive(Debug)]
pub struct AggregateSection {
    pub id: String,
    pub display_name: String,
    pub is_decision_section: bool,
    pub zones: Option<AggregateZones>,
    pub items: Option<Vec<AggregateItem>>,
}

// ---- views ----

pub open spec fn strings_view(v: Seq<String>) -> Seq<Seq<char>> {
    v.map_values(|s: String| s@)
}

pub open spec fn opt_view(o: Option<String>) -> Option<Seq<char>> {
    match o {
        Some(s) => Some(s@),
        None => None,
    }
}

pub struct TriageDtoView {
    pub bucket: Seq<char>,
    pub reason: Seq<char>,
    pub zone: Option<PrevalenceZone>,
    pub prevalence: u32,
}

pub open spec fn triage_dto_view(t: AggregateTriageDto) -> TriageDtoView {
    TriageDtoView { bucket: t.bucket@, reason: t.reason@, zone: t.zone, prevalence: t.prevalence }
}

pub struct VariantOptionView {
    pub hash: Seq<char>,
    pub hosts: Seq<Seq<char>>,
    pub host_count: usize,
    pub selected: bool,
}

pub open spec fn option_view(o: AggregateVariantOption) -> VariantOptionView {
    VariantOptionView { hash: o.hash@, hosts: strings_view(o.hosts@), host_count: o.host_count, selected: o.selected }
}

pub struct VariantsView {
    pub count: usize,
    pub selected: Seq<char>,
    pub options: Seq<VariantOptionView>,
}

pub open spec fn variants_view(v: AggregateVariants) -> VariantsView {
    VariantsView { count: v.count, selected: v.selected@, options: v.options@.map_values(|o: AggregateVariantOption| option_view(o)) }
}

pub open spec fn package_dto_view(p: LanguagePackageDto) -> (Seq<char>, Seq<char>) {
    (p.name@, p.version@)
}

pub open spec fn package_dtos_view(ps: Seq<LanguagePackageDto>) -> Seq<(Seq<char>, Seq<char>)> {
    ps.map_values(|p: LanguagePackageDto| package_dto_view(p))
}

pub struct LanguageMetadataView {
    pub ecosystem: Seq<char>,
    pub confidence: Seq<char>,
    pub package_count: usize,
    pub manifest_basis: Option<Seq<char>>,
    pub packages: Seq<(Seq<char>, Seq<char>)>,
}

pub struct FileMetadataView {
    pub file_type: Seq<char>,
    pub size: u64,
    pub under_var: bool,
    pub last_modified: u64,
    pub uid: u32,
    pub gid: u32,
    pub permissions: Seq<char>,
    pub writable_mount: bool,
    pub mutability: bool,
    pub service_working_dir: bool,
}

pub enum MetadataView {
    LanguagePackages(LanguageMetadataView),
    UnmanagedFile(FileMetadataView),
}

pub open spec fn language_metadata_view(m: LanguagePackageMetadata) -> LanguageMetadataView {
    LanguageMetadataView {
        ecosystem: m.ecosystem@,
        confidence: m.confidence@,
        package_count: m.package_count,
        manifest_basis: opt_view(m.manifest_basis),
        packages: package_dtos_view(m.packages@),
    }
}

pub open spec fn file_metadata_view(m: UnmanagedFileMetadata) -> FileMetadataView {
    FileMetadataView {
        file_type: m.file_type@,
        size: m.size,
        under_var: m.under_var,
        last_modified: m.provenance.last_modified,
        uid: m.provenance.uid,
        gid: m.provenance.gid,
        permissions: m.provenance.permissions@,
        writable_mount: m.provenance.writable_mount,
        mutability: m.provenance.mutability,
        service_working_dir: m.provenance.service_working_dir,
    }
}

pub open spec fn metadata_view(m: SectionMetadata) -> MetadataView {
    match m {
        SectionMetadata::LanguagePackages(x) => MetadataView::LanguagePackages(language_metadata_view(x)),
        SectionMetadata::UnmanagedFile(x) => MetadataView::UnmanagedFile(file_metadata_view(x)),
    }
}

pub struct PackageListView {
    pub content_hash: Seq<char>,
    pub hosts: Seq<Seq<char>>,
    pub host_count: usize,
    pub selected: bool,
    pub packages: Seq<(Seq<char>, Seq<char>)>,
}

pub open spec fn package_list_view(l: VariantPackageList) -> PackageListView {
    PackageListView {
        content_hash: l.content_hash@,
        hosts: strings_view(l.hosts@),
        host_count: l.host_count,
        selected: l.selected,
        packages: package_dtos_view(l.packages@),
    }
}

pub struct FileVariantView {
    pub content_hash: Seq<char>,
    pub hosts: Seq<Seq<char>>,
    pub host_count: usize,
    pub selected: bool,
    pub size: u64,
    pub last_modified: u64,
}

pub open spec fn file_variant_view(m: VariantFileMetadata) -> FileVariantView {
    FileVariantView {
        content_hash: m.content_hash@,
        hosts: strings_view(m.hosts@),
        host_count: m.host_count,
        selected: m.selected,
        size: m.size,
        last_modified: m.last_modified,
    }
}

pub enum PayloadView {
    LanguagePackages(Seq<PackageListView>),
    UnmanagedFile(Seq<FileVariantView>),
}

pub open spec fn payload_view(p: VariantPayload) -> PayloadView {
    match p {
        VariantPayload::LanguagePackages(x) => PayloadView::LanguagePackages(
            x.variant_packages@.map_values(|l: VariantPackageList| package_list_view(l)),
        ),
        VariantPayload::UnmanagedFile(x) => PayloadView::UnmanagedFile(
            x.variant_metadata@.map_values(|m: VariantFileMetadata| file_variant_view(m)),
        ),
    }
}

pub open spec fn repo_source_view(e: RepoSourceEntryDto) -> (Seq<char>, usize) {
    (e.repo@, e.host_count)
}

pub open spec fn repo_sources_view(es: Seq<RepoSourceEntryDto>) -> Seq<(Seq<char>, usize)> {
    es.map_values(|e: RepoSourceEntryDto| repo_source_view(e))
}

pub struct AggregateItemView {
    pub item_id: ItemIdView,
    pub included: bool,
    pub locked: bool,
    pub attention_reason: Option<Seq<char>>,
    pub triage: TriageDtoView,
    pub prevalence: AggregatePrevalenceDto,
    pub variants: Option<VariantsView>,
    pub source_repo: Seq<char>,
    pub repo_conflict: Option<Seq<(Seq<char>, usize)>>,
    pub section_metadata: Option<MetadataView>,
    pub variant_payload: Option<PayloadView>,
}

pub open spec fn agg_item_view(it: AggregateItem) -> AggregateItemView {
    AggregateItemView {
        item_id: item_id_view(it.item_id),
        included: it.included,
        locked: it.locked,
        attention_reason: opt_view(it.attention_reason),
        triage: triage_dto_view(it.triage),
        prevalence: it.prevalence,
        variants: match it.variants {
            Some(v) => Some(variants_view(v)),
            None => None,
        },
        source_repo: it.source_repo@,
        repo_conflict: match it.repo_conflict {
            Some(es) => Some(repo_sources_view(es@)),
            None => None,
        },
        section_metadata: match it.section_metadata {
            Some(m) => Some(metadata_view(m)),
            None => None,
        },
        variant_payload: match it.variant_payload {
            Some(p) => Some(payload_view(p)),
            None => None,
        },
    }
}

pub open spec fn agg_items_view(v: Seq<AggregateItem>) -> Seq<AggregateItemView> {
    v.map_values(|it: AggregateItem| agg_item_view(it))
}

pub struct SectionView {
    pub id: Seq<char>,
    pub display_name: Seq<char>,
    pub is_decision_section: bool,
    pub zones: Option<(Seq<AggregateItemView>, Seq<AggregateItemView>, Seq<AggregateItemView>)>,
    pub items: Option<Seq<AggregateItemView>>,
}

pub open spec fn section_view(s: AggregateSection) -> SectionView {
    SectionView {
        id: s.id@,
        display_name: s.display_name@,
        is_decision_section: s.is_decision_section,
        zones: match s.zones {
            Some(z) => Some((agg_items_view(z.consensus.items@), agg_items_view(z.near_consensus.items@), agg_items_view(z.divergent.items@))),
            None => None,
        },
        items: match s.items {
            Some(v) => Some(agg_items_view(v@)),
            None => None,
        },
    }
}

pub open spec fn sections_view(v: Seq<AggregateSection>) -> Seq<SectionView> {
    v.map_values(|s: AggregateSection| section_view(s))
}

/// Each zone group's count is the number of its items.
pub open spec fn zone_counts_ok(s: AggregateSection) -> bool {
    s.zones matches Some(z) ==> {
        &&& z.consensus.count == z.consensus.items@.len()
        &&& z.near_consensus.count == z.near_consensus.items@.len()
        &&& z.divergent.count == z.divergent.items@.len()
    }
}

// ---- triage and prevalence ----

/// A merge-layer count as an unsigned number, negatives as zero.
pub open spec fn clamp_u32(c: i32) -> u32 {
    if c < 0 { 0 } else { c as u32 }
}

pub open spec fn clamp_usize(c: i32) -> usize {
    if c < 0 { 0 } else { c as usize }
}

/// The prevalence shown for an entry: its count and total, or none of the
/// fleet's hosts when it has no prevalence data.
pub open spec fn prevalence_dto_spec(fp: Option<HostPrevalence>, ctx: AggregateContext) -> AggregatePrevalenceDto {
    AggregatePrevalenceDto {
        count: match fp {
            Some(f) => clamp_u32(f.count),
            None => 0,
        },
        total: match fp {
            Some(f) => clamp_u32(f.total),
            None => ctx.total_hosts as u32,
        },
    }
}

pub fn aggregate_prevalence_dto(fp: &Option<HostPrevalence>, ctx: &AggregateContext) -> (r: AggregatePrevalenceDto)
    ensures
        r == prevalence_dto_spec(*fp, *ctx),
{
    match fp {
        Some(f) => AggregatePrevalenceDto { count: clamp_count(f.count), total: clamp_count(f.total) },
        None => AggregatePrevalenceDto { count: 0, total: #[verifier::truncate] (ctx.total_hosts as u32) },
    }
}

fn clamp_count(c: i32) -> (r: u32)
    ensures
        r == clamp_u32(c),
{
    if c < 0 { 0 } else { c as u32 }
}

pub fn clamp_host_count(c: i32) -> (r: usize)
    ensures
        r == clamp_usize(c),
{
    if c < 0 { 0 } else { c as usize }
}

/// The zone of an entry, shown only when zones are active.
pub open spec fn shown_zone(fp: Option<HostPrevalence>, ctx: AggregateContext) -> Option<PrevalenceZone> {
    if ctx.zones_active {
        match fp {
            Some(f) => Some(f.zone),
            None => None,
        }
    } else {
        None
    }
}

pub open spec fn prevalence_count(fp: Option<HostPrevalence>) -> u32 {
    match fp {
        Some(f) => clamp_u32(f.count),
        None => 0,
    }
}

/// The triage of a read-only context item: bucket `site`, reason
/// `context_item`.
pub open spec fn context_triage_spec(fp: Option<HostPrevalence>, ctx: AggregateContext) -> TriageDtoView {
    TriageDtoView { bucket: "site"@, reason: "context_item"@, zone: shown_zone(fp, ctx), prevalence: prevalence_count(fp) }
}

fn own(x: &str) -> (r: String)
    ensures
        r@ == x@,
{
    x.to_owned()
}

fn shown_zone_exec(fp: &Option<HostPrevalence>, ctx: &AggregateContext) -> (z: Option<PrevalenceZone>)
    ensures
        z == shown_zone(*fp, *ctx),
{
    if ctx.zones_active {
        match fp {
            Some(f) => Some(f.zone),
            None => None,
        }
    } else {
        None
    }
}

fn prevalence_count_exec(fp: &Option<HostPrevalence>) -> (c: u32)
    ensures
        c == prevalence_count(*fp),
{
    match fp {
        Some(f) => clamp_count(f.count),
        None => 0,
    }
}

pub fn default_context_triage(fp: &Option<HostPrevalence>, ctx: &AggregateContext) -> (t: AggregateTriageDto)
    ensures
        triage_dto_view(t) == context_triage_spec(*fp, *ctx),
{
    AggregateTriageDto { bucket: own("site"), reason: own("context_item"), zone: shown_zone_exec(fp, ctx), prevalence: prevalence_count_exec(fp) }
}

pub open spec fn bucket_str(b: TriageBucket) -> Seq<char> {
    match b {
        TriageBucket::Baseline => "baseline"@,
        TriageBucket::Site => "site"@,
        TriageBucket::Investigate => "investigate"@,
    }
}

pub fn triage_bucket_to_string(b: TriageBucket) -> (s: String)
    ensures
        s@ == bucket_str(b),
{
    match b {
        TriageBucket::Baseline => own("baseline"),
        TriageBucket::Site => own("site"),
        TriageBucket::Investigate => own("investigate"),
    }
}

/// A triage reason's wire name: snake case for the named reasons, the text
/// of a custom one, and the lower-cased name of any other.
pub open spec fn reason_str(r: TriageReason) -> Seq<char> {
    match r {
        TriageReason::PackageBaselineMatch => "package_baseline_match"@,
        TriageReason::PackageUserAdded => "package_user_added"@,
        TriageReason::PackageVersionChanged => "package_version_changed"@,
        TriageReason::PackageProvenanceUnavailable => "package_provenance_unavailable"@,
        TriageReason::PackageLocalInstall => "package_local_install"@,
        TriageReason::PackageNoRepoSource => "package_no_repo_source"@,
        TriageReason::PackageConfigCaptured => "package_config_captured"@,
        TriageReason::ConfigDefault => "config_default"@,
        TriageReason::ConfigBaselineMatch => "config_baseline_match"@,
        TriageReason::ConfigModified => "config_modified"@,
        TriageReason::ConfigUnowned => "config_unowned"@,
        TriageReason::ConfigOrphaned => "config_orphaned"@,
        TriageReason::SensitivePath => "sensitive_path"@,
        TriageReason::PackagePlatformPlumbing => "package_platform_plumbing"@,
        TriageReason::PackageInstallerDefault => "package_installer_default"@,
        TriageReason::PackageInstallerPromotedService => "package_installer_promoted_service"@,
        TriageReason::PackageInstallerPromotedConfig => "package_installer_promoted_config"@,
        TriageReason::PackageInstallerAmbiguous => "package_installer_ambiguous"@,
        TriageReason::PackageInstallerEvidenceUnavailable => "package_installer_evidence_unavailable"@,
        TriageReason::Custom(s) => s@,
        TriageReason::Other(n) => crate::widget::search::lowercase(n@),
    }
}

pub fn triage_reason_to_string(r: &TriageReason) -> (s: String)
    ensures
        s@ == reason_str(*r),
{
    match r {
        TriageReason::PackageBaselineMatch => own("package_baseline_match"),
        TriageReason::PackageUserAdded => own("package_user_added"),
        TriageReason::PackageVersionChanged => own("package_version_changed"),
        TriageReason::PackageProvenanceUnavailable => own("package_provenance_unavailable"),
        TriageReason::PackageLocalInstall => own("package_local_install"),
        TriageReason::PackageNoRepoSource => own("package_no_repo_source"),
        TriageReason::PackageConfigCaptured => own("package_config_captured"),
        TriageReason::ConfigDefault => own("config_default"),
        TriageReason::ConfigBaselineMatch => own("config_baseline_match"),
        TriageReason::ConfigModified => own("config_modified"),
        TriageReason::ConfigUnowned => own("config_unowned"),
        TriageReason::ConfigOrphaned => own("config_orphaned"),
        TriageReason::SensitivePath => own("sensitive_path"),
        TriageReason::PackagePlatformPlumbing => own("package_platform_plumbing"),
        TriageReason::PackageInstallerDefault => own("package_installer_default"),
        TriageReason::PackageInstallerPromotedService => own("package_installer_promoted_service"),
        TriageReason::PackageInstallerPromotedConfig => own("package_installer_promoted_config"),
        TriageReason::PackageInstallerAmbiguous => own("package_installer_ambiguous"),
        TriageReason::PackageInstallerEvidenceUnavailable => own("package_installer_evidence_unavailable"),
        TriageReason::Custom(s) => own(s.as_str()),
        TriageReason::Other(n) => crate::widget::search::to_lower(n.as_str()),
    }
}

/// The zone a fleet-level bucket stands for.
pub open spec fn bucket_zone(b: AggregateBucket) -> PrevalenceZone {
    match b {
        AggregateBucket::Investigate => PrevalenceZone::Divergent,
        AggregateBucket::Divergent => PrevalenceZone::Divergent,
        AggregateBucket::Partial => PrevalenceZone::NearConsensus,
        AggregateBucket::Universal => PrevalenceZone::Consensus,
    }
}

/// The triage of a decision item: its bucket and reason names, the zone of
/// its fleet-level bucket (or, for a single-host triage, its prevalence
/// zone when zones are active), and its prevalence count.
pub open spec fn triage_spec(tag: TriageTag, fp: Option<HostPrevalence>, ctx: AggregateContext) -> TriageDtoView {
    TriageDtoView {
        bucket: bucket_str(tag.bucket),
        reason: reason_str(tag.primary_reason),
        zone: match tag.triage {
            TriageKind::Aggregate(b) => Some(bucket_zone(b)),
            TriageKind::SingleHost => shown_zone(fp, ctx),
        },
        prevalence: prevalence_count(fp),
    }
}

pub fn build_triage_dto(tag: &TriageTag, fp: &Option<HostPrevalence>, ctx: &AggregateContext) -> (t: AggregateTriageDto)
    ensures
        triage_dto_view(t) == triage_spec(*tag, *fp, *ctx),
{
    let zone = match tag.triage {
        TriageKind::Aggregate(b) => Some(
            match b {
                AggregateBucket::Investigate => PrevalenceZone::Divergent,
                AggregateBucket::Divergent => PrevalenceZone::Divergent,
                AggregateBucket::Partial => PrevalenceZone::NearConsensus,
                AggregateBucket::Universal => PrevalenceZone::Consensus,
            },
        ),
        TriageKind::SingleHost => shown_zone_exec(fp, ctx),
    };
    AggregateTriageDto {
        bucket: triage_bucket_to_string(tag.bucket),
        reason: triage_reason_to_string(&tag.primary_reason),
        zone,
        prevalence: prevalence_count_exec(fp),
    }
}

// ---- sections ----

/// Whether an item falls in zone `z`; an item without a zone counts as
/// consensus.
pub open spec fn in_zone(it: AggregateItemView, z: PrevalenceZone) -> bool {
    match it.triage.zone {
        Some(x) => x == z,
        None => z == PrevalenceZone::Consensus,
    }
}

/// The items in zone `z`, in item order.
pub open spec fn zone_items(items: Seq<AggregateItemView>, z: PrevalenceZone) -> Seq<AggregateItemView>
    decreases items.len(),
{
    if items.len() == 0 {
        Seq::empty()
    } else {
        zone_items(items.drop_last(), z) + (if in_zone(items.last(), z) { seq![items.last()] } else { Seq::empty() })
    }
}

/// A section of the given items: split by zone, in item order within each
/// zone, when zones are active; else the items as one list.
pub open spec fn section_spec(id: Seq<char>, name: Seq<char>, decision: bool, items: Seq<AggregateItemView>, zones_active: bool) -> SectionView {
    SectionView {
        id,
        display_name: name,
        is_decision_section: decision,
        zones: if zones_active {
            Some((zone_items(items, PrevalenceZone::Consensus), zone_items(items, PrevalenceZone::NearConsensus), zone_items(items, PrevalenceZone::Divergent)))
        } else {
            None
        },
        items: if zones_active { None } else { Some(items) },
    }
}

fn zone_of(it: &AggregateItem) -> (z: PrevalenceZone)
    ensures
        in_zone(agg_item_view(*it), z),
        forall|y: PrevalenceZone| in_zone(agg_item_view(*it), y) ==> y == z,
{
    match it.triage.zone {
        Some(x) => x,
        None => PrevalenceZone::Consensus,
    }
}

pub fn build_section(id: &str, display_name: &str, is_decision_section: bool, items: Vec<AggregateItem>, ctx: &AggregateContext) -> (s: AggregateSection)
    ensures
        section_view(s) == section_spec(id@, display_name@, is_decision_section, agg_items_view(items@), ctx.zones_active),
        zone_counts_ok(s),
{
    let ghost all = agg_items_view(items@);
    if ctx.zones_active {
        let mut consensus: Vec<AggregateItem> = Vec::new();
        let mut near: Vec<AggregateItem> = Vec::new();
        let mut divergent: Vec<AggregateItem> = Vec::new();
        let total = items.len();
        let mut rest = items;
        let ghost n = all.len();
        let mut k: usize = 0;
        while rest.len() > 0
            invariant
                all.len() == n,
                n == total,
                0 <= k <= n,
                rest@.len() == n - k,
                agg_items_view(rest@) == all.skip(k as int),
                agg_items_view(consensus@) == zone_items(all.take(k as int), PrevalenceZone::Consensus),
                agg_items_view(near@) == zone_items(all.take(k as int), PrevalenceZone::NearConsensus),
                agg_items_view(divergent@) == zone_items(all.take(k as int), PrevalenceZone::Divergent),
            decreases rest@.len(),
        {
            let ghost r0 = rest@;
            let it = rest.remove(0);
            let ghost iv = agg_item_view(it);
            assert(agg_items_view(r0)[0] == iv);
            assert(all.skip(k as int)[0] == all[k as int]);
            assert(rest@ =~= r0.skip(1));
            assert(agg_items_view(rest@) =~= agg_items_view(r0).skip(1));
            assert(all.skip(k as int).skip(1) =~= all.skip(k + 1));
            assert(agg_items_view(rest@) =~= all.skip(k + 1));
            assert(all.take(k + 1).drop_last() =~= all.take(k as int));
            assert(all.take(k + 1).last() == iv);
            let ghost c0 = consensus@;
            let ghost n0 = near@;
            let ghost d0 = divergent@;
            match zone_of(&it) {
                PrevalenceZone::Consensus => {
                    consensus.push(it);
                    assert(agg_items_view(consensus@) =~= agg_items_view(c0).push(iv));
                },
                PrevalenceZone::NearConsensus => {
                    near.push(it);
                    assert(agg_items_view(near@) =~= agg_items_view(n0).push(iv));
                },
                PrevalenceZone::Divergent => {
                    divergent.push(it);
                    assert(agg_items_view(divergent@) =~= agg_items_view(d0).push(iv));
                },
            }
            k = k + 1;
        }
        assert(all.take(n as int) =~= all);
        let zones = AggregateZones {
            consensus: AggregateZoneGroup { count: consensus.len(), items: consensus },
            near_consensus: AggregateZoneGroup { count: near.len(), items: near },
            divergent: AggregateZoneGroup { count: divergent.len(), items: divergent },
        };
        AggregateSection { id: own(id), display_name: own(display_name), is_decision_section, zones: Some(zones), items: None }
    } else {
        AggregateSection { id: own(id), display_name: own(display_name), is_decision_section, zones: None, items: Some(items) }
    }
}

/// Splitting a section's items by zone neither loses nor repeats an item:
/// every item is in exactly one zone, and the zones' sizes add up to the
/// number of items.
pub proof fn law_zones_partition(items: Seq<AggregateItemView>)
    ensures
        zone_items(items, PrevalenceZone::Consensus).len() + zone_items(items, PrevalenceZone::NearConsensus).len()
            + zone_items(items, PrevalenceZone::Divergent).len() == items.len(),
        forall|i: int| 0 <= i < items.len() ==> (in_zone(#[trigger] items[i], PrevalenceZone::Consensus) as int)
            + (in_zone(items[i], PrevalenceZone::NearConsensus) as int) + (in_zone(items[i], PrevalenceZone::Divergent) as int) == 1,
    decreases items.len(),
{
    if items.len() > 0 {
        law_zones_partition(items.drop_last());
        assert forall|i: int| 0 <= i < items.len() implies (in_zone(#[trigger] items[i], PrevalenceZone::Consensus) as int)
            + (in_zone(items[i], PrevalenceZone::NearConsensus) as int) + (in_zone(items[i], PrevalenceZone::Divergent) as int) == 1 by {
            match items[i].triage.zone {
                Some(x) => {
                    match x {
                        PrevalenceZone::Consensus => {},
                        PrevalenceZone::NearConsensus => {},
                        PrevalenceZone::Divergent => {},
                    }
                },
                None => {},
            }
        }
        let l = items.last();
        assert(items[items.len() - 1] == l);
        let init = items.drop_last();
        assert(zone_items(items, PrevalenceZone::Consensus) == zone_items(init, PrevalenceZone::Consensus)
            + (if in_zone(l, PrevalenceZone::Consensus) { seq![l] } else { Seq::empty() }));
        assert(zone_items(items, PrevalenceZone::NearConsensus) == zone_items(init, PrevalenceZone::NearConsensus)
            + (if in_zone(l, PrevalenceZone::NearConsensus) { seq![l] } else { Seq::empty() }));
        assert(zone_items(items, PrevalenceZone::Divergent) == zone_items(init, PrevalenceZone::Divergent)
            + (if in_zone(l, PrevalenceZone::Divergent) { seq![l] } else { Seq::empty() }));
    }
}

} // verus!
