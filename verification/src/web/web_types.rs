//! Presentation-layer DTOs of the web API.

use vstd::prelude::*;

verus! {

/// A language package environment (pip venv, npm project, gem project).
#[derive(Clone, Debug, PartialEq, Eq)]
pub struct LanguagePackageEnvDto {
    pub ecosystem: String,
    pub path: String,
    pub method: String,
    pub packages: Vec<String>,
    pub confidence: String,
    pub manifest_basis: String,
    /// Whether the environment goes into the image.
    pub included: bool,
}

/// Provenance signals for an unmanaged file.
#[derive(Clone, Debug, PartialEq, Eq)]
pub struct ProvenanceSignalsDto {
    pub file_type: String,
    pub last_modified: u64,
    pub uid: u32,
    pub gid: u32,
    pub permissions: String,
    pub mutability: bool,
    pub writable_mount: bool,
    pub service_working_dir: bool,
}

/// A single unmanaged file found by the unmanaged-file scan.
#[derive(Clone, Debug, PartialEq, Eq)]
pub struct UnmanagedFileItemDto {
    pub path: String,
    pub size: u64,
    pub is_var_path: bool,
    /// Whether the file goes into the image.
    pub included: bool,
    pub provenance: ProvenanceSignalsDto,
}

/// Directory group of unmanaged files.
#[derive(Clone, Debug, PartialEq, Eq)]
pub struct UnmanagedFileGroupDto {
    pub directory: String,
    pub items: Vec<UnmanagedFileItemDto>,
}

/// Whether a flag is `false` (such flags are left out when serialized).
pub fn is_false(v: &bool) -> (b: bool)
    ensures
        b == !*v,
{
    !*v
}

/// A read-only reference section of the web view.
#[derive(Clone, Debug, PartialEq, Eq)]
pub struct ReferenceSection {
    pub id: String,
    pub display_name: String,
    pub items: Vec<ContextItem>,
    pub subsections: Vec<ContextSubsection>,
    pub empty_reason: Option<String>,
    /// True when the network section has ifcfg-format connections; false
    /// for every other section.
    pub has_ifcfg: bool,
    /// Deprecation note shown when ifcfg connections are present.
    pub ifcfg_note: Option<String>,
}

/// A named group of items within a reference section.
#[derive(Clone, Debug, PartialEq, Eq)]
pub struct ContextSubsection {
    pub id: String,
    pub display_name: String,
    pub items: Vec<ContextItem>,
}

/// One item of a reference section.
#[derive(Clone, Debug, PartialEq, Eq)]
pub struct ContextItem {
    pub id: String,
    pub title: String,
    pub subtitle: Option<String>,
    pub detail: Option<String>,
    pub searchable_text: String,
}

/// The abstract value of a context item.
#[verifier::ext_equal]
pub struct ContextItemView {
    pub id: Seq<char>,
    pub title: Seq<char>,
    pub subtitle: Option<Seq<char>>,
    pub detail: Option<Seq<char>>,
    pub searchable_text: Seq<char>,
}

pub open spec fn item_view(i: ContextItem) -> ContextItemView {
    ContextItemView {
        id: i.id@,
        title: i.title@,
        subtitle: opt_view(i.subtitle),
        detail: opt_view(i.detail),
        searchable_text: i.searchable_text@,
    }
}

pub open spec fn items_view(items: Seq<ContextItem>) -> Seq<ContextItemView> {
    items.map_values(|i: ContextItem| item_view(i))
}

pub open spec fn opt_view(o: Option<String>) -> Option<Seq<char>> {
    match o {
        Some(s) => Some(s@),
        None => None,
    }
}

/// The abstract value of a subsection: id, display name, items.
pub open spec fn subsection_view(s: ContextSubsection) -> (Seq<char>, Seq<char>, Seq<ContextItemView>) {
    (s.id@, s.display_name@, items_view(s.items@))
}

pub open spec fn subsections_view(s: Seq<ContextSubsection>) -> Seq<(Seq<char>, Seq<char>, Seq<ContextItemView>)> {
    s.map_values(|x: ContextSubsection| subsection_view(x))
}

/// A reference section with the given id, display name and items, no
/// subsections, no empty reason and no ifcfg note.
pub open spec fn plain_section(s: ReferenceSection, id: Seq<char>, display_name: Seq<char>, items: Seq<ContextItem>) -> bool {
    &&& s.id@ == id
    &&& s.display_name@ == display_name
    &&& s.items@ == items
    &&& s.subsections@.len() == 0
    &&& s.empty_reason is None
    &&& !s.has_ifcfg
    &&& s.ifcfg_note is None
}

/// A `ReferenceSection` with empty subsections.
pub fn reference_section(id: &str, display_name: &str, items: Vec<ContextItem>) -> (s: ReferenceSection)
    ensures
        plain_section(s, id@, display_name@, items@),
{
    ReferenceSection {
        id: id.to_owned(),
        display_name: display_name.to_owned(),
        items,
        subsections: Vec::new(),
        empty_reason: None,
        has_ifcfg: false,
        ifcfg_note: None,
    }
}

/// Summary of an installed DNF group and its rendering state.
#[derive(Clone, Debug, PartialEq, Eq)]
pub struct GroupInfo {
    pub name: String,
    pub member_count: usize,
    pub added_count: usize,
    pub locked_count: usize,
    pub optional_spillover_count: usize,
    pub render_state: String,
    pub degradation_reason: Option<String>,
    pub members: Vec<GroupMemberInfo>,
}

/// A single member of an installed group.
#[derive(Clone, Debug, PartialEq, Eq)]
pub struct GroupMemberInfo {
    pub name: String,
    pub locked: bool,
    pub overlap_groups: Vec<String>,
    pub in_base_image: bool,
}

/// Why a package shows up individually rather than in its group.
#[derive(Clone, Debug, PartialEq, Eq)]
pub struct PackageProvenance {
    pub kind: String,
    pub group_name: String,
}

/// A package whose host version differs from the base image's.
#[derive(Clone, Debug, PartialEq, Eq)]
pub struct VersionChangeEntry {
    pub name: String,
    pub arch: String,
    pub host_version: String,
    pub base_version: String,
    pub host_epoch: String,
    pub base_epoch: String,
    pub direction: String,
}

/// Metadata of a sidebar section group of the web front end.
#[derive(Clone, Debug, PartialEq, Eq)]
pub struct GroupMetaDto {
    pub slug: String,
    pub label: String,
    pub sections: Vec<SectionMetaDto>,
    pub has_actionable_sections: bool,
}

/// Metadata of one section within a group.
#[derive(Clone, Debug, PartialEq, Eq)]
pub struct SectionMetaDto {
    pub id: String,
    pub label: String,
    pub is_triage: bool,
}

} // verus!
