//! Identifiers of the terminal UI's sidebar: the fourteen sections and the
//! seven navigation groups that hold them, with their labels.

use vstd::prelude::*;

verus! {

/// A sidebar section of the single-host view.
#[derive(Debug, Clone, Copy, PartialEq, Eq, Structural, Hash)]
pub enum SectionId {
    Packages,
    VerChanges,
    Configs,
    Sysctls,
    Tuned,
    KernelBoot,
    SELinux,
    Services,
    Containers,
    ScheduledTasks,
    Users,
    Network,
    Storage,
    NonRpmSoftware,
}

/// A collapsible group of sections in the sidebar.
#[derive(Debug, Clone, Copy, PartialEq, Eq, Structural, Hash)]
pub enum NavGroup {
    Packages,
    SystemConfig,
    Services,
    Identity,
    Network,
    Storage,
    Software,
}

/// Sidebar counts for one section: all items, and the actionable
/// decisions among them split into included and excluded.
#[derive(Debug, Clone, Copy, PartialEq, Eq, Structural)]
pub struct SectionEntry {
    pub id: SectionId,
    pub count: usize,
    pub included: usize,
    pub excluded: usize,
}

/// The group a section belongs to.
pub open spec fn group_of(id: SectionId) -> NavGroup {
    match id {
        SectionId::Packages | SectionId::VerChanges => NavGroup::Packages,
        SectionId::Configs | SectionId::Sysctls | SectionId::Tuned | SectionId::KernelBoot
        | SectionId::SELinux => NavGroup::SystemConfig,
        SectionId::Services | SectionId::Containers | SectionId::ScheduledTasks => NavGroup::Services,
        SectionId::Users => NavGroup::Identity,
        SectionId::Network => NavGroup::Network,
        SectionId::Storage => NavGroup::Storage,
        SectionId::NonRpmSoftware => NavGroup::Software,
    }
}

/// Sections whose items carry an include/exclude decision.
pub open spec fn is_decision_section(id: SectionId) -> bool {
    match id {
        SectionId::Packages | SectionId::Configs | SectionId::Services | SectionId::Containers
        | SectionId::Sysctls | SectionId::Tuned | SectionId::Users => true,
        _ => false,
    }
}

/// The sidebar label of a section.
pub open spec fn section_label(id: SectionId) -> Seq<char> {
    match id {
        SectionId::Packages => "Packages"@,
        SectionId::VerChanges => "Version Changes"@,
        SectionId::Configs => "Configs"@,
        SectionId::Sysctls => "Sysctls"@,
        SectionId::Tuned => "Tuned"@,
        SectionId::KernelBoot => "Kernel & Boot"@,
        SectionId::SELinux => "SELinux"@,
        SectionId::Services => "Services"@,
        SectionId::Containers => "Containers"@,
        SectionId::ScheduledTasks => "Scheduled Tasks"@,
        SectionId::Users => "Users"@,
        SectionId::Network => "Network"@,
        SectionId::Storage => "Storage"@,
        SectionId::NonRpmSoftware => "Non-RPM Software"@,
    }
}

/// Prefix of the review-tracking keys of a section's items, for the
/// sections whose items are marked as viewed.
pub open spec fn viewed_prefix_of(id: SectionId) -> Option<Seq<char>> {
    match id {
        SectionId::Packages => Some("packages"@),
        SectionId::Configs => Some("configs"@),
        SectionId::Services => Some("services"@),
        SectionId::Containers => Some("containers"@),
        SectionId::Sysctls => Some("sysctls"@),
        SectionId::Tuned => Some("tuned"@),
        _ => None,
    }
}

/// The label of a navigation group.
pub open spec fn group_label(g: NavGroup) -> Seq<char> {
    match g {
        NavGroup::Packages => "Packages"@,
        NavGroup::SystemConfig => "System Config"@,
        NavGroup::Services => "Services"@,
        NavGroup::Identity => "Identity"@,
        NavGroup::Network => "Network"@,
        NavGroup::Storage => "Storage"@,
        NavGroup::Software => "Software"@,
    }
}

impl SectionId {
    /// The navigation group this section is listed under.
    pub fn group(&self) -> (g: NavGroup)
        ensures
            g == group_of(*self),
    {
        match self {
            SectionId::Packages | SectionId::VerChanges => NavGroup::Packages,
            SectionId::Configs | SectionId::Sysctls | SectionId::Tuned | SectionId::KernelBoot
            | SectionId::SELinux => NavGroup::SystemConfig,
            SectionId::Services | SectionId::Containers | SectionId::ScheduledTasks => NavGroup::Services,
            SectionId::Users => NavGroup::Identity,
            SectionId::Network => NavGroup::Network,
            SectionId::Storage => NavGroup::Storage,
            SectionId::NonRpmSoftware => NavGroup::Software,
        }
    }

    /// Whether the section's items are include/exclude decisions.
    pub fn is_decision(&self) -> (b: bool)
        ensures
            b == is_decision_section(*self),
    {
        match self {
            SectionId::Packages | SectionId::Configs | SectionId::Services | SectionId::Containers
            | SectionId::Sysctls | SectionId::Tuned | SectionId::Users => true,
            _ => false,
        }
    }

    /// The sidebar label.
    pub fn label(&self) -> (s: &'static str)
        ensures
            s@ == section_label(*self),
    {
        match self {
            SectionId::Packages => "Packages",
            SectionId::VerChanges => "Version Changes",
            SectionId::Configs => "Configs",
            SectionId::Sysctls => "Sysctls",
            SectionId::Tuned => "Tuned",
            SectionId::KernelBoot => "Kernel & Boot",
            SectionId::SELinux => "SELinux",
            SectionId::Services => "Services",
            SectionId::Containers => "Containers",
            SectionId::ScheduledTasks => "Scheduled Tasks",
            SectionId::Users => "Users",
            SectionId::Network => "Network",
            SectionId::Storage => "Storage",
            SectionId::NonRpmSoftware => "Non-RPM Software",
        }
    }

    /// Prefix of the review-tracking keys of this section's items.
    pub fn viewed_prefix(&self) -> (p: Option<&'static str>)
        ensures
            match p {
                Some(s) => viewed_prefix_of(*self) == Some(s@),
                None => viewed_prefix_of(*self) is None,
            },
    {
        match self {
            SectionId::Packages => Some("packages"),
            SectionId::Configs => Some("configs"),
            SectionId::Services => Some("services"),
            SectionId::Containers => Some("containers"),
            SectionId::Sysctls => Some("sysctls"),
            SectionId::Tuned => Some("tuned"),
            _ => None,
        }
    }
}

impl NavGroup {
    /// The group's label in the sidebar.
    pub fn short_label(&self) -> (s: &'static str)
        ensures
            s@ == group_label(*self),
    {
        match self {
            NavGroup::Packages => "Packages",
            NavGroup::SystemConfig => "System Config",
            NavGroup::Services => "Services",
            NavGroup::Identity => "Identity",
            NavGroup::Network => "Network",
            NavGroup::Storage => "Storage",
            NavGroup::Software => "Software",
        }
    }
}

} // verus!

verus! {

/// Which pane has keyboard focus.
#[derive(Debug, Clone, Copy, PartialEq, Eq, Structural)]
pub enum FocusTarget {
    Sidebar,
    ItemList,
    DetailPane,
}

/// How the selected item's details are shown.
#[derive(Debug, Clone, Copy, PartialEq, Eq, Structural)]
pub enum DetailMode {
    /// No detail shown.
    Closed,
    InfoBar,
    Fullscreen,
}

/// What keystrokes currently feed.
#[derive(Debug, Clone, Copy, PartialEq, Eq, Structural)]
pub enum InputMode {
    Normal,
    Search,
    Command,
    Help,
    Confirm,
}

/// Triage bucket of an item, in display order.
#[derive(Debug, Clone, Copy, PartialEq, Eq, Structural, Hash)]
pub enum TriageGroup {
    Investigate,
    Site,
    Baseline,
}

/// Index of a triage group in the canonical bucket order (Investigate,
/// Site, Baseline); collapsed groups are keyed by it.
pub open spec fn bucket_index(g: TriageGroup) -> usize {
    match g {
        TriageGroup::Investigate => 0,
        TriageGroup::Site => 1,
        TriageGroup::Baseline => 2,
    }
}

/// Map a triage group to its index in the canonical bucket order.
pub fn group_to_bucket_index(group: TriageGroup) -> (i: usize)
    ensures
        i == bucket_index(group),
{
    match group {
        TriageGroup::Investigate => 0,
        TriageGroup::Site => 1,
        TriageGroup::Baseline => 2,
    }
}

/// Identity of a decision item, by kind.
#[derive(Debug, Clone, PartialEq, Eq)]
pub enum ItemId {
    Package { name: String, arch: String },
    Repo { path: String },
    ModuleStream { module_stream: String },
    VersionLock { name_arch: String },
    Config { path: String },
    Service { unit: String },
    DropIn { path: String },
    Quadlet { path: String },
    Compose { path: String },
    Flatpak { app_id: String, remote: String, branch: String },
    NMConnection { path: String },
    FirewallZone { path: String },
    KernelModule { name: String },
    Sysctl { key: String },
    TunedSelection { profile: String },
    CronJob { path: String },
    SystemdTimer { name: String },
    AtJob { file: String },
    GeneratedTimer { name: String },
    SelinuxPort { protocol_port: String },
    Fstab { mount_point: String },
    NonRpm { name: String },
    LanguageEnv { ecosystem: String, path: String },
    UnmanagedFile { path: String },
}

/// An item id with its strings taken by their characters.
pub enum ItemIdView {
    Package { name: Seq<char>, arch: Seq<char> },
    Repo { path: Seq<char> },
    ModuleStream { module_stream: Seq<char> },
    VersionLock { name_arch: Seq<char> },
    Config { path: Seq<char> },
    Service { unit: Seq<char> },
    DropIn { path: Seq<char> },
    Quadlet { path: Seq<char> },
    Compose { path: Seq<char> },
    Flatpak { app_id: Seq<char>, remote: Seq<char>, branch: Seq<char> },
    NMConnection { path: Seq<char> },
    FirewallZone { path: Seq<char> },
    KernelModule { name: Seq<char> },
    Sysctl { key: Seq<char> },
    TunedSelection { profile: Seq<char> },
    CronJob { path: Seq<char> },
    SystemdTimer { name: Seq<char> },
    AtJob { file: Seq<char> },
    GeneratedTimer { name: Seq<char> },
    SelinuxPort { protocol_port: Seq<char> },
    Fstab { mount_point: Seq<char> },
    NonRpm { name: Seq<char> },
    LanguageEnv { ecosystem: Seq<char>, path: Seq<char> },
    UnmanagedFile { path: Seq<char> },
}

pub open spec fn item_id_view(id: ItemId) -> ItemIdView {
    match id {
        ItemId::Package { name, arch } => ItemIdView::Package { name: name@, arch: arch@ },
        ItemId::Repo { path } => ItemIdView::Repo { path: path@ },
        ItemId::ModuleStream { module_stream } => ItemIdView::ModuleStream { module_stream: module_stream@ },
        ItemId::VersionLock { name_arch } => ItemIdView::VersionLock { name_arch: name_arch@ },
        ItemId::Config { path } => ItemIdView::Config { path: path@ },
        ItemId::Service { unit } => ItemIdView::Service { unit: unit@ },
        ItemId::DropIn { path } => ItemIdView::DropIn { path: path@ },
        ItemId::Quadlet { path } => ItemIdView::Quadlet { path: path@ },
        ItemId::Compose { path } => ItemIdView::Compose { path: path@ },
        ItemId::Flatpak { app_id, remote, branch } => ItemIdView::Flatpak { app_id: app_id@, remote: remote@, branch: branch@ },
        ItemId::NMConnection { path } => ItemIdView::NMConnection { path: path@ },
        ItemId::FirewallZone { path } => ItemIdView::FirewallZone { path: path@ },
        ItemId::KernelModule { name } => ItemIdView::KernelModule { name: name@ },
        ItemId::Sysctl { key } => ItemIdView::Sysctl { key: key@ },
        ItemId::TunedSelection { profile } => ItemIdView::TunedSelection { profile: profile@ },
        ItemId::CronJob { path } => ItemIdView::CronJob { path: path@ },
        ItemId::SystemdTimer { name } => ItemIdView::SystemdTimer { name: name@ },
        ItemId::AtJob { file } => ItemIdView::AtJob { file: file@ },
        ItemId::GeneratedTimer { name } => ItemIdView::GeneratedTimer { name: name@ },
        ItemId::SelinuxPort { protocol_port } => ItemIdView::SelinuxPort { protocol_port: protocol_port@ },
        ItemId::Fstab { mount_point } => ItemIdView::Fstab { mount_point: mount_point@ },
        ItemId::NonRpm { name } => ItemIdView::NonRpm { name: name@ },
        ItemId::LanguageEnv { ecosystem, path } => ItemIdView::LanguageEnv { ecosystem: ecosystem@, path: path@ },
        ItemId::UnmanagedFile { path } => ItemIdView::UnmanagedFile { path: path@ },
    }
}

pub open spec fn opt_id_view(id: Option<ItemId>) -> Option<ItemIdView> {
    match id {
        Some(i) => Some(item_id_view(i)),
        None => None,
    }
}

/// The item part of a viewed-item key: `name.arch` for packages,
/// `app_id/remote/branch` for flatpaks, the identifying string otherwise.
pub open spec fn viewed_key(id: ItemId) -> Seq<char> {
    match id {
        ItemId::Package { name, arch } => name@ + "."@ + arch@,
        ItemId::Repo { path } => path@,
        ItemId::ModuleStream { module_stream } => module_stream@,
        ItemId::VersionLock { name_arch } => name_arch@,
        ItemId::Config { path } => path@,
        ItemId::Service { unit } => unit@,
        ItemId::DropIn { path } => path@,
        ItemId::Quadlet { path } => path@,
        ItemId::Compose { path } => path@,
        ItemId::Flatpak { app_id, remote, branch } => app_id@ + "/"@ + remote@ + "/"@ + branch@,
        ItemId::NMConnection { path } => path@,
        ItemId::FirewallZone { path } => path@,
        ItemId::KernelModule { name } => name@,
        ItemId::Sysctl { key } => key@,
        ItemId::TunedSelection { profile } => profile@,
        ItemId::CronJob { path } => path@,
        ItemId::SystemdTimer { name } => name@,
        ItemId::AtJob { file } => file@,
        ItemId::GeneratedTimer { name } => name@,
        ItemId::SelinuxPort { protocol_port } => protocol_port@,
        ItemId::Fstab { mount_point } => mount_point@,
        ItemId::NonRpm { name } => name@,
        ItemId::LanguageEnv { ecosystem, path } => ecosystem@ + ":"@ + path@,
        ItemId::UnmanagedFile { path } => path@,
    }
}

fn owned(s: &String) -> (r: String)
    ensures
        r@ == s@,
{
    s.as_str().to_owned()
}

/// The item-level part of the key under which an item is marked viewed;
/// the full key is `"{prefix}:{key}"` with the section's viewed prefix.
pub fn item_id_to_viewed_key(item_id: &ItemId) -> (k: String)
    ensures
        k@ == viewed_key(*item_id),
{
    match item_id {
        ItemId::Package { name, arch } => {
            let mut s = owned(name);
            crate::text::push_str(&mut s, ".");
            crate::text::push_str(&mut s, arch.as_str());
            s
        },
        ItemId::Repo { path } => owned(path),
        ItemId::ModuleStream { module_stream } => owned(module_stream),
        ItemId::VersionLock { name_arch } => owned(name_arch),
        ItemId::Config { path } => owned(path),
        ItemId::Service { unit } => owned(unit),
        ItemId::DropIn { path } => owned(path),
        ItemId::Quadlet { path } => owned(path),
        ItemId::Compose { path } => owned(path),
        ItemId::Flatpak { app_id, remote, branch } => {
            let mut s = owned(app_id);
            crate::text::push_str(&mut s, "/");
            crate::text::push_str(&mut s, remote.as_str());
            crate::text::push_str(&mut s, "/");
            crate::text::push_str(&mut s, branch.as_str());
            s
        },
        ItemId::NMConnection { path } => owned(path),
        ItemId::FirewallZone { path } => owned(path),
        ItemId::KernelModule { name } => owned(name),
        ItemId::Sysctl { key } => owned(key),
        ItemId::TunedSelection { profile } => owned(profile),
        ItemId::CronJob { path } => owned(path),
        ItemId::SystemdTimer { name } => owned(name),
        ItemId::AtJob { file } => owned(file),
        ItemId::GeneratedTimer { name } => owned(name),
        ItemId::SelinuxPort { protocol_port } => owned(protocol_port),
        ItemId::Fstab { mount_point } => owned(mount_point),
        ItemId::NonRpm { name } => owned(name),
        ItemId::LanguageEnv { ecosystem, path } => {
            let mut s = owned(ecosystem);
            crate::text::push_str(&mut s, ":");
            crate::text::push_str(&mut s, path.as_str());
            s
        },
        ItemId::UnmanagedFile { path } => owned(path),
    }
}

} // verus!
