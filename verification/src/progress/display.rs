//! What the progress output calls things: the inspectors in the order
//! they are shown, the names of the steps and probes, and from when a
//! finished phase shows how long it took.

use vstd::prelude::*;
use crate::progress::checklist::InspectorId;
use crate::progress::lines::{order_view, position_from, DisplayNames};
use crate::text::string_views;

verus! {

/// The inspectors in display order, with the names shown for them.
pub open spec fn display_order_spec() -> Seq<(InspectorId, Seq<char>)> {
    seq![
        (InspectorId::Rpm, "RPM packages"@),
        (InspectorId::Services, "Services"@),
        (InspectorId::Storage, "Storage"@),
        (InspectorId::KernelBoot, "Kernel & boot"@),
        (InspectorId::Network, "Network"@),
        (InspectorId::Containers, "Containers"@),
        (InspectorId::UsersGroups, "Users & groups"@),
        (InspectorId::ScheduledTasks, "Scheduled tasks"@),
        (InspectorId::Config, "Config files"@),
        (InspectorId::Selinux, "SELinux"@),
        (InspectorId::NonRpmSoftware, "Non-RPM software"@),
    ]
}

/// The step names, in the order of the step ids.
pub open spec fn step_names_spec() -> Seq<Seq<char>> {
    seq![
        "Querying installed packages"@,
        "Classifying packages"@,
        "Resolving source repos"@,
        "Resolving dependency tree"@,
        "Verifying package integrity"@,
        "Mapping file ownership"@,
        "Applying rpm verification"@,
        "Walking filesystem"@,
        "Classifying configs"@,
    ]
}

/// The probe names, in the order of the probe ids.
pub open spec fn probe_names_spec() -> Seq<Seq<char>> {
    seq!["pip packages"@, "npm packages"@, "Python virtualenvs"@, "ELF binaries"@]
}

fn pair(id: InspectorId, name: &str) -> (r: (InspectorId, String))
    ensures
        r.0 == id && r.1@ == name@,
{
    (id, name.to_owned())
}

fn owned(s: &str) -> (r: String)
    ensures
        r@ == s@,
{
    s.to_owned()
}

/// The inspectors in display order, with their names.
pub fn display_order() -> (v: Vec<(InspectorId, String)>)
    ensures
        order_view(v@) == display_order_spec(),
{
    let v = vec![
        pair(InspectorId::Rpm, "RPM packages"),
        pair(InspectorId::Services, "Services"),
        pair(InspectorId::Storage, "Storage"),
        pair(InspectorId::KernelBoot, "Kernel & boot"),
        pair(InspectorId::Network, "Network"),
        pair(InspectorId::Containers, "Containers"),
        pair(InspectorId::UsersGroups, "Users & groups"),
        pair(InspectorId::ScheduledTasks, "Scheduled tasks"),
        pair(InspectorId::Config, "Config files"),
        pair(InspectorId::Selinux, "SELinux"),
        pair(InspectorId::NonRpmSoftware, "Non-RPM software"),
    ];
    assert(order_view(v@) =~= display_order_spec());
    v
}

/// The step names, in the order of the step ids.
pub fn step_names() -> (v: Vec<String>)
    ensures
        string_views(v@) == step_names_spec(),
{
    let v = vec![
        owned("Querying installed packages"),
        owned("Classifying packages"),
        owned("Resolving source repos"),
        owned("Resolving dependency tree"),
        owned("Verifying package integrity"),
        owned("Mapping file ownership"),
        owned("Applying rpm verification"),
        owned("Walking filesystem"),
        owned("Classifying configs"),
    ];
    assert(string_views(v@) =~= step_names_spec());
    v
}

/// The probe names, in the order of the probe ids.
pub fn probe_names() -> (v: Vec<String>)
    ensures
        string_views(v@) == probe_names_spec(),
{
    let v = vec![owned("pip packages"), owned("npm packages"), owned("Python virtualenvs"), owned("ELF binaries")];
    assert(string_views(v@) =~= probe_names_spec());
    v
}

proof fn lemma_every_inspector_listed()
    ensures
        forall|id: InspectorId| #[trigger] position_from(display_order_spec(), id, 0) is Some,
{
    reveal_with_fuel(position_from, 12);
    let o = display_order_spec();
    assert forall|id: InspectorId| #[trigger] position_from(o, id, 0) is Some by {
        match id {
            InspectorId::Rpm => {},
            InspectorId::Services => {},
            InspectorId::Storage => {},
            InspectorId::KernelBoot => {},
            InspectorId::Network => {},
            InspectorId::Containers => {},
            InspectorId::UsersGroups => {},
            InspectorId::ScheduledTasks => {},
            InspectorId::Config => {},
            InspectorId::Selinux => {},
            InspectorId::NonRpmSoftware => {},
        }
    }
}

/// The names the progress output uses: every inspector, step and probe
/// named.
pub fn display_names() -> (n: DisplayNames)
    ensures
        n.wf(),
        order_view(n.order@) == display_order_spec(),
        string_views(n.steps@) == step_names_spec(),
        string_views(n.probes@) == probe_names_spec(),
{
    let n = DisplayNames { order: display_order(), steps: step_names(), probes: probe_names() };
    proof {
        lemma_every_inspector_listed();
        assert(string_views(n.steps@).len() == 9);
        assert(string_views(n.probes@).len() == 4);
        assert forall|id: InspectorId| #[trigger] position_from(order_view(n.order@), id, 0) is Some by {
            assert(position_from(display_order_spec(), id, 0) is Some);
        }
    }
    n
}

/// Finished phases shorter than this many milliseconds show no elapsed
/// time.
pub const TIMER_THRESHOLD_MS: u64 = 1000;

/// A finished phase that took `ms` milliseconds shows its elapsed time:
/// from one second on.
pub fn shows_elapsed(ms: u64) -> (b: bool)
    ensures
        b == (ms >= TIMER_THRESHOLD_MS),
{
    ms >= TIMER_THRESHOLD_MS
}

} // verus!
