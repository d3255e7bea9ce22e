//! What holds of every fleet view, whatever the snapshot: the reference
//! sections come in a fixed order and each holds an item, their items keep
//! what the snapshot stored, and only language package environments reach
//! the language packages section.

use vstd::prelude::*;
use crate::web::aggregate::{
    section_view, sections_view, AggregateSection,
    law_zones_partition, prevalence_dto_spec, section_spec, shown_zone, zone_items, AggregateContext,
    AggregateItemView, HostPrevalence, PrevalenceZone, SectionView,
};
use crate::tui_types::ItemIdView;
use crate::web::grouping::{groups_of, lemma_group_members, lemma_groups_of_valid};
use crate::web::fleet::{
    aggregate_sections_spec, config_items, context_sections_spec, ecosystem_of, flatpak_item, grouped_items,
    is_lang_method, lang_envs, lang_items, nonrpm_item, opt_section, package_item, port_item, ref_item,
    reference_sections_spec, section_items, service_item, software_sections_spec, tuned_item, unmanaged_items,
    FleetEntry, FleetFlatpak, FleetNonRpm, FleetPackage, FleetPort, FleetService, FleetSnapshot, FleetTuned,
    FleetUnmanagedFile, RefKind, FleetCompose, compose_group_item, entry_keys, member_variants, rep_index,
    lemma_first_chosen_range, extends,
};

verus! {

// ---- sections of a sequence ----

/// Every section of `ss` satisfies `p`.
pub open spec fn all_sections(ss: Seq<SectionView>, p: spec_fn(SectionView) -> bool) -> bool {
    forall|i: int| 0 <= i < ss.len() ==> #[trigger] p(ss[i])
}

proof fn lemma_all_concat(a: Seq<SectionView>, b: Seq<SectionView>, p: spec_fn(SectionView) -> bool)
    requires
        all_sections(a, p),
        all_sections(b, p),
    ensures
        all_sections(a + b, p),
{
    assert forall|i: int| 0 <= i < (a + b).len() implies #[trigger] p((a + b)[i]) by {
        if i < a.len() {
            assert((a + b)[i] == a[i]);
        } else {
            assert((a + b)[i] == b[i - a.len()]);
        }
    }
}

/// Each item of a zone is an item of the list it was taken from.
proof fn lemma_zone_items_from(items: Seq<AggregateItemView>, z: PrevalenceZone)
    ensures
        forall|k: int| 0 <= k < zone_items(items, z).len() ==> items.contains(#[trigger] zone_items(items, z)[k]),
    decreases items.len(),
{
    if items.len() > 0 {
        let init = items.drop_last();
        lemma_zone_items_from(init, z);
        let zi = zone_items(items, z);
        let zi0 = zone_items(init, z);
        assert forall|k: int| 0 <= k < zi.len() implies items.contains(#[trigger] zi[k]) by {
            if k < zi0.len() {
                assert(zi[k] == zi0[k]);
                assert(init.contains(zi0[k]));
                let j = choose|j: int| 0 <= j < init.len() && init[j] == zi0[k];
                assert(items[j] == init[j]);
            } else {
                assert(zi[k] == items.last());
                assert(items[items.len() - 1] == items.last());
            }
        }
    }
}

/// A section built from `items` shows exactly as many items, each taken
/// from `items`.
proof fn lemma_section_spec_items(id: Seq<char>, name: Seq<char>, dec: bool, items: Seq<AggregateItemView>, za: bool)
    ensures
        section_items(section_spec(id, name, dec, items, za)).len() == items.len(),
        forall|k: int| 0 <= k < section_items(section_spec(id, name, dec, items, za)).len()
            ==> items.contains(#[trigger] section_items(section_spec(id, name, dec, items, za))[k]),
{
    let s = section_spec(id, name, dec, items, za);
    let all = section_items(s);
    law_zones_partition(items);
    if za {
        let c = zone_items(items, PrevalenceZone::Consensus);
        let n = zone_items(items, PrevalenceZone::NearConsensus);
        let d = zone_items(items, PrevalenceZone::Divergent);
        lemma_zone_items_from(items, PrevalenceZone::Consensus);
        lemma_zone_items_from(items, PrevalenceZone::NearConsensus);
        lemma_zone_items_from(items, PrevalenceZone::Divergent);
        assert(all =~= c + n + d);
        assert forall|k: int| 0 <= k < all.len() implies items.contains(#[trigger] all[k]) by {
            if k < c.len() {
                assert(all[k] == c[k]);
            } else if k < c.len() + n.len() {
                assert(all[k] == n[k - c.len()]);
            } else {
                assert(all[k] == d[k - c.len() - n.len()]);
            }
        }
    } else {
        assert(all =~= items);
        assert forall|k: int| 0 <= k < all.len() implies items.contains(#[trigger] all[k]) by {
            assert(items[k] == all[k]);
        }
    }
}

/// A section that is only added when it has items: what it adds holds an
/// item, and carries the given id and decision flag.
proof fn lemma_opt_section(id: Seq<char>, name: Seq<char>, dec: bool, items: Seq<AggregateItemView>, ctx: AggregateContext)
    ensures
        opt_section(id, name, dec, items, ctx).len() <= 1,
        forall|i: int| 0 <= i < opt_section(id, name, dec, items, ctx).len() ==> {
            let s = #[trigger] opt_section(id, name, dec, items, ctx)[i];
            &&& section_items(s).len() > 0
            &&& s.id == id
            &&& s.is_decision_section == dec
            &&& forall|k: int| 0 <= k < section_items(s).len() ==> items.contains(#[trigger] section_items(s)[k])
        },
        items.len() > 0 ==> opt_section(id, name, dec, items, ctx) == seq![section_spec(id, name, dec, items, ctx.zones_active)],
{
    lemma_section_spec_items(id, name, dec, items, ctx.zones_active);
}

// ---- the reference sections hold items ----

pub open spec fn holds_items(s: SectionView) -> bool {
    section_items(s).len() > 0
}

/// Every section that the reference sections add holds at least one item,
/// in its flat list or in its zones.
pub proof fn law_reference_sections_hold_items(snap: FleetSnapshot, ctx: AggregateContext)
    ensures
        forall|i: int| 0 <= i < reference_sections_spec(snap, ctx).len()
            ==> section_items(#[trigger] reference_sections_spec(snap, ctx)[i]).len() > 0,
{
    let p = |s: SectionView| holds_items(s);
    lemma_parts_all(snap, ctx, p);
    lemma_reference_parts(snap, ctx, p);
    let ss = reference_sections_spec(snap, ctx);
    assert forall|i: int| 0 <= i < ss.len() implies section_items(#[trigger] ss[i]).len() > 0 by {
        assert(p(ss[i]));
    }
}

/// A property that every section of each part has by the part's lemma.
proof fn lemma_parts_all(snap: FleetSnapshot, ctx: AggregateContext, p: spec_fn(SectionView) -> bool)
    requires
        forall|s: SectionView| holds_items(s) ==> #[trigger] p(s),
    ensures
        forall|k: int| 0 <= k < 9 ==> all_sections(#[trigger] reference_parts(snap, ctx)[k], p),
{
    assert forall|k: int| 0 <= k < 9 implies all_sections(#[trigger] reference_parts(snap, ctx)[k], p) by {
        lemma_reference_part(snap, ctx, k);
    }
}

/// The reference sections, as the nine optional sections they are made of.
pub open spec fn reference_parts(s: FleetSnapshot, ctx: AggregateContext) -> Seq<Seq<SectionView>> {
    seq![
        opt_section("compose"@, "Compose Files"@, false, crate::web::fleet::grouped_items(s.compose_files@, ctx), ctx),
        opt_section("network"@, "Network"@, false,
            s.connections@.map_values(|e: FleetEntry| ref_item(e, RefKind::Connection, ctx))
                + s.firewall_zones@.map_values(|e: FleetEntry| ref_item(e, RefKind::FirewallZone, ctx)), ctx),
        opt_section("storage"@, "Storage"@, false, s.fstab@.map_values(|e: FleetEntry| ref_item(e, RefKind::Fstab, ctx)), ctx),
        opt_section("scheduled"@, "Scheduled Tasks"@, false,
            s.cron_jobs@.map_values(|e: FleetEntry| ref_item(e, RefKind::CronJob, ctx))
                + s.timers@.map_values(|e: FleetEntry| ref_item(e, RefKind::Timer, ctx)), ctx),
        opt_section("selinux"@, "SELinux"@, false, s.selinux_ports@.map_values(|p: FleetPort| port_item(p, ctx)), ctx),
        opt_section("kernel_boot"@, "Kernel & Boot"@, false, s.kernel_modules@.map_values(|e: FleetEntry| ref_item(e, RefKind::KernelModule, ctx)), ctx),
        opt_section("nonrpm"@, "Non-RPM Software"@, false, s.non_rpm@.map_values(|n: FleetNonRpm| nonrpm_item(n, ctx)), ctx),
        opt_section("language_packages"@, "Language Packages"@, true, lang_items(s.non_rpm@, ctx), ctx),
        opt_section("unmanaged_files"@, "Unmanaged Files"@, true, unmanaged_items(s.unmanaged_files@, ctx), ctx),
    ]
}

/// The fixed order of the reference sections.
pub open spec fn reference_ids() -> Seq<Seq<char>> {
    seq!["compose"@, "network"@, "storage"@, "scheduled"@, "selinux"@, "kernel_boot"@, "nonrpm"@, "language_packages"@, "unmanaged_files"@]
}

proof fn lemma_reference_part(snap: FleetSnapshot, ctx: AggregateContext, k: int)
    requires
        0 <= k < 9,
    ensures
        reference_parts(snap, ctx)[k].len() <= 1,
        forall|i: int| 0 <= i < reference_parts(snap, ctx)[k].len() ==> {
            let s = #[trigger] reference_parts(snap, ctx)[k][i];
            &&& holds_items(s)
            &&& s.id == reference_ids()[k]
            &&& s.is_decision_section == (k >= 7)
        },
{
    let s = snap;
    if k == 0 {
        lemma_opt_section("compose"@, "Compose Files"@, false, crate::web::fleet::grouped_items(s.compose_files@, ctx), ctx);
    } else if k == 1 {
        lemma_opt_section("network"@, "Network"@, false,
            s.connections@.map_values(|e: FleetEntry| ref_item(e, RefKind::Connection, ctx))
                + s.firewall_zones@.map_values(|e: FleetEntry| ref_item(e, RefKind::FirewallZone, ctx)), ctx);
    } else if k == 2 {
        lemma_opt_section("storage"@, "Storage"@, false, s.fstab@.map_values(|e: FleetEntry| ref_item(e, RefKind::Fstab, ctx)), ctx);
    } else if k == 3 {
        lemma_opt_section("scheduled"@, "Scheduled Tasks"@, false,
            s.cron_jobs@.map_values(|e: FleetEntry| ref_item(e, RefKind::CronJob, ctx))
                + s.timers@.map_values(|e: FleetEntry| ref_item(e, RefKind::Timer, ctx)), ctx);
    } else if k == 4 {
        lemma_opt_section("selinux"@, "SELinux"@, false, s.selinux_ports@.map_values(|p: FleetPort| port_item(p, ctx)), ctx);
    } else if k == 5 {
        lemma_opt_section("kernel_boot"@, "Kernel & Boot"@, false, s.kernel_modules@.map_values(|e: FleetEntry| ref_item(e, RefKind::KernelModule, ctx)), ctx);
    } else if k == 6 {
        lemma_opt_section("nonrpm"@, "Non-RPM Software"@, false, s.non_rpm@.map_values(|n: FleetNonRpm| nonrpm_item(n, ctx)), ctx);
    } else if k == 7 {
        lemma_opt_section("language_packages"@, "Language Packages"@, true, lang_items(s.non_rpm@, ctx), ctx);
    } else {
        lemma_opt_section("unmanaged_files"@, "Unmanaged Files"@, true, unmanaged_items(s.unmanaged_files@, ctx), ctx);
    }
}

/// The reference sections are the nine parts, one after the other; a
/// property of every section of every part holds of every reference
/// section.
proof fn lemma_reference_parts(snap: FleetSnapshot, ctx: AggregateContext, p: spec_fn(SectionView) -> bool)
    requires
        forall|k: int| 0 <= k < 9 ==> all_sections(#[trigger] reference_parts(snap, ctx)[k], p),
    ensures
        reference_sections_spec(snap, ctx) == reference_parts(snap, ctx)[0] + reference_parts(snap, ctx)[1]
            + reference_parts(snap, ctx)[2] + reference_parts(snap, ctx)[3] + reference_parts(snap, ctx)[4]
            + (reference_parts(snap, ctx)[5] + reference_parts(snap, ctx)[6] + reference_parts(snap, ctx)[7]
            + reference_parts(snap, ctx)[8]),
        all_sections(reference_sections_spec(snap, ctx), p),
{
    let ps = reference_parts(snap, ctx);
    assert(all_sections(ps[0], p));
    assert(all_sections(ps[1], p));
    assert(all_sections(ps[2], p));
    assert(all_sections(ps[3], p));
    assert(all_sections(ps[4], p));
    assert(all_sections(ps[5], p));
    assert(all_sections(ps[6], p));
    assert(all_sections(ps[7], p));
    assert(all_sections(ps[8], p));
    lemma_all_concat(ps[0], ps[1], p);
    lemma_all_concat(ps[0] + ps[1], ps[2], p);
    lemma_all_concat(ps[0] + ps[1] + ps[2], ps[3], p);
    lemma_all_concat(ps[0] + ps[1] + ps[2] + ps[3], ps[4], p);
    lemma_all_concat(ps[5], ps[6], p);
    lemma_all_concat(ps[5] + ps[6], ps[7], p);
    lemma_all_concat(ps[5] + ps[6] + ps[7], ps[8], p);
    assert(context_sections_spec(snap, ctx) == ps[0] + ps[1] + ps[2] + ps[3] + ps[4]);
    assert(software_sections_spec(snap, ctx) == ps[5] + ps[6] + ps[7] + ps[8]);
    lemma_all_concat(ps[0] + ps[1] + ps[2] + ps[3] + ps[4], ps[5] + ps[6] + ps[7] + ps[8], p);
}

// ---- the reference sections' order ----

/// The position of a reference section's id in the fixed order, 9 for any
/// other id.
pub open spec fn reference_rank(id: Seq<char>) -> int {
    if id == "compose"@ { 0 }
    else if id == "network"@ { 1 }
    else if id == "storage"@ { 2 }
    else if id == "scheduled"@ { 3 }
    else if id == "selinux"@ { 4 }
    else if id == "kernel_boot"@ { 5 }
    else if id == "nonrpm"@ { 6 }
    else if id == "language_packages"@ { 7 }
    else if id == "unmanaged_files"@ { 8 }
    else { 9 }
}

proof fn lemma_reference_ids()
    ensures
        forall|k: int| 0 <= k < 9 ==> reference_rank(#[trigger] reference_ids()[k]) == k,
        forall|k: int| 0 <= k < 9 ==> ((k >= 7) <==> (#[trigger] reference_ids()[k] == "language_packages"@
            || reference_ids()[k] == "unmanaged_files"@)),
{
    reveal_strlit("compose");
    reveal_strlit("network");
    reveal_strlit("storage");
    reveal_strlit("scheduled");
    reveal_strlit("selinux");
    reveal_strlit("kernel_boot");
    reveal_strlit("nonrpm");
    reveal_strlit("language_packages");
    reveal_strlit("unmanaged_files");
    let ids = reference_ids();
    assert(ids[0] == "compose"@);
    assert(ids[1] == "network"@);
    assert(ids[2] == "storage"@);
    assert(ids[3] == "scheduled"@);
    assert(ids[4] == "selinux"@);
    assert(ids[5] == "kernel_boot"@);
    assert(ids[6] == "nonrpm"@);
    assert(ids[7] == "language_packages"@);
    assert(ids[8] == "unmanaged_files"@);
    assert("network"@ != "compose"@) by { assert("network"@[0] != "compose"@[0]); }
    assert("storage"@ != "compose"@) by { assert("storage"@[0] != "compose"@[0]); }
    assert("storage"@ != "network"@) by { assert("storage"@[0] != "network"@[0]); }
    assert("scheduled"@ != "compose"@) by { assert("scheduled"@[0] != "compose"@[0]); }
    assert("scheduled"@ != "network"@) by { assert("scheduled"@[0] != "network"@[0]); }
    assert("scheduled"@ != "storage"@) by { assert("scheduled"@[1] != "storage"@[1]); }
    assert("selinux"@ != "compose"@) by { assert("selinux"@[0] != "compose"@[0]); }
    assert("selinux"@ != "network"@) by { assert("selinux"@[0] != "network"@[0]); }
    assert("selinux"@ != "storage"@) by { assert("selinux"@[1] != "storage"@[1]); }
    assert("selinux"@ != "scheduled"@) by { assert("selinux"@[1] != "scheduled"@[1]); }
    assert("kernel_boot"@ != "compose"@) by { assert("kernel_boot"@[0] != "compose"@[0]); }
    assert("kernel_boot"@ != "network"@) by { assert("kernel_boot"@[0] != "network"@[0]); }
    assert("kernel_boot"@ != "storage"@) by { assert("kernel_boot"@[0] != "storage"@[0]); }
    assert("kernel_boot"@ != "scheduled"@) by { assert("kernel_boot"@[0] != "scheduled"@[0]); }
    assert("kernel_boot"@ != "selinux"@) by { assert("kernel_boot"@[0] != "selinux"@[0]); }
    assert("nonrpm"@ != "compose"@) by { assert("nonrpm"@[0] != "compose"@[0]); }
    assert("nonrpm"@ != "network"@) by { assert("nonrpm"@[1] != "network"@[1]); }
    assert("nonrpm"@ != "storage"@) by { assert("nonrpm"@[0] != "storage"@[0]); }
    assert("nonrpm"@ != "scheduled"@) by { assert("nonrpm"@[0] != "scheduled"@[0]); }
    assert("nonrpm"@ != "selinux"@) by { assert("nonrpm"@[0] != "selinux"@[0]); }
    assert("nonrpm"@ != "kernel_boot"@) by { assert("nonrpm"@[0] != "kernel_boot"@[0]); }
    assert("language_packages"@ != "compose"@) by { assert("language_packages"@[0] != "compose"@[0]); }
    assert("language_packages"@ != "network"@) by { assert("language_packages"@[0] != "network"@[0]); }
    assert("language_packages"@ != "storage"@) by { assert("language_packages"@[0] != "storage"@[0]); }
    assert("language_packages"@ != "scheduled"@) by { assert("language_packages"@[0] != "scheduled"@[0]); }
    assert("language_packages"@ != "selinux"@) by { assert("language_packages"@[0] != "selinux"@[0]); }
    assert("language_packages"@ != "kernel_boot"@) by { assert("language_packages"@[0] != "kernel_boot"@[0]); }
    assert("language_packages"@ != "nonrpm"@) by { assert("language_packages"@[0] != "nonrpm"@[0]); }
    assert("unmanaged_files"@ != "compose"@) by { assert("unmanaged_files"@[0] != "compose"@[0]); }
    assert("unmanaged_files"@ != "network"@) by { assert("unmanaged_files"@[0] != "network"@[0]); }
    assert("unmanaged_files"@ != "storage"@) by { assert("unmanaged_files"@[0] != "storage"@[0]); }
    assert("unmanaged_files"@ != "scheduled"@) by { assert("unmanaged_files"@[0] != "scheduled"@[0]); }
    assert("unmanaged_files"@ != "selinux"@) by { assert("unmanaged_files"@[0] != "selinux"@[0]); }
    assert("unmanaged_files"@ != "kernel_boot"@) by { assert("unmanaged_files"@[0] != "kernel_boot"@[0]); }
    assert("unmanaged_files"@ != "nonrpm"@) by { assert("unmanaged_files"@[0] != "nonrpm"@[0]); }
    assert("unmanaged_files"@ != "language_packages"@) by { assert("unmanaged_files"@[0] != "language_packages"@[0]); }
}

/// Every section's rank lies in `lo..=hi`.
pub open spec fn ranked(ss: Seq<SectionView>, lo: int, hi: int) -> bool {
    forall|i: int| 0 <= i < ss.len() ==> lo <= #[trigger] reference_rank(ss[i].id) <= hi
}

/// Sections come in strictly increasing rank.
pub open spec fn in_rank_order(ss: Seq<SectionView>) -> bool {
    forall|i: int, j: int| 0 <= i < j < ss.len() ==> reference_rank(#[trigger] ss[i].id) < reference_rank(#[trigger] ss[j].id)
}

proof fn lemma_rank_concat(a: Seq<SectionView>, b: Seq<SectionView>, la: int, ha: int, lb: int, hb: int)
    requires
        in_rank_order(a),
        in_rank_order(b),
        ranked(a, la, ha),
        ranked(b, lb, hb),
        ha < lb,
        la <= lb,
        ha <= hb,
    ensures
        in_rank_order(a + b),
        ranked(a + b, la, hb),
{
    let c = a + b;
    assert forall|i: int| 0 <= i < c.len() implies la <= #[trigger] reference_rank(c[i].id) <= hb by {
        if i < a.len() {
            assert(c[i] == a[i]);
        } else {
            assert(c[i] == b[i - a.len()]);
        }
    }
    assert forall|i: int, j: int| 0 <= i < j < c.len() implies reference_rank(#[trigger] c[i].id) < reference_rank(#[trigger] c[j].id) by {
        if j < a.len() {
            assert(c[i] == a[i] && c[j] == a[j]);
        } else if i >= a.len() {
            assert(c[i] == b[i - a.len()] && c[j] == b[j - a.len()]);
        } else {
            assert(c[i] == a[i] && c[j] == b[j - a.len()]);
            assert(reference_rank(a[i].id) <= ha);
            assert(lb <= reference_rank(b[j - a.len()].id));
        }
    }
}

proof fn lemma_part_ranked(snap: FleetSnapshot, ctx: AggregateContext, k: int)
    requires
        0 <= k < 9,
    ensures
        in_rank_order(reference_parts(snap, ctx)[k]),
        ranked(reference_parts(snap, ctx)[k], k, k),
{
    lemma_reference_part(snap, ctx, k);
    lemma_reference_ids();
    let pk = reference_parts(snap, ctx)[k];
    assert forall|i: int| 0 <= i < pk.len() implies k <= #[trigger] reference_rank(pk[i].id) <= k by {
        assert(pk[i].id == reference_ids()[k]);
    }
}

/// The reference sections come in a fixed order (compose files, network,
/// storage, scheduled tasks, SELinux, kernel and boot, non-RPM software,
/// language packages, unmanaged files), each at most once, and only the
/// language package and unmanaged file sections are decision sections.
pub proof fn law_reference_sections_order(snap: FleetSnapshot, ctx: AggregateContext)
    ensures
        forall|i: int| 0 <= i < reference_sections_spec(snap, ctx).len()
            ==> reference_rank(#[trigger] reference_sections_spec(snap, ctx)[i].id) < 9,
        forall|i: int, j: int| 0 <= i < j < reference_sections_spec(snap, ctx).len()
            ==> reference_rank(#[trigger] reference_sections_spec(snap, ctx)[i].id)
                < reference_rank(#[trigger] reference_sections_spec(snap, ctx)[j].id),
        forall|i: int| 0 <= i < reference_sections_spec(snap, ctx).len() ==> ((#[trigger] reference_sections_spec(snap, ctx)[i]).is_decision_section
            <==> (reference_sections_spec(snap, ctx)[i].id == "language_packages"@ || reference_sections_spec(snap, ctx)[i].id == "unmanaged_files"@)),
{
    let ps = reference_parts(snap, ctx);
    lemma_part_ranked(snap, ctx, 0);
    lemma_part_ranked(snap, ctx, 1);
    lemma_part_ranked(snap, ctx, 2);
    lemma_part_ranked(snap, ctx, 3);
    lemma_part_ranked(snap, ctx, 4);
    lemma_part_ranked(snap, ctx, 5);
    lemma_part_ranked(snap, ctx, 6);
    lemma_part_ranked(snap, ctx, 7);
    lemma_part_ranked(snap, ctx, 8);
    lemma_rank_concat(ps[0], ps[1], 0, 0, 1, 1);
    lemma_rank_concat(ps[0] + ps[1], ps[2], 0, 1, 2, 2);
    lemma_rank_concat(ps[0] + ps[1] + ps[2], ps[3], 0, 2, 3, 3);
    lemma_rank_concat(ps[0] + ps[1] + ps[2] + ps[3], ps[4], 0, 3, 4, 4);
    lemma_rank_concat(ps[5], ps[6], 5, 5, 6, 6);
    lemma_rank_concat(ps[5] + ps[6], ps[7], 5, 6, 7, 7);
    lemma_rank_concat(ps[5] + ps[6] + ps[7], ps[8], 5, 7, 8, 8);
    lemma_rank_concat(ps[0] + ps[1] + ps[2] + ps[3] + ps[4], ps[5] + ps[6] + ps[7] + ps[8], 0, 4, 5, 8);
    let p = |s: SectionView| s.is_decision_section <==> (s.id == "language_packages"@ || s.id == "unmanaged_files"@);
    lemma_reference_ids();
    assert forall|k: int| 0 <= k < 9 implies all_sections(#[trigger] reference_parts(snap, ctx)[k], p) by {
        lemma_reference_part(snap, ctx, k);
    }
    lemma_reference_parts(snap, ctx, p);
    let ss = reference_sections_spec(snap, ctx);
    assert forall|i: int| 0 <= i < ss.len() implies ((#[trigger] ss[i]).is_decision_section
        <==> (ss[i].id == "language_packages"@ || ss[i].id == "unmanaged_files"@)) by {
        assert(p(ss[i]));
    }
}

// ---- items keep what was stored ----

/// An item shows what its snapshot entry stored: the include and lock
/// flags as they are, the host count and total clamped at zero (the
/// fleet's host count as total without prevalence data), and no zone
/// while zones are off.
pub open spec fn keeps_stored(it: AggregateItemView, included: bool, locked: bool, fp: Option<HostPrevalence>, ctx: AggregateContext) -> bool {
    &&& it.included == included
    &&& it.locked == locked
    &&& it.prevalence.count as int == (match fp {
        Some(f) => if f.count < 0 { 0 } else { f.count as int },
        None => 0,
    })
    &&& it.prevalence.total as int == (match fp {
        Some(f) => if f.total < 0 { 0 } else { f.total as int },
        None => (ctx.total_hosts as u32) as int,
    })
    &&& (!ctx.zones_active ==> it.triage.zone is None)
}

/// The items of the reference sections take the include and lock flags
/// their entries stored, never recomputed from prevalence, and report the
/// entries' host counts clamped at zero: network connections and firewall
/// zones, fstab entries, cron jobs and timers, SELinux ports, kernel
/// modules, non-RPM items, language environments and unmanaged files.
pub proof fn law_reference_items_keep_stored(snap: FleetSnapshot, ctx: AggregateContext)
    ensures
        forall|kind: RefKind, e: FleetEntry| #[trigger] keeps_stored(ref_item(e, kind, ctx), e.included, e.locked, e.aggregate, ctx),
        forall|p: FleetPort| #[trigger] keeps_stored(port_item(p, ctx), p.included, p.locked, p.aggregate, ctx),
        forall|n: FleetNonRpm| #[trigger] keeps_stored(nonrpm_item(n, ctx), n.included, n.locked, n.aggregate, ctx),
        forall|k: int| 0 <= k < lang_items(snap.non_rpm@, ctx).len() ==> #[trigger] keeps_stored(lang_items(snap.non_rpm@, ctx)[k],
            lang_envs(snap.non_rpm@)[k].included, lang_envs(snap.non_rpm@)[k].locked, lang_envs(snap.non_rpm@)[k].aggregate, ctx),
        forall|k: int| 0 <= k < unmanaged_items(snap.unmanaged_files@, ctx).len() ==> #[trigger] keeps_stored(unmanaged_items(snap.unmanaged_files@, ctx)[k],
            snap.unmanaged_files@[k].file.included, snap.unmanaged_files@[k].locked, snap.unmanaged_files@[k].variant.aggregate, ctx),
{
    assert forall|fp: Option<HostPrevalence>| #[trigger] prevalence_dto_spec(fp, ctx).count as int == (match fp {
        Some(f) => if f.count < 0 { 0 } else { f.count as int },
        None => 0,
    }) && prevalence_dto_spec(fp, ctx).total as int == (match fp {
        Some(f) => if f.total < 0 { 0 } else { f.total as int },
        None => (ctx.total_hosts as u32) as int,
    }) && (!ctx.zones_active ==> shown_zone(fp, ctx) is None) by {
    }
}

// ---- language packages ----

proof fn lemma_lang_envs(ns: Seq<FleetNonRpm>)
    ensures
        forall|k: int| 0 <= k < lang_envs(ns).len() ==> is_lang_method(#[trigger] lang_envs(ns)[k].method@) && ns.contains(lang_envs(ns)[k]),
        (forall|j: int| 0 <= j < ns.len() ==> !is_lang_method(#[trigger] ns[j].method@)) ==> lang_envs(ns).len() == 0,
    decreases ns.len(),
{
    if ns.len() > 0 {
        let init = ns.drop_last();
        lemma_lang_envs(init);
        let e = lang_envs(ns);
        let e0 = lang_envs(init);
        assert forall|k: int| 0 <= k < e.len() implies is_lang_method(#[trigger] e[k].method@) && ns.contains(e[k]) by {
            if k < e0.len() {
                assert(e[k] == e0[k]);
                assert(0 <= k < lang_envs(init).len());
                assert(is_lang_method(lang_envs(init)[k].method@));
                assert(init.contains(e0[k]));
                let j = choose|j: int| 0 <= j < init.len() && init[j] == e0[k];
                assert(ns[j] == init[j]);
            } else {
                assert(e[k] == ns.last());
                assert(ns[ns.len() - 1] == ns.last());
            }
        }
        if forall|j: int| 0 <= j < ns.len() ==> !is_lang_method(#[trigger] ns[j].method@) {
            assert forall|j: int| 0 <= j < init.len() implies !is_lang_method(#[trigger] init[j].method@) by {
                assert(init[j] == ns[j]);
            }
            assert(!is_lang_method(ns[ns.len() - 1].method@));
        }
    }
}

/// Only language package environments reach the language packages
/// section: each of its items stands for a non-RPM item found by `pip
/// list`, `pip dist-info`, `venv`, `npm lockfile` or `gem lockfile`, and
/// is identified by that item's ecosystem and path; without such items the
/// section has nothing. Non-RPM items themselves carry no section data or
/// variant payload.
pub proof fn law_language_packages_only_from_language_methods(ns: Seq<FleetNonRpm>, ctx: AggregateContext)
    ensures
        lang_items(ns, ctx).len() == lang_envs(ns).len(),
        forall|k: int| 0 <= k < lang_envs(ns).len() ==> is_lang_method(#[trigger] lang_envs(ns)[k].method@) && ns.contains(lang_envs(ns)[k]),
        forall|k: int| 0 <= k < lang_items(ns, ctx).len() ==> (#[trigger] lang_items(ns, ctx)[k]).item_id == (ItemIdView::LanguageEnv {
            ecosystem: ecosystem_of(lang_envs(ns)[k].method@),
            path: lang_envs(ns)[k].path@,
        }),
        (forall|j: int| 0 <= j < ns.len() ==> !is_lang_method(#[trigger] ns[j].method@)) ==> lang_items(ns, ctx).len() == 0,
        forall|n: FleetNonRpm| (#[trigger] nonrpm_item(n, ctx)).section_metadata is None && nonrpm_item(n, ctx).variant_payload is None,
{
    lemma_lang_envs(ns);
}

// ---- all sections of the fleet view ----

/// The sections of the fleet view before the reference sections.
pub open spec fn head_parts(s: FleetSnapshot, ctx: AggregateContext) -> Seq<Seq<SectionView>> {
    seq![
        match s.packages {
            Some(ps) => seq![section_spec("packages"@, "Packages"@, true, ps@.map_values(|p: FleetPackage| package_item(p, ctx)), ctx.zones_active)],
            None => Seq::empty(),
        },
        match s.configs {
            Some(c) => seq![section_spec("configs"@, "Configuration Files"@, true, config_items(c.refined@, c.files@, ctx), ctx.zones_active)],
            None => Seq::empty(),
        },
        opt_section("services"@, "Services"@, true,
            s.services@.map_values(|x: FleetService| service_item(x, ctx)) + grouped_items(s.dropins@, ctx), ctx),
        opt_section("containers"@, "Containers"@, true,
            grouped_items(s.quadlets@, ctx) + s.flatpaks@.map_values(|f: FleetFlatpak| flatpak_item(f, ctx)), ctx),
        opt_section("sysctls"@, "Kernel Parameters"@, true, grouped_items(s.sysctls@, ctx), ctx),
        opt_section("tuned"@, "Tuned Profiles"@, true, s.tuned@.map_values(|x: FleetTuned| tuned_item(x, s.tuned_included, ctx)), ctx),
    ]
}

pub open spec fn head_ids() -> Seq<Seq<char>> {
    seq!["packages"@, "configs"@, "services"@, "containers"@, "sysctls"@, "tuned"@]
}

proof fn lemma_head_part(snap: FleetSnapshot, ctx: AggregateContext, k: int)
    requires
        0 <= k < 6,
    ensures
        forall|i: int| 0 <= i < head_parts(snap, ctx)[k].len() ==> (#[trigger] head_parts(snap, ctx)[k][i]).id == head_ids()[k],
{
    let s = snap;
    if k == 2 {
        lemma_opt_section("services"@, "Services"@, true,
            s.services@.map_values(|x: FleetService| service_item(x, ctx)) + grouped_items(s.dropins@, ctx), ctx);
    } else if k == 3 {
        lemma_opt_section("containers"@, "Containers"@, true,
            grouped_items(s.quadlets@, ctx) + s.flatpaks@.map_values(|f: FleetFlatpak| flatpak_item(f, ctx)), ctx);
    } else if k == 4 {
        lemma_opt_section("sysctls"@, "Kernel Parameters"@, true, grouped_items(s.sysctls@, ctx), ctx);
    } else if k == 5 {
        lemma_opt_section("tuned"@, "Tuned Profiles"@, true, s.tuned@.map_values(|x: FleetTuned| tuned_item(x, s.tuned_included, ctx)), ctx);
    }
}

proof fn lemma_head_ids()
    ensures
        forall|k: int| 0 <= k < 6 ==> #[trigger] head_ids()[k] != "language_packages"@ && head_ids()[k] != "nonrpm"@,
{
    reveal_strlit("packages");
    reveal_strlit("configs");
    reveal_strlit("services");
    reveal_strlit("containers");
    reveal_strlit("sysctls");
    reveal_strlit("tuned");
    reveal_strlit("language_packages");
    reveal_strlit("nonrpm");
    let h = head_ids();
    assert(h[0] != "language_packages"@ && h[0] != "nonrpm"@) by { assert(h[0][0] != "language_packages"@[0] && h[0][0] != "nonrpm"@[0]); }
    assert(h[1] != "language_packages"@ && h[1] != "nonrpm"@) by { assert(h[1][0] != "language_packages"@[0] && h[1][0] != "nonrpm"@[0]); }
    assert(h[2] != "language_packages"@ && h[2] != "nonrpm"@) by { assert(h[2][0] != "language_packages"@[0] && h[2][0] != "nonrpm"@[0]); }
    assert(h[3] != "language_packages"@ && h[3] != "nonrpm"@) by { assert(h[3][0] != "language_packages"@[0] && h[3][0] != "nonrpm"@[0]); }
    assert(h[4] != "language_packages"@ && h[4] != "nonrpm"@) by { assert(h[4][0] != "language_packages"@[0] && h[4][0] != "nonrpm"@[0]); }
    assert(h[5] != "language_packages"@ && h[5] != "nonrpm"@) by { assert(h[5][0] != "language_packages"@[0] && h[5][0] != "nonrpm"@[0]); }
}

proof fn lemma_contains_concat(a: Seq<SectionView>, b: Seq<SectionView>, x: SectionView)
    ensures
        a.contains(x) ==> (a + b).contains(x),
        b.contains(x) ==> (a + b).contains(x),
{
    if a.contains(x) {
        let i = choose|i: int| 0 <= i < a.len() && a[i] == x;
        assert((a + b)[i] == x);
    }
    if b.contains(x) {
        let i = choose|i: int| 0 <= i < b.len() && b[i] == x;
        assert((a + b)[a.len() + i] == x);
    }
}

/// With no language package environment among the non-RPM items, the
/// fleet view has no language packages section; the non-RPM software
/// section is there whenever there are non-RPM items, and none of its
/// items carries section data or a variant payload.
pub proof fn law_non_language_items_stay_non_rpm(snap: FleetSnapshot, ctx: AggregateContext)
    requires
        forall|j: int| 0 <= j < snap.non_rpm@.len() ==> !is_lang_method(#[trigger] snap.non_rpm@[j].method@),
    ensures
        forall|i: int| 0 <= i < aggregate_sections_spec(snap, ctx).len() ==> (#[trigger] aggregate_sections_spec(snap, ctx)[i]).id != "language_packages"@,
        forall|i: int, k: int| 0 <= i < aggregate_sections_spec(snap, ctx).len() && aggregate_sections_spec(snap, ctx)[i].id == "nonrpm"@
            && 0 <= k < section_items(aggregate_sections_spec(snap, ctx)[i]).len() ==> {
            let it = #[trigger] section_items(#[trigger] aggregate_sections_spec(snap, ctx)[i])[k];
            it.section_metadata is None && it.variant_payload is None
        },
        snap.non_rpm@.len() > 0 ==> exists|i: int| 0 <= i < aggregate_sections_spec(snap, ctx).len() && (#[trigger] aggregate_sections_spec(snap, ctx)[i]).id == "nonrpm"@,
{
    let p = |s: SectionView| s.id != "language_packages"@ && (s.id == "nonrpm"@ ==> forall|k: int| 0 <= k < section_items(s).len() ==>
        (#[trigger] section_items(s)[k]).section_metadata is None && section_items(s)[k].variant_payload is None);
    lemma_lang_envs(snap.non_rpm@);
    lemma_reference_ids();
    lemma_head_ids();
    let nitems = snap.non_rpm@.map_values(|n: FleetNonRpm| nonrpm_item(n, ctx));
    assert forall|k: int| 0 <= k < 9 implies all_sections(#[trigger] reference_parts(snap, ctx)[k], p) by {
        lemma_reference_part(snap, ctx, k);
        let pk = reference_parts(snap, ctx)[k];
        if k == 6 {
            lemma_opt_section("nonrpm"@, "Non-RPM Software"@, false, nitems, ctx);
            assert forall|i: int| 0 <= i < pk.len() implies #[trigger] p(pk[i]) by {
                let s = pk[i];
                assert forall|m: int| 0 <= m < section_items(s).len() implies
                    (#[trigger] section_items(s)[m]).section_metadata is None && section_items(s)[m].variant_payload is None by {
                    assert(nitems.contains(section_items(s)[m]));
                    let j = choose|j: int| 0 <= j < nitems.len() && nitems[j] == section_items(s)[m];
                    assert(nitems[j] == nonrpm_item(snap.non_rpm@[j], ctx));
                }
            }
        } else if k == 7 {
            assert(lang_items(snap.non_rpm@, ctx).len() == 0);
            assert(pk.len() == 0);
        } else {
            assert forall|i: int| 0 <= i < pk.len() implies #[trigger] p(pk[i]) by {
                assert(pk[i].id == reference_ids()[k]);
                assert(reference_rank(reference_ids()[k]) == k);
            }
        }
    }
    lemma_reference_parts(snap, ctx, p);
    let hs = head_parts(snap, ctx);
    assert forall|k: int| 0 <= k < 6 implies all_sections(#[trigger] hs[k], p) by {
        lemma_head_part(snap, ctx, k);
        assert forall|i: int| 0 <= i < hs[k].len() implies #[trigger] p(hs[k][i]) by {
            assert(hs[k][i].id == head_ids()[k]);
        }
    }
    let rs = reference_sections_spec(snap, ctx);
    assert(aggregate_sections_spec(snap, ctx) == hs[0] + hs[1] + hs[2] + hs[3] + hs[4] + hs[5] + rs);
    assert(all_sections(hs[0], p));
    assert(all_sections(hs[1], p));
    assert(all_sections(hs[2], p));
    assert(all_sections(hs[3], p));
    assert(all_sections(hs[4], p));
    assert(all_sections(hs[5], p));
    lemma_all_concat(hs[0], hs[1], p);
    lemma_all_concat(hs[0] + hs[1], hs[2], p);
    lemma_all_concat(hs[0] + hs[1] + hs[2], hs[3], p);
    lemma_all_concat(hs[0] + hs[1] + hs[2] + hs[3], hs[4], p);
    lemma_all_concat(hs[0] + hs[1] + hs[2] + hs[3] + hs[4], hs[5], p);
    lemma_all_concat(hs[0] + hs[1] + hs[2] + hs[3] + hs[4] + hs[5], rs, p);
    let all = aggregate_sections_spec(snap, ctx);
    assert forall|i: int| 0 <= i < all.len() implies (#[trigger] all[i]).id != "language_packages"@ by {
        assert(p(all[i]));
    }
    assert forall|i: int, k: int| 0 <= i < all.len() && all[i].id == "nonrpm"@ && 0 <= k < section_items(all[i]).len() implies {
        let it = #[trigger] section_items(#[trigger] all[i])[k];
        it.section_metadata is None && it.variant_payload is None
    } by {
        assert(p(all[i]));
    }
    if snap.non_rpm@.len() > 0 {
        let ps = reference_parts(snap, ctx);
        lemma_opt_section("nonrpm"@, "Non-RPM Software"@, false, nitems, ctx);
        let x = section_spec("nonrpm"@, "Non-RPM Software"@, false, nitems, ctx.zones_active);
        assert(ps[6] == seq![x]);
        assert(ps[6].contains(x)) by { assert(ps[6][0] == x); }
        lemma_contains_concat(ps[5], ps[6], x);
        lemma_contains_concat(ps[5] + ps[6], ps[7], x);
        lemma_contains_concat(ps[5] + ps[6] + ps[7], ps[8], x);
        lemma_reference_parts(snap, ctx, p);
        lemma_contains_concat(ps[0] + ps[1] + ps[2] + ps[3] + ps[4], ps[5] + ps[6] + ps[7] + ps[8], x);
        lemma_contains_concat(hs[0] + hs[1] + hs[2] + hs[3] + hs[4] + hs[5], rs, x);
        let i = choose|i: int| 0 <= i < all.len() && all[i] == x;
        assert(all[i].id == "nonrpm"@);
    }
}

/// `it` shows what one of the compose entries stored.
pub open spec fn stored_by_some(it: AggregateItemView, cs: Seq<FleetCompose>, ctx: AggregateContext) -> bool {
    exists|j: int| 0 <= j < cs.len() && keeps_stored(it, (#[trigger] cs[j]).included, cs[j].locked, cs[j].variant.aggregate, ctx)
}

/// A compose file's item shows what the entry standing for it stored:
/// each item keeps the include and lock flags and the host counts of one
/// of the snapshot's compose entries.
pub proof fn law_compose_items_keep_stored(cs: Seq<FleetCompose>, ctx: AggregateContext)
    ensures
        forall|k: int| 0 <= k < grouped_items(cs, ctx).len() ==> stored_by_some(#[trigger] grouped_items(cs, ctx)[k], cs, ctx),
{
    let keys = entry_keys(cs);
    let gs = groups_of(keys);
    lemma_groups_of_valid(keys);
    assert forall|k: int| 0 <= k < grouped_items(cs, ctx).len() implies stored_by_some(#[trigger] grouped_items(cs, ctx)[k], cs, ctx) by {
        lemma_group_members(keys, gs, k);
        let g = gs[k];
        let vs = member_variants(cs, g.1);
        lemma_first_chosen_range(vs, 0);
        let j = g.1[rep_index(vs)];
        assert(0 <= j < keys.len());
        assert(grouped_items(cs, ctx)[k] == compose_group_item(cs, g, ctx));
        assert(keeps_stored(grouped_items(cs, ctx)[k], cs[j].included, cs[j].locked, cs[j].variant.aggregate, ctx));
    }
}

// ---- every item of every reference section ----

/// `it` shows what one of the entries `es` stored.
pub open spec fn entry_stored(it: AggregateItemView, es: Seq<FleetEntry>, ctx: AggregateContext) -> bool {
    exists|j: int| 0 <= j < es.len() && keeps_stored(it, (#[trigger] es[j]).included, es[j].locked, es[j].aggregate, ctx)
}

/// `it` shows what one of the snapshot's reference entries stored: a
/// network connection or firewall zone, an fstab entry, a cron job or
/// timer, an SELinux port, a kernel module, a non-RPM item, an unmanaged
/// file or a compose file.
pub open spec fn stored_in_snapshot(it: AggregateItemView, snap: FleetSnapshot, ctx: AggregateContext) -> bool {
    ||| entry_stored(it, snap.connections@, ctx)
    ||| entry_stored(it, snap.firewall_zones@, ctx)
    ||| entry_stored(it, snap.fstab@, ctx)
    ||| entry_stored(it, snap.cron_jobs@, ctx)
    ||| entry_stored(it, snap.timers@, ctx)
    ||| entry_stored(it, snap.kernel_modules@, ctx)
    ||| exists|j: int| 0 <= j < snap.selinux_ports@.len()
        && keeps_stored(it, (#[trigger] snap.selinux_ports@[j]).included, snap.selinux_ports@[j].locked, snap.selinux_ports@[j].aggregate, ctx)
    ||| exists|j: int| 0 <= j < snap.non_rpm@.len()
        && keeps_stored(it, (#[trigger] snap.non_rpm@[j]).included, snap.non_rpm@[j].locked, snap.non_rpm@[j].aggregate, ctx)
    ||| exists|j: int| 0 <= j < snap.unmanaged_files@.len()
        && keeps_stored(it, (#[trigger] snap.unmanaged_files@[j]).file.included, snap.unmanaged_files@[j].locked,
            snap.unmanaged_files@[j].variant.aggregate, ctx)
    ||| stored_by_some(it, snap.compose_files@, ctx)
}

/// Every item of the sequence is one that a snapshot entry stored.
pub open spec fn all_stored(items: Seq<AggregateItemView>, snap: FleetSnapshot, ctx: AggregateContext) -> bool {
    forall|m: int| 0 <= m < items.len() ==> stored_in_snapshot(#[trigger] items[m], snap, ctx)
}

proof fn lemma_all_stored_concat(a: Seq<AggregateItemView>, b: Seq<AggregateItemView>, snap: FleetSnapshot, ctx: AggregateContext)
    requires
        all_stored(a, snap, ctx),
        all_stored(b, snap, ctx),
    ensures
        all_stored(a + b, snap, ctx),
{
    assert forall|m: int| 0 <= m < (a + b).len() implies stored_in_snapshot(#[trigger] (a + b)[m], snap, ctx) by {
        if m < a.len() {
            assert((a + b)[m] == a[m]);
        } else {
            assert((a + b)[m] == b[m - a.len()]);
        }
    }
}

proof fn lemma_refs_stored(es: Seq<FleetEntry>, kind: RefKind, snap: FleetSnapshot, ctx: AggregateContext)
    requires
        forall|it: AggregateItemView| #[trigger] entry_stored(it, es, ctx) ==> stored_in_snapshot(it, snap, ctx),
    ensures
        all_stored(es.map_values(|e: FleetEntry| ref_item(e, kind, ctx)), snap, ctx),
{
    let ms = es.map_values(|e: FleetEntry| ref_item(e, kind, ctx));
    assert forall|m: int| 0 <= m < ms.len() implies stored_in_snapshot(#[trigger] ms[m], snap, ctx) by {
        assert(ms[m] == ref_item(es[m], kind, ctx));
        assert(keeps_stored(ref_item(es[m], kind, ctx), es[m].included, es[m].locked, es[m].aggregate, ctx));
        assert(entry_stored(ms[m], es, ctx));
    }
}

/// The items of a part, all stored, stay stored in the section built from them.
proof fn lemma_part_items_stored(id: Seq<char>, name: Seq<char>, dec: bool, items: Seq<AggregateItemView>, snap: FleetSnapshot, ctx: AggregateContext)
    requires
        all_stored(items, snap, ctx),
    ensures
        all_sections(opt_section(id, name, dec, items, ctx), |s: SectionView| all_stored(section_items(s), snap, ctx)),
{
    lemma_opt_section(id, name, dec, items, ctx);
    let o = opt_section(id, name, dec, items, ctx);
    assert forall|i: int| 0 <= i < o.len() implies all_stored(section_items(#[trigger] o[i]), snap, ctx) by {
        let si = section_items(o[i]);
        assert forall|k: int| 0 <= k < si.len() implies stored_in_snapshot(#[trigger] si[k], snap, ctx) by {
            assert(items.contains(si[k]));
            let m = choose|m: int| 0 <= m < items.len() && items[m] == si[k];
            assert(stored_in_snapshot(items[m], snap, ctx));
        }
    }
}

/// Every item of every reference section shows what a snapshot entry
/// stored: its include and lock flags as stored, never recomputed from
/// prevalence, its host counts clamped at zero (the fleet's host count as
/// total without prevalence data), and no zone while zones are off, in
/// which case every section lists its items flat.
pub proof fn law_reference_section_items_stored(snap: FleetSnapshot, ctx: AggregateContext)
    ensures
        forall|i: int, k: int| 0 <= i < reference_sections_spec(snap, ctx).len()
            && 0 <= k < section_items(reference_sections_spec(snap, ctx)[i]).len()
            ==> stored_in_snapshot(#[trigger] section_items(#[trigger] reference_sections_spec(snap, ctx)[i])[k], snap, ctx),
        !ctx.zones_active ==> forall|i: int| 0 <= i < reference_sections_spec(snap, ctx).len()
            ==> (#[trigger] reference_sections_spec(snap, ctx)[i]).zones is None && reference_sections_spec(snap, ctx)[i].items is Some,
{
    let p = |s: SectionView| all_stored(section_items(s), snap, ctx);
    law_reference_items_keep_stored(snap, ctx);
    law_compose_items_keep_stored(snap.compose_files@, ctx);
    lemma_lang_envs(snap.non_rpm@);
    let s = snap;
    // compose
    let c0 = grouped_items(s.compose_files@, ctx);
    assert(all_stored(c0, snap, ctx));
    lemma_part_items_stored("compose"@, "Compose Files"@, false, c0, snap, ctx);
    // network
    let cn = s.connections@.map_values(|e: FleetEntry| ref_item(e, RefKind::Connection, ctx));
    let fz = s.firewall_zones@.map_values(|e: FleetEntry| ref_item(e, RefKind::FirewallZone, ctx));
    lemma_refs_stored(s.connections@, RefKind::Connection, snap, ctx);
    lemma_refs_stored(s.firewall_zones@, RefKind::FirewallZone, snap, ctx);
    assert(all_stored(cn, snap, ctx));
    assert(all_stored(fz, snap, ctx));
    lemma_all_stored_concat(cn, fz, snap, ctx);
    lemma_part_items_stored("network"@, "Network"@, false, cn + fz, snap, ctx);
    // storage
    let fs = s.fstab@.map_values(|e: FleetEntry| ref_item(e, RefKind::Fstab, ctx));
    lemma_refs_stored(s.fstab@, RefKind::Fstab, snap, ctx);
    assert(all_stored(fs, snap, ctx));
    lemma_part_items_stored("storage"@, "Storage"@, false, fs, snap, ctx);
    // scheduled
    let cr = s.cron_jobs@.map_values(|e: FleetEntry| ref_item(e, RefKind::CronJob, ctx));
    let tm = s.timers@.map_values(|e: FleetEntry| ref_item(e, RefKind::Timer, ctx));
    lemma_refs_stored(s.cron_jobs@, RefKind::CronJob, snap, ctx);
    lemma_refs_stored(s.timers@, RefKind::Timer, snap, ctx);
    assert(all_stored(cr, snap, ctx));
    assert(all_stored(tm, snap, ctx));
    lemma_all_stored_concat(cr, tm, snap, ctx);
    lemma_part_items_stored("scheduled"@, "Scheduled Tasks"@, false, cr + tm, snap, ctx);
    // selinux
    let ps = s.selinux_ports@.map_values(|q: FleetPort| port_item(q, ctx));
    assert forall|m: int| 0 <= m < ps.len() implies stored_in_snapshot(#[trigger] ps[m], snap, ctx) by {
        assert(ps[m] == port_item(s.selinux_ports@[m], ctx));
        assert(keeps_stored(port_item(s.selinux_ports@[m], ctx), s.selinux_ports@[m].included, s.selinux_ports@[m].locked, s.selinux_ports@[m].aggregate, ctx));
    }
    lemma_part_items_stored("selinux"@, "SELinux"@, false, ps, snap, ctx);
    // kernel
    let km = s.kernel_modules@.map_values(|e: FleetEntry| ref_item(e, RefKind::KernelModule, ctx));
    lemma_refs_stored(s.kernel_modules@, RefKind::KernelModule, snap, ctx);
    assert(all_stored(km, snap, ctx));
    lemma_part_items_stored("kernel_boot"@, "Kernel & Boot"@, false, km, snap, ctx);
    // non-RPM
    let nr = s.non_rpm@.map_values(|n: FleetNonRpm| nonrpm_item(n, ctx));
    assert forall|m: int| 0 <= m < nr.len() implies stored_in_snapshot(#[trigger] nr[m], snap, ctx) by {
        assert(nr[m] == nonrpm_item(s.non_rpm@[m], ctx));
        assert(keeps_stored(nonrpm_item(s.non_rpm@[m], ctx), s.non_rpm@[m].included, s.non_rpm@[m].locked, s.non_rpm@[m].aggregate, ctx));
    }
    lemma_part_items_stored("nonrpm"@, "Non-RPM Software"@, false, nr, snap, ctx);
    // language packages
    let li = lang_items(s.non_rpm@, ctx);
    assert forall|m: int| 0 <= m < li.len() implies stored_in_snapshot(#[trigger] li[m], snap, ctx) by {
        let e = lang_envs(s.non_rpm@)[m];
        assert(keeps_stored(li[m], e.included, e.locked, e.aggregate, ctx));
        assert(is_lang_method(e.method@) && s.non_rpm@.contains(e));
        let j = choose|j: int| 0 <= j < s.non_rpm@.len() && s.non_rpm@[j] == e;
        assert(keeps_stored(li[m], s.non_rpm@[j].included, s.non_rpm@[j].locked, s.non_rpm@[j].aggregate, ctx));
    }
    lemma_part_items_stored("language_packages"@, "Language Packages"@, true, li, snap, ctx);
    // unmanaged files
    let ui = unmanaged_items(s.unmanaged_files@, ctx);
    assert forall|m: int| 0 <= m < ui.len() implies stored_in_snapshot(#[trigger] ui[m], snap, ctx) by {
        let f = s.unmanaged_files@[m];
        assert(keeps_stored(ui[m], f.file.included, f.locked, f.variant.aggregate, ctx));
    }
    lemma_part_items_stored("unmanaged_files"@, "Unmanaged Files"@, true, ui, snap, ctx);
    lemma_reference_parts(snap, ctx, p);
    let ss = reference_sections_spec(snap, ctx);
    assert forall|i: int, k: int| 0 <= i < ss.len() && 0 <= k < section_items(ss[i]).len()
        implies stored_in_snapshot(#[trigger] section_items(#[trigger] ss[i])[k], snap, ctx) by {
        assert(p(ss[i]));
    }
    if !ctx.zones_active {
        let flat_p = |sv: SectionView| sv.zones is None && sv.items is Some;
        assert forall|k: int| 0 <= k < 9 implies all_sections(#[trigger] reference_parts(snap, ctx)[k], flat_p) by {
            lemma_reference_part(snap, ctx, k);
            lemma_flat_part(snap, ctx, k);
        }
        lemma_reference_parts(snap, ctx, flat_p);
        assert forall|i: int| 0 <= i < ss.len() implies (#[trigger] ss[i]).zones is None && ss[i].items is Some by {
            assert(flat_p(ss[i]));
        }
    }
}

/// With zones off, a part's sections list their items flat.
proof fn lemma_flat_part(snap: FleetSnapshot, ctx: AggregateContext, k: int)
    requires
        0 <= k < 9,
        !ctx.zones_active,
    ensures
        forall|i: int| 0 <= i < reference_parts(snap, ctx)[k].len() ==>
            (#[trigger] reference_parts(snap, ctx)[k][i]).zones is None && reference_parts(snap, ctx)[k][i].items is Some,
{
    let pk = reference_parts(snap, ctx)[k];
    assert forall|i: int| 0 <= i < pk.len() implies (#[trigger] pk[i]).zones is None && pk[i].items is Some by {
        assert(pk.len() <= 1) by { lemma_reference_part(snap, ctx, k); }
    }
}

/// What `build_reference_sections` does to the sections it is given, as
/// its contract states it (`before` and `after` are the sections before
/// and after the call): the sections already there stay as they were;
/// every appended section holds at least one item, comes in the fixed
/// order of the reference sections (each at most once), is a decision
/// section exactly when it is the language package or unmanaged file
/// section, and shows for each item what a snapshot entry stored.
pub proof fn law_build_reference_sections(before: Seq<AggregateSection>, after: Seq<AggregateSection>, snap: FleetSnapshot, ctx: AggregateContext)
    requires
        sections_view(after) == sections_view(before) + reference_sections_spec(snap, ctx),
        extends(before, after),
    ensures
        after.len() >= before.len(),
        after.subrange(0, before.len() as int) == before,
        forall|i: int| before.len() <= i < after.len() ==> {
            let sv = #[trigger] section_view(after[i]);
            &&& section_items(sv).len() > 0
            &&& reference_rank(sv.id) < 9
            &&& (sv.is_decision_section <==> (sv.id == "language_packages"@ || sv.id == "unmanaged_files"@))
            &&& forall|k: int| 0 <= k < section_items(sv).len() ==> stored_in_snapshot(#[trigger] section_items(sv)[k], snap, ctx)
            &&& (!ctx.zones_active ==> sv.zones is None && sv.items is Some)
        },
        forall|i: int, j: int| before.len() <= i < j < after.len()
            ==> reference_rank(#[trigger] section_view(after[i]).id) < reference_rank(#[trigger] section_view(after[j]).id),
{
    let rs = reference_sections_spec(snap, ctx);
    law_reference_sections_hold_items(snap, ctx);
    law_reference_sections_order(snap, ctx);
    law_reference_section_items_stored(snap, ctx);
    let n = before.len() as int;
    assert(sections_view(after).len() == after.len());
    assert forall|i: int| n <= i < after.len() implies #[trigger] section_view(after[i]) == rs[i - n] by {
        assert(sections_view(after)[i] == section_view(after[i]));
        assert((sections_view(before) + rs)[i] == rs[i - n]);
    }
    assert forall|i: int| n <= i < after.len() implies {
        let sv = #[trigger] section_view(after[i]);
        &&& section_items(sv).len() > 0
        &&& reference_rank(sv.id) < 9
        &&& (sv.is_decision_section <==> (sv.id == "language_packages"@ || sv.id == "unmanaged_files"@))
        &&& forall|k: int| 0 <= k < section_items(sv).len() ==> stored_in_snapshot(#[trigger] section_items(sv)[k], snap, ctx)
        &&& (!ctx.zones_active ==> sv.zones is None && sv.items is Some)
    } by {
        let m = i - n;
        assert(section_view(after[i]) == rs[m]);
        assert(section_items(rs[m]).len() > 0);
        assert(reference_rank(rs[m].id) < 9);
        assert(rs[m].is_decision_section <==> (rs[m].id == "language_packages"@ || rs[m].id == "unmanaged_files"@));
        assert forall|k: int| 0 <= k < section_items(rs[m]).len() implies stored_in_snapshot(#[trigger] section_items(rs[m])[k], snap, ctx) by {
            assert(stored_in_snapshot(section_items(rs[m])[k], snap, ctx));
        }
    }
    assert forall|i: int, j: int| n <= i < j < after.len()
        implies reference_rank(#[trigger] section_view(after[i]).id) < reference_rank(#[trigger] section_view(after[j]).id) by {
        assert(section_view(after[i]) == rs[i - n]);
        assert(section_view(after[j]) == rs[j - n]);
        assert(reference_rank(rs[i - n].id) < reference_rank(rs[j - n].id));
    }
}

} // verus!
