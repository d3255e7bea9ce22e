use inspectah::sections::{
    build_nav_rows, build_section_entries, nav_groups, section_order, visible_sections, NavGroupSet,
    NavRow, SectionSources, StatsCounts,
};
use inspectah::tui_types::{NavGroup, SectionEntry, SectionId};

fn empty_sources() -> SectionSources {
    SectionSources {
        packages: StatsCounts { total: 0, included: 0, excluded: 0 },
        configs: StatsCounts { total: 0, included: 0, excluded: 0 },
        service_states: vec![],
        service_dropins: vec![],
        service_references: vec![],
        quadlets: vec![],
        flatpaks: vec![],
        container_references: vec![],
        sysctls: vec![],
        tuned: vec![],
        users_groups: vec![],
        version_changes: vec![],
        kernel_boot: vec![],
        network: vec![],
        storage: vec![],
        scheduled_tasks: 0,
        non_rpm_software: 0,
        selinux: 0,
    }
}

#[test]
fn section_order_has_fourteen_entries() {
    assert_eq!(section_order().len(), 14);
}

#[test]
fn nav_groups_cover_all_sections() {
    let flat: Vec<SectionId> = nav_groups().iter().flat_map(|g| g.members()).collect();
    let order = section_order();
    assert_eq!(flat.len(), order.len(), "NAV_GROUPS must cover all sections");
    for (i, id) in flat.iter().enumerate() {
        assert_eq!(*id, order[i], "NAV_GROUPS order must match SECTION_ORDER at index {i}");
    }
}

#[test]
fn nav_rows_all_expanded() {
    let entries: Vec<SectionEntry> = section_order()
        .iter()
        .map(|&id| SectionEntry { id, count: 1, included: 0, excluded: 0 })
        .collect();
    let collapsed = NavGroupSet::new();
    let rows = build_nav_rows(&entries, &collapsed);
    assert_eq!(rows.len(), 21);
}

#[test]
fn nav_rows_collapsed_group_hides_sections() {
    let entries: Vec<SectionEntry> = section_order()
        .iter()
        .map(|&id| SectionEntry { id, count: 10, included: 3, excluded: 2 })
        .collect();
    let mut collapsed = NavGroupSet::new();
    collapsed.insert(NavGroup::SystemConfig);
    let rows = build_nav_rows(&entries, &collapsed);
    assert_eq!(rows.len(), 16);
    let sc_header = rows.iter().find(|r| {
        matches!(r, NavRow::Group { group: NavGroup::SystemConfig, .. })
    });
    assert!(sc_header.is_some());
    if let Some(NavRow::Group { collapsed, .. }) = sc_header {
        assert!(*collapsed);
    }
}

#[test]
fn config_advisories_count_toward_the_group_advisory_badge() {
    let mut src = empty_sources();
    // Two advisories and one included file: the statistics count the
    // advisories in the total but in neither decision bucket.
    src.configs = StatsCounts { total: 3, included: 1, excluded: 0 };
    let entries = build_section_entries(&src);
    let configs = entries
        .iter()
        .find(|e| e.id == SectionId::Configs)
        .expect("Configs section entry");
    assert_eq!(configs.count, 3, "advisories stay visible in the total");
    assert_eq!(configs.included, 1);
    assert_eq!(configs.excluded, 0, "an advisory is not a file the user excluded");

    let rows = build_nav_rows(&entries, &NavGroupSet::new());
    let badge = rows
        .iter()
        .find_map(|r| match r {
            NavRow::Group { group: NavGroup::SystemConfig, actionable, advisories, .. } => {
                Some((*actionable, *advisories))
            }
            _ => None,
        })
        .expect("System Config group header");
    assert_eq!(badge, (1, 2), "the group badge must read [1, 2 adv], not [3, 0 adv]");
}

#[test]
fn visible_sections_excludes_collapsed() {
    let mut collapsed = NavGroupSet::new();
    collapsed.insert(NavGroup::Services);
    let vis = visible_sections(&collapsed);
    assert_eq!(vis.len(), 11);
    let order = section_order();
    for idx in &vis {
        assert_ne!(
            order[*idx].group(),
            NavGroup::Services,
            "collapsed group sections should not be visible"
        );
    }
}

#[test]
fn section_entries_count_decisions_and_references() {
    let mut src = empty_sources();
    src.service_states = vec![true, false, true];
    src.service_dropins = vec![false];
    src.service_references = vec![2, 0, 1, 0, 0, 0, 1, 0];
    src.network = vec![1, 2, 0, 0, 0, 0, 0, 3];
    src.tuned = vec![true];
    let entries = build_section_entries(&src);
    let services = entries.iter().find(|e| e.id == SectionId::Services).unwrap();
    assert_eq!((services.count, services.included, services.excluded), (8, 2, 2));
    let network = entries.iter().find(|e| e.id == SectionId::Network).unwrap();
    assert_eq!((network.count, network.included, network.excluded), (6, 0, 0));
    let tuned = entries.iter().find(|e| e.id == SectionId::Tuned).unwrap();
    assert_eq!((tuned.count, tuned.included, tuned.excluded), (1, 1, 0));
    assert_eq!(entries.len(), 14);
}

#[test]
fn nav_rows_skip_missing_entries_and_saturate_advisories() {
    let entries = vec![SectionEntry { id: SectionId::Users, count: 1, included: 2, excluded: 1 }];
    let rows = build_nav_rows(&entries, &NavGroupSet::new());
    // 7 headers + the one section that has an entry.
    assert_eq!(rows.len(), 8);
    let identity = rows.iter().find_map(|r| match r {
        NavRow::Group { group: NavGroup::Identity, actionable, advisories, .. } => {
            Some((*actionable, *advisories))
        }
        _ => None,
    });
    assert_eq!(identity, Some((3, 0)));
}

#[test]
fn nav_group_set_insert_and_remove() {
    let mut set = NavGroupSet::new();
    assert!(set.insert(NavGroup::Network));
    assert!(!set.insert(NavGroup::Network));
    assert!(set.contains(&NavGroup::Network));
    assert!(set.remove(&NavGroup::Network));
    assert!(!set.contains(&NavGroup::Network));
}

#[test]
fn visible_sections_are_the_section_rows() {
    let order = section_order();
    let entries: Vec<SectionEntry> = order
        .iter()
        .map(|&id| SectionEntry { id, count: 4, included: 1, excluded: 1 })
        .collect();
    let mut collapsed = NavGroupSet::new();
    collapsed.insert(NavGroup::Services);
    collapsed.insert(NavGroup::Packages);
    let rows = build_nav_rows(&entries, &collapsed);
    let shown: Vec<SectionId> = rows
        .iter()
        .filter_map(|r| match r {
            NavRow::Section(e) => Some(e.id),
            _ => None,
        })
        .collect();
    let visible: Vec<SectionId> = visible_sections(&collapsed).iter().map(|&i| order[i]).collect();
    assert_eq!(shown, visible);
    assert!(!visible.contains(&SectionId::Containers));
}
