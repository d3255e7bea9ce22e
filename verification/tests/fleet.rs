use inspectah::screen::TriageBucket;
use inspectah::tui_types::ItemId;
use inspectah::web::aggregate::{
    build_section, build_triage_dto, default_context_triage, triage_reason_to_string, AggregateBucket, AggregateContext,
    AggregateItem, AggregatePrevalenceDto, AggregateSection, HostPrevalence, LanguagePackageDto, PrevalenceZone, RepoConflict,
    RepoSourceEntryDto, SectionMetadata, TriageKind, TriageReason, TriageTag, VariantPayload, VariantSelection,
};
use inspectah::web::fleet::{
    build_aggregate_sections, build_aggregate_summary, build_language_package_metadata, build_reference_sections, VariantDistribution,
    ConfigFileVariant, ContentVariant,
    FleetCompose, FleetConfig, FleetConfigs, FleetDropIn, FleetEntry, FleetFlatpak, FleetNonRpm, FleetPackage, FleetPort,
    FleetQuadlet, FleetService, FleetSnapshot, FleetSysctl, FleetTuned, FleetUnmanagedFile,
};
use inspectah::web::grouping::group_by_key;
use inspectah::web::view::{FileProvenance, FileType, UnmanagedFile};

fn empty_snapshot() -> FleetSnapshot {
    FleetSnapshot {
        packages: None,
        configs: None,
        services: vec![],
        dropins: vec![],
        quadlets: vec![],
        flatpaks: vec![],
        sysctls: vec![],
        tuned: vec![],
        tuned_included: false,
        compose_files: vec![],
        connections: vec![],
        firewall_zones: vec![],
        fstab: vec![],
        cron_jobs: vec![],
        timers: vec![],
        selinux_ports: vec![],
        kernel_modules: vec![],
        non_rpm: vec![],
        unmanaged_files: vec![],
    }
}

fn ctx(total_hosts: usize, zones_active: bool) -> AggregateContext {
    AggregateContext { total_hosts, zones_active, repo_conflicts: vec![] }
}

fn prevalence(count: i32, total: i32, hosts: &[&str]) -> Option<HostPrevalence> {
    Some(HostPrevalence {
        count,
        total,
        hosts: hosts.iter().map(|h| h.to_string()).collect(),
        zone: PrevalenceZone::Consensus,
    })
}

fn zoned(count: i32, total: i32, zone: PrevalenceZone) -> Option<HostPrevalence> {
    Some(HostPrevalence { count, total, hosts: vec![], zone })
}

fn tag() -> TriageTag {
    TriageTag { bucket: TriageBucket::Site, primary_reason: TriageReason::ConfigModified, triage: TriageKind::SingleHost }
}

fn entry(name: &str, included: bool, aggregate: Option<HostPrevalence>) -> FleetEntry {
    FleetEntry { name: name.to_string(), included, locked: false, attention_reason: None, aggregate }
}

fn non_rpm(name: &str, path: &str, method: &str, included: bool, aggregate: Option<HostPrevalence>) -> FleetNonRpm {
    FleetNonRpm {
        name: name.to_string(),
        path: path.to_string(),
        method: method.to_string(),
        confidence: "high".to_string(),
        packages: vec![],
        manifest_files: vec![],
        variant_hash: String::new(),
        included,
        locked: false,
        aggregate,
    }
}

fn package(name: &str, version: &str) -> LanguagePackageDto {
    LanguagePackageDto { name: name.to_string(), version: version.to_string() }
}

fn provenance() -> FileProvenance {
    FileProvenance {
        last_modified: 0,
        uid: 0,
        gid: 0,
        permissions: String::new(),
        mutable: false,
        writable_mount: false,
        service_working_dir: false,
    }
}

fn unmanaged(path: &str, size: u64, included: bool, hash: &str, aggregate: Option<HostPrevalence>) -> FleetUnmanagedFile {
    FleetUnmanagedFile {
        file: UnmanagedFile {
            path: path.to_string(),
            size,
            under_var: false,
            included,
            file_type: FileType::Other,
            provenance: provenance(),
        },
        variant: ContentVariant { content_hash: hash.to_string(), selection: VariantSelection::Only, aggregate },
        locked: false,
    }
}

fn variant(hash: &str, selection: VariantSelection, aggregate: Option<HostPrevalence>) -> ContentVariant {
    ContentVariant { content_hash: hash.to_string(), selection, aggregate }
}

fn find<'a>(sections: &'a [AggregateSection], id: &str) -> Option<&'a AggregateSection> {
    sections.iter().find(|s| s.id == id)
}

fn flat<'a>(section: &'a AggregateSection) -> &'a Vec<AggregateItem> {
    section.items.as_ref().expect("zones_active=false produces flat items list")
}

fn all_items(section: &AggregateSection) -> Vec<&AggregateItem> {
    if let Some(ref zones) = section.zones {
        zones.consensus.items.iter().chain(zones.near_consensus.items.iter()).chain(zones.divergent.items.iter()).collect()
    } else {
        section.items.as_ref().map_or(vec![], |v| v.iter().collect())
    }
}

#[test]
fn aggregate_handlers_use_stored_include_not_recomputed() {
    let mut snap = empty_snapshot();
    snap.connections = vec![entry("/etc/NetworkManager/test.nmconnection", true, prevalence(2, 5, &["host-a", "host-b"]))];
    let mut sections = Vec::new();
    build_reference_sections(&mut sections, &snap, &ctx(5, false));
    let net = find(&sections, "network").expect("network section must exist");
    let items = flat(net);
    assert_eq!(items.len(), 1);
    assert!(items[0].included, "aggregate handler must use stored include value (true), not recompute from prevalence");
}

#[test]
fn aggregate_flatpak_prevalence_plumbed() {
    let mut snap = empty_snapshot();
    snap.flatpaks = vec![FleetFlatpak {
        app_id: "org.gnome.Calculator".into(),
        remote: "flathub".into(),
        branch: "stable".into(),
        included: true,
        locked: false,
        triage: tag(),
        aggregate: prevalence(2, 3, &["host-a", "host-b"]),
    }];
    let sections = build_aggregate_sections(&snap, &ctx(3, false));
    let containers = find(&sections, "containers").expect("containers section must exist");
    let item = flat(containers)
        .iter()
        .find(|i| matches!(&i.item_id, ItemId::Flatpak { app_id, .. } if app_id == "org.gnome.Calculator"))
        .expect("flatpak item must exist");
    assert_eq!(item.prevalence.count, 2, "flatpak prevalence count must come from aggregate data, not be zero");
    assert_eq!(item.prevalence.total, 3);
}

#[test]
fn aggregate_tuned_prevalence_reflects_universality() {
    let mut snap = empty_snapshot();
    snap.tuned = vec![FleetTuned { active_profile: "my-custom-profile".into(), triage: tag() }];
    snap.tuned_included = true;
    let sections = build_aggregate_sections(&snap, &ctx(3, false));
    let items = flat(find(&sections, "tuned").expect("tuned section must exist"));
    assert_eq!(items.len(), 1);
    assert_eq!(items[0].prevalence.count, 3);
    assert_eq!(items[0].prevalence.total, 3);

    snap.tuned_included = false;
    let sections_partial = build_aggregate_sections(&snap, &ctx(3, false));
    let items_partial = flat(find(&sections_partial, "tuned").expect("tuned section must exist"));
    assert_eq!(items_partial.len(), 1);
    assert!(
        items_partial[0].prevalence.count < items_partial[0].prevalence.total,
        "non-universal tuned profile must show count < total, got {}/{}",
        items_partial[0].prevalence.count,
        items_partial[0].prevalence.total,
    );
}

#[test]
fn aggregate_language_packages_section_emitted() {
    let mut snap = empty_snapshot();
    snap.non_rpm = vec![non_rpm("myapp-venv", "/opt/myapp/venv", "venv", true, prevalence(3, 3, &["a", "b", "c"]))];
    let sections = build_aggregate_sections(&snap, &ctx(3, false));
    let section = find(&sections, "language_packages");
    assert!(section.is_some(), "language_packages section should be present");
    assert!(section.unwrap().is_decision_section);
}

#[test]
fn aggregate_language_packages_prevalence_plumbed() {
    let mut snap = empty_snapshot();
    snap.non_rpm = vec![non_rpm("myapp-venv", "/opt/myapp/venv", "venv", true, prevalence(3, 3, &["a", "b", "c"]))];
    let sections = build_aggregate_sections(&snap, &ctx(3, false));
    let items = flat(find(&sections, "language_packages").expect("language_packages section must exist"));
    assert_eq!(items[0].prevalence.count, 3);
    assert_eq!(items[0].prevalence.total, 3);
    assert!(items[0].included, "100% prevalence should preserve stored include=true");
}

#[test]
fn aggregate_language_packages_partial_prevalence() {
    let mut snap = empty_snapshot();
    snap.non_rpm = vec![non_rpm("stale-venv", "/opt/stale/venv", "pip list", false, prevalence(1, 3, &["a"]))];
    let sections = build_aggregate_sections(&snap, &ctx(3, false));
    let items = flat(find(&sections, "language_packages").expect("language_packages section must exist"));
    assert_eq!(items[0].prevalence.count, 1);
    assert_eq!(items[0].prevalence.total, 3);
    assert!(!items[0].included, "partial prevalence should preserve stored include=false");
}

#[test]
fn aggregate_language_packages_filters_non_lang_methods() {
    let mut snap = empty_snapshot();
    snap.non_rpm = vec![non_rpm("custom-binary", "/usr/local/bin/custom", "binary", true, prevalence(3, 3, &["a", "b", "c"]))];
    let sections = build_aggregate_sections(&snap, &ctx(3, false));
    assert!(
        find(&sections, "language_packages").is_none(),
        "binary-detection items should not produce a language_packages section"
    );
}

#[test]
fn aggregate_unmanaged_files_section_emitted() {
    let mut snap = empty_snapshot();
    snap.unmanaged_files = vec![unmanaged("/opt/splunk/bin/splunkd", 52_000_000, true, "", prevalence(2, 3, &["a", "b"]))];
    let sections = build_aggregate_sections(&snap, &ctx(3, true));
    let section = find(&sections, "unmanaged_files");
    assert!(section.is_some(), "unmanaged_files section should be present");
    assert!(section.unwrap().is_decision_section);
}

#[test]
fn aggregate_unmanaged_files_100_pct_includes() {
    let mut snap = empty_snapshot();
    snap.unmanaged_files = vec![unmanaged("/opt/app/server", 10_000, true, "", prevalence(2, 2, &["a", "b"]))];
    let sections = build_aggregate_sections(&snap, &ctx(2, true));
    let section = find(&sections, "unmanaged_files").expect("unmanaged_files section should exist");
    let items = all_items(section);
    assert!(!items.is_empty(), "should have at least one item");
    assert!(items[0].included, "100% prevalence should be included");
}

#[test]
fn aggregate_unmanaged_files_partial_excludes() {
    let mut snap = empty_snapshot();
    snap.unmanaged_files = vec![unmanaged("/opt/app/server", 10_000, false, "", prevalence(1, 3, &["a"]))];
    let sections = build_aggregate_sections(&snap, &ctx(3, true));
    let section = find(&sections, "unmanaged_files").expect("unmanaged_files section should exist");
    let items = all_items(section);
    assert!(!items.is_empty(), "should have at least one item");
    assert!(!items[0].included, "partial prevalence should be excluded");
}

#[test]
fn language_packages_section_metadata_populated() {
    let mut item = non_rpm("myapp-venv", "/opt/myapp/venv", "venv", true, prevalence(3, 3, &["a", "b", "c"]));
    item.packages = vec![package("flask", "2.3.0"), package("requests", "2.31.0")];
    item.manifest_files = vec!["requirements.txt".to_string()];
    let mut snap = empty_snapshot();
    snap.non_rpm = vec![item];
    let sections = build_aggregate_sections(&snap, &ctx(3, false));
    let items = flat(find(&sections, "language_packages").expect("language_packages section must exist"));
    let meta = match items[0].section_metadata.as_ref().expect("section_metadata should be populated for language packages") {
        SectionMetadata::LanguagePackages(m) => m,
        _ => panic!("language package metadata expected"),
    };
    assert_eq!(meta.ecosystem, "pip");
    assert_eq!(meta.confidence, "high");
    assert_eq!(meta.package_count, 2);
    assert_eq!(meta.manifest_basis.as_deref(), Some("requirements.txt"));
    assert_eq!(meta.packages.len(), 2);
    assert_eq!(meta.packages[0].name, "flask");
    assert_eq!(meta.packages[0].version, "2.3.0");
}

#[test]
fn unmanaged_files_section_metadata_populated() {
    let mut f = unmanaged("/var/lib/splunk/data", 52_000_000, true, "", prevalence(3, 3, &["a", "b", "c"]));
    f.file.file_type = FileType::ElfBinary;
    f.file.under_var = true;
    f.file.provenance = FileProvenance {
        last_modified: 1700000000,
        uid: 1001,
        gid: 1001,
        permissions: "0755".to_string(),
        mutable: true,
        writable_mount: true,
        service_working_dir: false,
    };
    let mut snap = empty_snapshot();
    snap.unmanaged_files = vec![f];
    let sections = build_aggregate_sections(&snap, &ctx(3, true));
    let section = find(&sections, "unmanaged_files").expect("unmanaged_files section must exist");
    let items = all_items(section);
    let meta = match items[0].section_metadata.as_ref().expect("section_metadata should be populated for unmanaged files") {
        SectionMetadata::UnmanagedFile(m) => m,
        _ => panic!("unmanaged file metadata expected"),
    };
    assert_eq!(meta.file_type, "elf_binary");
    assert_eq!(meta.size, 52_000_000);
    assert_eq!(meta.under_var, true);
    let prov = &meta.provenance;
    assert_eq!(prov.last_modified, 1700000000_u64);
    assert_eq!(prov.uid, 1001);
    assert_eq!(prov.gid, 1001);
    assert_eq!(prov.permissions, "0755");
    assert_eq!(prov.writable_mount, true);
    assert_eq!(prov.mutability, true);
    assert_eq!(prov.service_working_dir, false);
}

#[test]
fn non_metadata_sections_have_no_section_metadata() {
    let mut snap = empty_snapshot();
    snap.non_rpm = vec![non_rpm("custom-tool", "/opt/tool", "binary-detection", true, prevalence(2, 2, &["a", "b"]))];
    let sections = build_aggregate_sections(&snap, &ctx(2, false));
    let items = flat(find(&sections, "nonrpm").expect("nonrpm section must exist"));
    assert!(items[0].section_metadata.is_none(), "non-RPM software section should not have section_metadata");
    assert!(items[0].variant_payload.is_none(), "non-RPM software section should not have variant_payload");
}

#[test]
fn language_package_variant_payload_populated() {
    let mut a = non_rpm("app-venv", "/opt/app/venv", "venv", true, prevalence(2, 3, &["host-a", "host-b"]));
    a.packages = vec![package("flask", "2.3.0"), package("requests", "2.31.0")];
    a.variant_hash = "5e1c0a".to_string();
    let mut b = non_rpm("app-venv", "/opt/app/venv", "venv", true, prevalence(1, 3, &["host-c"]));
    b.packages = vec![package("flask", "2.2.5"), package("requests", "2.28.0")];
    b.variant_hash = "9b77d2".to_string();
    let mut snap = empty_snapshot();
    snap.non_rpm = vec![a, b];
    let sections = build_aggregate_sections(&snap, &ctx(3, false));
    let items = flat(find(&sections, "language_packages").expect("language_packages section must exist"));
    for item in items {
        assert!(item.variant_payload.is_some(), "variant_payload should be populated for divergent language package items");
        assert!(item.variants.is_some(), "variants should be populated for divergent language package items");
    }
    let payload = match items[0].variant_payload.as_ref().unwrap() {
        VariantPayload::LanguagePackages(p) => p,
        _ => panic!("language package payload expected"),
    };
    assert_eq!(payload.variant_packages.len(), 2, "should have 2 variant package lists");
    assert_ne!(
        payload.variant_packages[0].content_hash, payload.variant_packages[1].content_hash,
        "variant package lists with different packages must have different content hashes"
    );
    assert_eq!(payload.variant_packages[0].host_count, 2);
    assert_eq!(payload.variant_packages[1].host_count, 1);
    assert_eq!(payload.variant_packages[0].packages.len(), 2);
    assert_eq!(payload.variant_packages[1].packages.len(), 2);
}

#[test]
fn language_package_no_variant_payload_when_single() {
    let mut a = non_rpm("app-venv", "/opt/app/venv", "venv", true, prevalence(3, 3, &["a", "b", "c"]));
    a.packages = vec![package("flask", "2.3.0")];
    let mut snap = empty_snapshot();
    snap.non_rpm = vec![a];
    let sections = build_aggregate_sections(&snap, &ctx(3, false));
    let items = flat(find(&sections, "language_packages").expect("language_packages section must exist"));
    assert!(items[0].variant_payload.is_none(), "single language package should not have variant_payload");
    assert!(items[0].variants.is_none(), "single language package should not have variants");
}

#[test]
fn unmanaged_file_variant_payload_populated() {
    let mut snap = empty_snapshot();
    snap.unmanaged_files = vec![
        unmanaged("/opt/app/server", 1_000_000, true, "aaa111", prevalence(2, 3, &["host-a", "host-b"])),
        unmanaged("/opt/app/server", 1_200_000, true, "bbb222", prevalence(1, 3, &["host-c"])),
    ];
    let sections = build_aggregate_sections(&snap, &ctx(3, false));
    let items = flat(find(&sections, "unmanaged_files").expect("unmanaged_files section must exist"));
    for item in items {
        assert!(item.variant_payload.is_some(), "variant_payload should be populated for divergent unmanaged file items");
        assert!(item.variants.is_some(), "variants should be populated for divergent unmanaged file items");
    }
    let payload = match items[0].variant_payload.as_ref().unwrap() {
        VariantPayload::UnmanagedFile(p) => p,
        _ => panic!("unmanaged file payload expected"),
    };
    assert_eq!(payload.variant_metadata.len(), 2, "should have 2 variant metadata entries");
    assert_eq!(payload.variant_metadata[0].content_hash, "aaa111");
    assert_eq!(payload.variant_metadata[1].content_hash, "bbb222");
    assert_eq!(payload.variant_metadata[0].size, 1_000_000);
    assert_eq!(payload.variant_metadata[1].size, 1_200_000);
    assert_eq!(payload.variant_metadata[0].host_count, 2);
    assert_eq!(payload.variant_metadata[1].host_count, 1);
}

#[test]
fn unmanaged_file_no_variant_payload_when_single() {
    let mut snap = empty_snapshot();
    snap.unmanaged_files = vec![unmanaged("/opt/app/server", 1_000_000, true, "aaa111", prevalence(3, 3, &["a", "b", "c"]))];
    let sections = build_aggregate_sections(&snap, &ctx(3, false));
    let items = flat(find(&sections, "unmanaged_files").expect("unmanaged_files section must exist"));
    assert!(items[0].variant_payload.is_none(), "single unmanaged file should not have variant_payload");
    assert!(items[0].variants.is_none(), "single unmanaged file should not have variants");
}

#[test]
fn pip_dist_info_manifest_basis_synthesized() {
    let mut item = non_rpm("system-pip", "/usr/lib/python3.9/site-packages", "pip dist-info", true, prevalence(3, 3, &["a", "b", "c"]));
    item.confidence = "medium".to_string();
    item.packages = vec![package("setuptools", "53.0.0")];
    let mut snap = empty_snapshot();
    snap.non_rpm = vec![item];
    let sections = build_aggregate_sections(&snap, &ctx(3, false));
    let items = flat(find(&sections, "language_packages").expect("language_packages section must exist"));
    let meta = match items[0].section_metadata.as_ref().expect("section_metadata should be populated") {
        SectionMetadata::LanguagePackages(m) => m,
        _ => panic!("language package metadata expected"),
    };
    assert_eq!(
        meta.manifest_basis.as_deref(),
        Some("dist-info"),
        "pip dist-info items with empty manifest_files should get manifest_basis='dist-info'"
    );
}

// ---- further cases ----

#[test]
fn sections_come_in_fixed_order() {
    let mut snap = empty_snapshot();
    snap.packages = Some(vec![]);
    snap.configs = Some(FleetConfigs { files: vec![], refined: vec![] });
    snap.services = vec![FleetService {
        unit: "httpd.service".into(),
        included: true,
        locked: false,
        attention_reason: None,
        triage: tag(),
        aggregate: None,
    }];
    snap.fstab = vec![entry("/data", true, None)];
    snap.kernel_modules = vec![entry("vfio", true, None)];
    let sections = build_aggregate_sections(&snap, &ctx(2, false));
    let ids: Vec<&str> = sections.iter().map(|s| s.id.as_str()).collect();
    assert_eq!(ids, vec!["packages", "configs", "services", "storage", "kernel_boot"]);
    assert!(sections[0].is_decision_section);
    assert!(!sections[3].is_decision_section);
    assert_eq!(sections[3].display_name, "Storage");
}

#[test]
fn empty_snapshot_has_no_sections() {
    let sections = build_aggregate_sections(&empty_snapshot(), &ctx(3, true));
    assert!(sections.is_empty());
}

#[test]
fn package_item_carries_repo_conflict() {
    let mut snap = empty_snapshot();
    snap.packages = Some(vec![FleetPackage {
        name: "curl".into(),
        arch: "x86_64".into(),
        included: true,
        locked: true,
        source_repo: "baseos".into(),
        triage: tag(),
        aggregate: prevalence(3, 3, &["a", "b", "c"]),
    }]);
    let mut c = ctx(3, false);
    c.repo_conflicts = vec![RepoConflict {
        name_arch: "curl.x86_64".into(),
        sources: vec![
            RepoSourceEntryDto { repo: "baseos".into(), host_count: 2 },
            RepoSourceEntryDto { repo: "epel".into(), host_count: 1 },
        ],
    }];
    let sections = build_aggregate_sections(&snap, &c);
    let items = flat(&sections[0]);
    assert_eq!(items[0].item_id, ItemId::Package { name: "curl".into(), arch: "x86_64".into() });
    assert_eq!(items[0].source_repo, "baseos");
    assert!(items[0].locked);
    let conflict = items[0].repo_conflict.as_ref().expect("conflict recorded for curl.x86_64");
    assert_eq!(conflict.len(), 2);
    assert_eq!(conflict[1].repo, "epel");
    assert_eq!(conflict[1].host_count, 1);
    assert_eq!(items[0].triage.bucket, "site");
    assert_eq!(items[0].triage.reason, "config_modified");
}

fn config_file(path: &str, hash: &str, default_kind: bool, selection: VariantSelection, aggregate: Option<HostPrevalence>) -> ConfigFileVariant {
    ConfigFileVariant { path: path.into(), default_kind, variant: variant(hash, selection, aggregate) }
}

fn refined_config(path: &str, hash: &str, selection: VariantSelection) -> FleetConfig {
    FleetConfig {
        path: path.into(),
        content_hash: hash.into(),
        variant_selection: selection,
        included: true,
        locked: false,
        attention_reason: Some("differs across hosts".into()),
        triage: tag(),
        aggregate: prevalence(2, 3, &["a", "b"]),
    }
}

#[test]
fn configs_show_selected_variants_of_modified_paths() {
    let mut snap = empty_snapshot();
    snap.configs = Some(FleetConfigs {
        files: vec![
            config_file("/etc/app.conf", "h1", false, VariantSelection::Selected, prevalence(2, 3, &["a", "b"])),
            config_file("/etc/app.conf", "h2", false, VariantSelection::Alternative, prevalence(1, 3, &["c"])),
            config_file("/etc/default.conf", "h3", true, VariantSelection::Only, prevalence(3, 3, &["a", "b", "c"])),
        ],
        refined: vec![
            refined_config("/etc/app.conf", "h1", VariantSelection::Selected),
            refined_config("/etc/app.conf", "h2", VariantSelection::Alternative),
            refined_config("/etc/default.conf", "h3", VariantSelection::Only),
        ],
    });
    let sections = build_aggregate_sections(&snap, &ctx(3, false));
    let items = flat(find(&sections, "configs").expect("configs section"));
    assert_eq!(items.len(), 1);
    assert_eq!(items[0].item_id, ItemId::Config { path: "/etc/app.conf".into() });
    assert_eq!(items[0].attention_reason.as_deref(), Some("differs across hosts"));
    let v = items[0].variants.as_ref().expect("two variants");
    assert_eq!(v.count, 2);
    assert_eq!(v.selected, "h1");
    assert_eq!(v.options[0].hash, "h1");
    assert!(v.options[0].selected);
    assert!(!v.options[1].selected);
    assert_eq!(v.options[1].hosts, vec!["c".to_string()]);
    assert_eq!(v.options[1].host_count, 1);
}

fn dropin(unit: &str, path: &str, hash: &str, selection: VariantSelection, count: i32) -> FleetDropIn {
    FleetDropIn {
        unit: unit.into(),
        path: path.into(),
        variant: variant(hash, selection, prevalence(count, 3, &[])),
        included: count == 3,
        locked: false,
        attention_reason: None,
        triage: tag(),
    }
}

#[test]
fn dropins_grouped_by_unit_and_path_in_key_order() {
    let mut snap = empty_snapshot();
    snap.dropins = vec![
        dropin("sshd.service", "/etc/systemd/system/sshd.service.d/a.conf", "x1", VariantSelection::Alternative, 1),
        dropin("httpd.service", "/etc/systemd/system/httpd.service.d/limits.conf", "y1", VariantSelection::Only, 3),
        dropin("sshd.service", "/etc/systemd/system/sshd.service.d/a.conf", "x2", VariantSelection::Selected, 2),
    ];
    let sections = build_aggregate_sections(&snap, &ctx(3, false));
    let items = flat(find(&sections, "services").expect("services section"));
    assert_eq!(items.len(), 2);
    assert_eq!(items[0].item_id, ItemId::DropIn { path: "/etc/systemd/system/httpd.service.d/limits.conf".into() });
    assert!(items[0].variants.is_none());
    assert_eq!(items[1].item_id, ItemId::DropIn { path: "/etc/systemd/system/sshd.service.d/a.conf".into() });
    // Shown by the selected variant, listed in entry order.
    assert_eq!(items[1].prevalence.count, 2);
    let v = items[1].variants.as_ref().expect("variants");
    assert_eq!(v.selected, "x2");
    assert_eq!(v.options.iter().map(|o| o.hash.as_str()).collect::<Vec<_>>(), vec!["x1", "x2"]);
    assert_eq!(v.options.iter().map(|o| o.selected).collect::<Vec<_>>(), vec![false, true]);
}

#[test]
fn quadlet_without_chosen_variant_shown_by_first() {
    let q = |hash: &str, count: i32| FleetQuadlet {
        path: "/etc/containers/systemd/web.container".into(),
        variant: variant(hash, VariantSelection::Alternative, prevalence(count, 4, &[])),
        included: false,
        locked: false,
        triage: TriageTag { bucket: TriageBucket::Investigate, primary_reason: TriageReason::Custom("mixed".into()), triage: TriageKind::Aggregate(AggregateBucket::Partial) },
    };
    let mut snap = empty_snapshot();
    snap.quadlets = vec![q("q1", 3), q("q2", 1)];
    let sections = build_aggregate_sections(&snap, &ctx(4, false));
    let items = flat(find(&sections, "containers").expect("containers section"));
    assert_eq!(items.len(), 1);
    assert_eq!(items[0].prevalence.count, 3);
    assert_eq!(items[0].triage.bucket, "investigate");
    assert_eq!(items[0].triage.reason, "mixed");
    assert_eq!(items[0].triage.zone, Some(PrevalenceZone::NearConsensus));
    let v = items[0].variants.as_ref().unwrap();
    assert_eq!(v.selected, "q1");
    assert!(v.options.iter().all(|o| !o.selected));
}

fn sysctl(key: &str, runtime: &str, count: i32) -> FleetSysctl {
    FleetSysctl { key: key.into(), runtime: runtime.into(), included: count >= 2, locked: false, triage: tag(), aggregate: prevalence(count, 5, &[]) }
}

#[test]
fn sysctl_shown_by_most_prevalent_value() {
    let mut snap = empty_snapshot();
    snap.sysctls = vec![
        sysctl("vm.swappiness", "10", 2),
        sysctl("net.core.somaxconn", "4096", 5),
        sysctl("vm.swappiness", "60", 2),
        sysctl("vm.swappiness", "30", 1),
    ];
    let sections = build_aggregate_sections(&snap, &ctx(5, false));
    let section = find(&sections, "sysctls").expect("sysctls section");
    assert_eq!(section.display_name, "Kernel Parameters");
    let items = flat(section);
    assert_eq!(items.len(), 2);
    assert_eq!(items[0].item_id, ItemId::Sysctl { key: "net.core.somaxconn".into() });
    assert!(items[0].variants.is_none());
    assert_eq!(items[1].item_id, ItemId::Sysctl { key: "vm.swappiness".into() });
    let v = items[1].variants.as_ref().unwrap();
    // Equal counts: the later value wins.
    assert_eq!(v.selected, "60");
    assert_eq!(v.count, 3);
    assert_eq!(v.options.iter().map(|o| o.hash.as_str()).collect::<Vec<_>>(), vec!["10", "60", "30"]);
    assert_eq!(v.options.iter().map(|o| o.selected).collect::<Vec<_>>(), vec![false, true, false]);
}

#[test]
fn reference_items_are_context_items() {
    let mut snap = empty_snapshot();
    snap.compose_files = vec![FleetCompose {
        path: "/srv/app/compose.yml".into(),
        variant: variant("c1", VariantSelection::Only, zoned(1, 3, PrevalenceZone::Divergent)),
        included: false,
        locked: false,
    }];
    snap.selinux_ports = vec![FleetPort { protocol: "tcp".into(), port: 8080, included: true, locked: false, aggregate: None }];
    snap.timers = vec![entry("backup.timer", true, zoned(3, 3, PrevalenceZone::Consensus))];
    let mut sections = Vec::new();
    build_reference_sections(&mut sections, &snap, &ctx(3, false));
    let ids: Vec<&str> = sections.iter().map(|s| s.id.as_str()).collect();
    assert_eq!(ids, vec!["compose", "scheduled", "selinux"]);
    let port = &flat(&sections[2])[0];
    assert_eq!(port.item_id, ItemId::SelinuxPort { protocol_port: "tcp:8080".into() });
    assert_eq!(port.prevalence, AggregatePrevalenceDto { count: 0, total: 3 });
    for s in &sections {
        for it in flat(s) {
            assert_eq!(it.triage.bucket, "site");
            assert_eq!(it.triage.reason, "context_item");
            assert_eq!(it.triage.zone, None);
        }
    }
}

#[test]
fn zones_split_items_and_count_them() {
    let mut snap = empty_snapshot();
    snap.kernel_modules = vec![
        entry("a", true, zoned(3, 3, PrevalenceZone::Consensus)),
        entry("b", false, zoned(1, 3, PrevalenceZone::Divergent)),
        entry("c", true, None),
        entry("d", true, zoned(2, 3, PrevalenceZone::NearConsensus)),
        entry("e", false, zoned(1, 3, PrevalenceZone::Divergent)),
    ];
    let mut sections = Vec::new();
    build_reference_sections(&mut sections, &snap, &ctx(3, true));
    let zones = sections[0].zones.as_ref().expect("zones active");
    assert!(sections[0].items.is_none());
    let names = |items: &Vec<AggregateItem>| -> Vec<String> {
        items.iter().map(|i| match &i.item_id { ItemId::KernelModule { name } => name.clone(), _ => String::new() }).collect()
    };
    assert_eq!(names(&zones.consensus.items), vec!["a", "c"]);
    assert_eq!(names(&zones.near_consensus.items), vec!["d"]);
    assert_eq!(names(&zones.divergent.items), vec!["b", "e"]);
    assert_eq!((zones.consensus.count, zones.near_consensus.count, zones.divergent.count), (2, 1, 2));
    assert_eq!(zones.divergent.items[0].triage.zone, Some(PrevalenceZone::Divergent));
}

#[test]
fn build_section_flat_when_zones_inactive() {
    let t = default_context_triage(&None, &ctx(4, false));
    let it = AggregateItem {
        item_id: ItemId::CronJob { path: "/etc/cron.d/x".into() },
        included: true,
        locked: false,
        attention_reason: None,
        triage: t,
        prevalence: AggregatePrevalenceDto { count: 0, total: 4 },
        variants: None,
        source_repo: String::new(),
        repo_conflict: None,
        section_metadata: None,
        variant_payload: None,
    };
    let s = build_section("scheduled", "Scheduled Tasks", false, vec![it], &ctx(4, false));
    assert!(s.zones.is_none());
    assert_eq!(s.items.as_ref().unwrap().len(), 1);
}

#[test]
fn triage_names() {
    let c = ctx(3, true);
    let single = TriageTag { bucket: TriageBucket::Baseline, primary_reason: TriageReason::PackageInstallerPromotedConfig, triage: TriageKind::SingleHost };
    let t = build_triage_dto(&single, &zoned(2, 3, PrevalenceZone::NearConsensus), &c);
    assert_eq!(t.bucket, "baseline");
    assert_eq!(t.reason, "package_installer_promoted_config");
    assert_eq!(t.zone, Some(PrevalenceZone::NearConsensus));
    assert_eq!(t.prevalence, 2);
    let agg = TriageTag { bucket: TriageBucket::Site, primary_reason: TriageReason::Other("ServiceEnabled".into()), triage: TriageKind::Aggregate(AggregateBucket::Universal) };
    let t = build_triage_dto(&agg, &None, &ctx(3, false));
    assert_eq!(t.reason, "serviceenabled");
    assert_eq!(t.zone, Some(PrevalenceZone::Consensus));
    assert_eq!(t.prevalence, 0);
    assert_eq!(triage_reason_to_string(&TriageReason::Custom("Keep".into())), "Keep");
}

#[test]
fn negative_counts_shown_as_zero() {
    let mut snap = empty_snapshot();
    snap.fstab = vec![FleetEntry {
        name: "/home".into(),
        included: true,
        locked: false,
        attention_reason: Some("nfs mount".into()),
        aggregate: Some(HostPrevalence { count: -1, total: -4, hosts: vec![], zone: PrevalenceZone::Consensus }),
    }];
    let mut sections = Vec::new();
    build_reference_sections(&mut sections, &snap, &ctx(9, false));
    let it = &flat(&sections[0])[0];
    assert_eq!(it.prevalence, AggregatePrevalenceDto { count: 0, total: 0 });
    assert_eq!(it.attention_reason.as_deref(), Some("nfs mount"));
}

#[test]
fn manifest_basis_falls_back_to_smallest_name() {
    let mut item = non_rpm("web", "/srv/web", "npm lockfile", true, None);
    item.manifest_files = vec!["yarn.lock".into(), "npm-shrinkwrap.json".into()];
    let meta = build_language_package_metadata(&item);
    assert_eq!(meta.ecosystem, "npm");
    assert_eq!(meta.manifest_basis.as_deref(), Some("npm-shrinkwrap.json"));
    item.manifest_files.push("package-lock.json".into());
    assert_eq!(build_language_package_metadata(&item).manifest_basis.as_deref(), Some("package-lock.json"));
    item.manifest_files = vec![];
    assert_eq!(build_language_package_metadata(&item).manifest_basis, None);
}

#[test]
fn groups_in_key_order_with_members_in_entry_order() {
    let keys = vec![
        ("b".to_string(), String::new()),
        ("a".to_string(), "z".to_string()),
        ("b".to_string(), String::new()),
        ("a".to_string(), "y".to_string()),
    ];
    let groups = group_by_key(&keys);
    let got: Vec<(String, String, Vec<usize>)> = groups.into_iter().map(|g| (g.first, g.second, g.members)).collect();
    assert_eq!(
        got,
        vec![
            ("a".to_string(), "y".to_string(), vec![3]),
            ("a".to_string(), "z".to_string(), vec![1]),
            ("b".to_string(), String::new(), vec![0, 2]),
        ]
    );
}

#[test]
fn summary_counts_informational_variants() {
    let mut snap = empty_snapshot();
    let compose = |hash: &str, selection: VariantSelection| FleetCompose {
        path: "/srv/app/compose.yml".into(),
        variant: variant(hash, selection, prevalence(1, 2, &[])),
        included: true,
        locked: false,
    };
    snap.compose_files = vec![compose("c1", VariantSelection::Selected), compose("c2", VariantSelection::Alternative)];
    snap.dropins = vec![
        dropin("a.service", "/etc/systemd/system/a.service.d/x.conf", "d1", VariantSelection::Selected, 1),
        dropin("a.service", "/etc/systemd/system/a.service.d/x.conf", "d2", VariantSelection::Alternative, 1),
    ];
    snap.kernel_modules = vec![entry("vfio", true, None)];
    let c = ctx(2, true);
    let sections = build_aggregate_sections(&snap, &c);
    let distribution = Some(vec![VariantDistribution { path: "/etc/app.conf".into(), variant_count: 2, host_split: vec![3, 5, 1] }]);
    let s = build_aggregate_summary(&distribution, &sections, Some((Some(4), Some(5))), &c);
    assert_eq!(s.host_count, 2);
    // The drop-in's variants are in a decision section; only the compose file counts.
    assert_eq!(s.informational_variant_count, 1);
    assert_eq!(s.actionable_variant_items.len(), 1);
    let a = &s.actionable_variant_items[0];
    assert_eq!(a.item_id, ItemId::Config { path: "/etc/app.conf".into() });
    assert_eq!((a.section_id.as_str(), a.variant_count, a.max_host_spread), ("configs", 2, 5));
    assert_eq!((s.leaf_authority_hosts, s.leaf_total_hosts), (Some(4), Some(5)));
    let s = build_aggregate_summary(&None, &vec![], None, &c);
    assert!(s.actionable_variant_items.is_empty());
    assert_eq!((s.informational_variant_count, s.leaf_authority_hosts, s.leaf_total_hosts), (0, None, None));
}

#[test]
fn reference_sections_in_fixed_order_with_items() {
    let mut snap = empty_snapshot();
    snap.unmanaged_files = vec![unmanaged("/opt/app/run.sh", 10, true, "h1", prevalence(1, 2, &["a"]))];
    snap.kernel_modules = vec![entry("vfio", true, prevalence(-1, -4, &[]))];
    snap.connections = vec![entry("/etc/nm/eth0.nmconnection", false, None)];
    snap.non_rpm = vec![
        non_rpm("app", "/opt/app/venv", "venv", true, None),
        non_rpm("tool", "/usr/local/bin/tool", "binary", true, None),
    ];
    let mut sections = vec![];
    build_reference_sections(&mut sections, &snap, &ctx(4, false));
    let ids: Vec<&str> = sections.iter().map(|s| s.id.as_str()).collect();
    assert_eq!(ids, vec!["network", "kernel_boot", "nonrpm", "language_packages", "unmanaged_files"]);
    for s in &sections {
        assert!(!all_items(s).is_empty());
        assert_eq!(s.is_decision_section, s.id == "language_packages" || s.id == "unmanaged_files");
    }
    let net = flat(find(&sections, "network").unwrap());
    assert!(!net[0].included);
    assert_eq!(net[0].prevalence, AggregatePrevalenceDto { count: 0, total: 4 });
    assert_eq!(net[0].triage.zone, None);
    let kmod = flat(find(&sections, "kernel_boot").unwrap());
    assert_eq!(kmod[0].prevalence, AggregatePrevalenceDto { count: 0, total: 0 });
    let langs = flat(find(&sections, "language_packages").unwrap());
    assert_eq!(langs.len(), 1);
    assert_eq!(langs[0].item_id, ItemId::LanguageEnv { ecosystem: "pip".into(), path: "/opt/app/venv".into() });
    for it in flat(find(&sections, "nonrpm").unwrap()) {
        assert!(it.section_metadata.is_none() && it.variant_payload.is_none());
    }
}

#[test]
fn compose_item_keeps_its_representative_flags() {
    let mut snap = empty_snapshot();
    snap.compose_files = vec![
        FleetCompose {
            path: "/srv/app/compose.yml".into(),
            variant: variant("c1", VariantSelection::Alternative, prevalence(1, 3, &["a"])),
            included: true,
            locked: false,
        },
        FleetCompose {
            path: "/srv/app/compose.yml".into(),
            variant: variant("c2", VariantSelection::Selected, prevalence(2, 3, &["b", "c"])),
            included: false,
            locked: true,
        },
    ];
    let mut sections = vec![];
    build_reference_sections(&mut sections, &snap, &ctx(3, false));
    let items = flat(find(&sections, "compose").unwrap());
    assert_eq!(items.len(), 1);
    assert!(!items[0].included && items[0].locked);
    assert_eq!(items[0].prevalence, AggregatePrevalenceDto { count: 2, total: 3 });
}
