use inspectah::screen::{RepoGroup, TriageBucket};
use inspectah::section_items::{
    build_detail_data, build_info_bar_data, build_list_items, section_raw_items, ConfigDecision, FlatpakDecision, PackageDecision, ScreenData,
    ServiceStateDecision, TunedDecision,
};
use inspectah::tui_state::TuiState;
use inspectah::tui_types::{ItemId, SectionId, TriageGroup};
use inspectah::widget::detail_view::DetailContentType;
use inspectah::web::adapter::{
    NetConnection, OmittedService, RefContainers, RefKernelBoot, RefNetwork, RefServices, RefStorage,
    RefVersionChanges, ReferenceProjection, ServiceAdvisory, VersionChange, VersionChangeDirection,
};

fn empty_network() -> RefNetwork {
    RefNetwork {
        connections: vec![],
        firewall_zones: vec![],
        firewall_direct_rules: vec![],
        static_routes: vec![],
        ip_routes: vec![],
        ip_rules: vec![],
        resolv_provenance: String::new(),
        hosts_additions: vec![],
        proxy_env: vec![],
    }
}

fn empty_data() -> ScreenData {
    ScreenData {
        packages: vec![],
        config_files: vec![],
        service_states: vec![],
        service_dropins: vec![],
        quadlets: vec![],
        flatpaks: vec![],
        sysctls: vec![],
        tuned: vec![],
        reference: ReferenceProjection {
            services: RefServices {
                divergent: vec![],
                preset_matched_with_dropins: vec![],
                preset_unknown_enabled: vec![],
                preset_unknown_disabled: vec![],
                standalone_dropins: vec![],
                omitted: vec![],
                advisories: vec![],
                warnings: vec![],
            },
            version_changes: RefVersionChanges { downgrades: vec![], upgrades: vec![], empty_reason: None },
            containers: RefContainers { quadlets: vec![], compose_files: vec![], running_containers: vec![], flatpaks: vec![] },
            network: empty_network(),
            storage: RefStorage {
                fstab_entries: vec![],
                mount_points: vec![],
                lvm_volumes: vec![],
                var_directories: vec![],
                credential_refs: vec![],
                unbacked_var_paths: vec![],
            },
            scheduled_tasks: vec![],
            non_rpm_software: vec![],
            kernel_boot: RefKernelBoot {
                tuned_active: None,
                sysctl_overrides: vec![],
                non_default_modules: vec![],
                modules_load_d: vec![],
                modprobe_d: vec![],
                dracut_conf: vec![],
                custom_tuned_profiles: vec![],
                cmdline: None,
                grub_defaults: None,
                locale: None,
                timezone: None,
                alternatives: vec![],
            },
            selinux: vec![],
        },
        repo_groups: vec![],
        ifcfg_note: "ifcfg profiles are deprecated".into(),
    }
}

fn package(name: &str, arch: &str, repo: &str, bucket: TriageBucket) -> PackageDecision {
    PackageDecision {
        name: name.into(),
        arch: arch.into(),
        version: "1.0-1".into(),
        source_repo: repo.into(),
        bucket,
        included: true,
        locked: false,
    }
}

#[test]
fn package_rows_name_arch_and_repo() {
    let mut d = empty_data();
    d.packages = vec![
        package("httpd", "x86_64", "appstream", TriageBucket::Investigate),
        package("tzdata", "noarch", "", TriageBucket::Investigate),
    ];
    let raw = section_raw_items(&d, SectionId::Packages);
    assert_eq!(raw.len(), 2);
    assert_eq!(raw[0].name, "httpd.x86_64");
    assert_eq!(raw[0].detail, "1.0-1 (appstream)");
    assert_eq!(raw[0].group, TriageGroup::Investigate);
    assert_eq!(raw[0].included, Some(true));
    assert_eq!(raw[0].item_id, Some(ItemId::Package { name: "httpd".into(), arch: "x86_64".into() }));
    assert_eq!(raw[1].name, "tzdata");
    assert_eq!(raw[1].detail, "1.0-1");
}

#[test]
fn package_list_has_repo_bar_and_groups() {
    let mut d = empty_data();
    d.packages = vec![package("httpd", "x86_64", "appstream", TriageBucket::Investigate)];
    d.repo_groups = vec![RepoGroup { section_id: "appstream".into(), enabled: true, package_count: 1 }];
    let state = TuiState::new(14);
    let list = build_list_items(&d, SectionId::Packages, &state);
    assert_eq!(list.repo_bar.as_deref(), Some("Repos: [+]appstream(1)"));
    assert_eq!(list.items.len(), 2);
    assert!(list.items[0].is_group_header);
    assert_eq!(list.items[1].name, "httpd.x86_64");
}

#[test]
fn other_sections_have_no_repo_bar() {
    let mut d = empty_data();
    d.repo_groups = vec![RepoGroup { section_id: "appstream".into(), enabled: true, package_count: 1 }];
    let state = TuiState::new(14);
    let list = build_list_items(&d, SectionId::Configs, &state);
    assert!(list.repo_bar.is_none());
    assert!(list.items.is_empty());
}

#[test]
fn config_rows_carry_category_and_content() {
    let mut d = empty_data();
    d.config_files = vec![ConfigDecision {
        path: "/etc/ssh/sshd_config".into(),
        category: "Modified".into(),
        kind: "Rpm".into(),
        rpm_diff: Some("--- a\n+++ b\n".into()),
        content: String::new(),
        bucket: TriageBucket::Site,
        included: false,
        locked: true,
        attention_reason: Some("review".into()),
    }];
    let raw = section_raw_items(&d, SectionId::Configs);
    assert_eq!(raw[0].detail, "Modified");
    assert!(raw[0].has_content);
    assert!(raw[0].locked);
    assert_eq!(raw[0].lock_reason.as_deref(), Some("review"));
    assert_eq!(raw[0].group, TriageGroup::Site);
}

#[test]
fn service_rows_decisions_then_reference() {
    let mut d = empty_data();
    d.service_states = vec![ServiceStateDecision {
        unit: "httpd.service".into(),
        state: "Enabled".into(),
        bucket: TriageBucket::Site,
        included: true,
        locked: false,
        attention_reason: None,
    }];
    d.reference.services.omitted = vec![OmittedService { unit: "foo.service".into(), reason: "package absent".into(), package: "foo".into() }];
    d.reference.services.advisories = vec![ServiceAdvisory {
        unit: "sshd.service".into(),
        owning_package: "openssh-server".into(),
        reasons: vec![],
    }];
    let raw = section_raw_items(&d, SectionId::Services);
    assert_eq!(raw.len(), 3);
    assert_eq!(raw[0].item_id, Some(ItemId::Service { unit: "httpd.service".into() }));
    assert_eq!(raw[1].detail, "omitted: package absent");
    assert_eq!(raw[1].group, TriageGroup::Baseline);
    assert!(raw[2].is_advisory);
    assert_eq!(raw[2].detail, "advisory (openssh-server)");
    assert_eq!(raw[2].advisory_rationale.as_deref(), Some("Full-shadow service owned by openssh-server"));
}

#[test]
fn flatpak_and_tuned_rows() {
    let mut d = empty_data();
    d.flatpaks = vec![FlatpakDecision {
        app_id: "org.gnome.Calculator".into(),
        origin: "flathub".into(),
        branch: "stable".into(),
        remote: "flathub".into(),
        bucket: TriageBucket::Site,
        included: true,
        locked: false,
    }];
    d.tuned = vec![TunedDecision {
        active_profile: "throughput-performance".into(),
        custom_profiles: vec!["mine".into(), "yours".into()],
        bucket: TriageBucket::Site,
        included: true,
    }];
    let c = section_raw_items(&d, SectionId::Containers);
    assert_eq!(c[0].detail, "flathub/stable");
    let t = section_raw_items(&d, SectionId::Tuned);
    assert_eq!(t[0].detail, "custom: mine, yours");
    d.tuned[0].custom_profiles.clear();
    let t = section_raw_items(&d, SectionId::Tuned);
    assert_eq!(t[0].detail, "standard profile");
}

#[test]
fn version_changes_split_by_direction() {
    let mut d = empty_data();
    let change = |name: &str| VersionChange {
        name: name.into(),
        arch: "x86_64".into(),
        host_version: "2.0".into(),
        base_version: "1.0".into(),
        host_epoch: "0".into(),
        base_epoch: "0".into(),
        direction: VersionChangeDirection::Downgrade,
    };
    d.reference.version_changes.downgrades = vec![change("bash")];
    d.reference.version_changes.upgrades = vec![change("zsh")];
    let raw = section_raw_items(&d, SectionId::VerChanges);
    assert_eq!(raw[0].name, "bash.x86_64");
    assert_eq!(raw[0].detail, "2.0 -> 1.0 (downgrade)");
    assert_eq!(raw[0].group, TriageGroup::Investigate);
    assert_eq!(raw[1].detail, "2.0 -> 1.0 (upgrade)");
    assert_eq!(raw[1].group, TriageGroup::Site);
}

#[test]
fn ifcfg_connection_adds_advisory() {
    let mut d = empty_data();
    d.reference.network.connections = vec![NetConnection {
        name: "eth0".into(),
        conn_type: "ethernet".into(),
        method: "auto".into(),
        path: "/etc/sysconfig/network-scripts/ifcfg-eth0".into(),
    }];
    let raw = section_raw_items(&d, SectionId::Network);
    assert_eq!(raw.len(), 2);
    assert_eq!(raw[0].detail, "ethernet (auto)");
    assert!(raw[1].is_advisory);
    assert_eq!(raw[1].name, "ifcfg deprecation");
    assert_eq!(raw[1].detail, "ifcfg profiles are deprecated");
    assert!(raw[1].advisory_rationale.as_ref().unwrap().contains("deprecated in RHEL 9"));
    d.reference.network.connections[0].path = "/etc/NetworkManager/system-connections/eth0.nmconnection".into();
    assert_eq!(section_raw_items(&d, SectionId::Network).len(), 1);
}

#[test]
fn unbacked_var_paths_advisory() {
    let mut d = empty_data();
    d.reference.storage.unbacked_var_paths = vec!["/var/lib/a".into(), "/var/lib/b".into()];
    let raw = section_raw_items(&d, SectionId::Storage);
    assert_eq!(raw.len(), 1);
    assert!(raw[0].is_advisory);
    assert_eq!(raw[0].name, "2 unbacked /var dir(s) \u{2014} no tmpfiles.d or systemd backing");
    assert_eq!(raw[0].detail, "/var/lib/a, /var/lib/b");
}

#[test]
fn kernel_boot_settings_in_order() {
    let mut d = empty_data();
    d.reference.kernel_boot.cmdline = Some("quiet".into());
    d.reference.kernel_boot.timezone = Some("UTC".into());
    let raw = section_raw_items(&d, SectionId::KernelBoot);
    assert_eq!(raw.len(), 2);
    assert_eq!(raw[0].name, "cmdline");
    assert!(raw[0].has_content);
    assert_eq!(raw[1].name, "timezone");
    assert!(!raw[1].has_content);
}

#[test]
fn users_section_lists_nothing() {
    let d = empty_data();
    assert!(section_raw_items(&d, SectionId::Users).is_empty());
}

#[test]
fn info_bar_for_package_row() {
    let mut d = empty_data();
    d.packages = vec![package("httpd", "x86_64", "", TriageBucket::Investigate)];
    let mut state = TuiState::new(14);
    let list = build_list_items(&d, SectionId::Packages, &state);
    assert!(build_info_bar_data(&d, &state, &list.items).is_none(), "header row has no info bar");
    state.cursor = 1;
    let bar = build_info_bar_data(&d, &state, &list.items).expect("info bar");
    assert_eq!(bar.name, "httpd.x86_64");
    assert_eq!(
        bar.fields,
        vec![
            ("Version".to_string(), "1.0-1".to_string()),
            ("Repo".to_string(), "unknown".to_string()),
            ("Triage".to_string(), "Investigate".to_string()),
        ]
    );
    state.cursor = 5;
    assert!(build_info_bar_data(&d, &state, &list.items).is_none());
}

#[test]
fn detail_for_config_shows_diff() {
    let mut d = empty_data();
    d.config_files = vec![ConfigDecision {
        path: "/etc/app.conf".into(),
        category: "Modified".into(),
        kind: "Rpm".into(),
        rpm_diff: Some("+new\n-old".into()),
        content: "new".into(),
        bucket: TriageBucket::Investigate,
        included: true,
        locked: false,
        attention_reason: None,
    }];
    let mut state = TuiState::new(14);
    state.active_section = 2;
    state.cursor = 1;
    let list = build_list_items(&d, SectionId::Configs, &state);
    let detail = build_detail_data(&d, &state, &list.items).expect("detail");
    assert_eq!(detail.title, "/etc/app.conf");
    assert_eq!(detail.content, "+new\n-old");
    assert_eq!(detail.content_type, DetailContentType::Diff);
    assert_eq!(detail.included, Some(true));
    assert_eq!(detail.position, "1 of 1");
    let bar = build_info_bar_data(&d, &state, &list.items).expect("info bar");
    assert_eq!(bar.fields[0], ("Kind".to_string(), "Rpm".to_string()));
}

#[test]
fn detail_for_package_and_reference_rows() {
    let mut d = empty_data();
    d.packages = vec![package("httpd", "x86_64", "appstream", TriageBucket::Investigate)];
    let mut state = TuiState::new(14);
    state.cursor = 1;
    let list = build_list_items(&d, SectionId::Packages, &state);
    let detail = build_detail_data(&d, &state, &list.items).expect("detail");
    assert_eq!(
        detail.content,
        "Name: httpd\nVersion: 1.0-1\nArch: x86_64\nRepo: appstream\nTriage: Investigate\nInclude: true"
    );
    d.reference.kernel_boot.locale = Some("en_US.UTF-8".into());
    state.active_section = 5;
    let list = build_list_items(&d, SectionId::KernelBoot, &state);
    let detail = build_detail_data(&d, &state, &list.items).expect("detail");
    assert_eq!(detail.content, "Detail: en_US.UTF-8");
    assert_eq!(detail.included, None);
}

#[test]
fn detail_for_advisory_row() {
    let mut d = empty_data();
    d.reference.storage.unbacked_var_paths = vec!["/var/lib/x".into()];
    let mut state = TuiState::new(14);
    state.active_section = 12;
    state.cursor = 1;
    let list = build_list_items(&d, SectionId::Storage, &state);
    let detail = build_detail_data(&d, &state, &list.items).expect("detail");
    assert_eq!(detail.content_type, DetailContentType::Advisory);
    assert!(detail.content.starts_with("Advisory: 1 unbacked /var dir(s)"));
    assert!(detail.content.contains("Rationale:\nUnbacked /var dir(s)"));
    assert_eq!(detail.position, "1 of 1");
}
