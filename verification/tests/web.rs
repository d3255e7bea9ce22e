use inspectah::web::adapter::{
    build_web_sections, format_evr_pair, typed_service_subtitle, web_containers_section, web_generic_section,
    web_kernel_boot_section, web_network_section, web_services_section, web_storage_section,
    web_version_changes_section, AdvisoryReason, ConfigSnippet, EmptyReason, FirewallZone, DirectRule, GenericRefItem,
    NetConnection, PresetDefault, ProxyEntry, QuadletUnit, RefContainers, RefKernelBoot, RefNetwork, RefService,
    RefServices, RefStorage, RefVersionChanges, ReferenceProjection, ServiceAdvisory, ServiceUnitState,
    StaticRoute, SysctlOverride, VersionChange, VersionChangeDirection, ComposeFile, ComposeService, LvmVolume,
};
use inspectah::web::web_types::{is_false, reference_section};

fn empty_network() -> RefNetwork {
    RefNetwork {
        connections: vec![],
        firewall_zones: vec![],
        firewall_direct_rules: vec![],
        static_routes: vec![],
        ip_routes: vec![],
        ip_rules: vec![],
        resolv_provenance: String::new(),
        hosts_additions: vec![],
        proxy_env: vec![],
    }
}

fn empty_kernel() -> RefKernelBoot {
    RefKernelBoot {
        tuned_active: None,
        sysctl_overrides: vec![],
        non_default_modules: vec![],
        modules_load_d: vec![],
        modprobe_d: vec![],
        dracut_conf: vec![],
        custom_tuned_profiles: vec![],
        cmdline: None,
        grub_defaults: None,
        locale: None,
        timezone: None,
        alternatives: vec![],
    }
}

fn empty_projection() -> ReferenceProjection {
    ReferenceProjection {
        services: RefServices {
            divergent: vec![],
            preset_matched_with_dropins: vec![],
            preset_unknown_enabled: vec![],
            preset_unknown_disabled: vec![],
            standalone_dropins: vec![],
            omitted: vec![],
            advisories: vec![],
            warnings: vec![],
        },
        version_changes: RefVersionChanges { downgrades: vec![], upgrades: vec![], empty_reason: None },
        containers: RefContainers { quadlets: vec![], compose_files: vec![], running_containers: vec![], flatpaks: vec![] },
        network: empty_network(),
        storage: RefStorage {
            fstab_entries: vec![],
            mount_points: vec![],
            lvm_volumes: vec![],
            var_directories: vec![],
            credential_refs: vec![],
            unbacked_var_paths: vec![],
        },
        scheduled_tasks: vec![],
        non_rpm_software: vec![],
        kernel_boot: empty_kernel(),
        selinux: vec![],
    }
}

#[test]
fn build_web_sections_returns_9_sections_in_order() {
    let sections = build_web_sections(&empty_projection());
    assert_eq!(sections.len(), 9, "must return exactly 9 sections");
    let expected_ids = [
        "services",
        "version_changes",
        "containers",
        "network",
        "storage",
        "scheduled_tasks",
        "non_rpm_software",
        "kernel_boot",
        "selinux",
    ];
    let actual_ids: Vec<&str> = sections.iter().map(|s| s.id.as_str()).collect();
    assert_eq!(actual_ids, expected_ids, "section ids must match canonical order");
}

#[test]
fn build_web_sections_display_names() {
    let sections = build_web_sections(&empty_projection());
    let expected_names = [
        "Services",
        "Version Changes",
        "Containers",
        "Network",
        "Storage",
        "Scheduled Tasks",
        "Non-RPM Software",
        "Kernel & Boot",
        "Security & Access Control",
    ];
    let actual_names: Vec<&str> = sections.iter().map(|s| s.display_name.as_str()).collect();
    assert_eq!(actual_names, expected_names);
}

#[test]
fn web_network_section_groups_into_subsections() {
    let data = RefNetwork {
        connections: vec![NetConnection {
            name: "eth0".into(),
            conn_type: "ethernet".into(),
            method: "auto".into(),
            path: "/etc/NetworkManager/system-connections/eth0.nmconnection".into(),
        }],
        firewall_zones: vec![FirewallZone {
            name: "public".into(),
            path: "/etc/firewalld/zones/public.xml".into(),
            content: "<zone>...</zone>".into(),
            services: vec!["ssh".into()],
            ports: vec!["8080/tcp".into()],
            rich_rules: vec![],
        }],
        firewall_direct_rules: vec![DirectRule {
            ipv: "ipv4".into(),
            table: "filter".into(),
            chain: "INPUT".into(),
            priority: "0".into(),
            args: "-p tcp --dport 443 -j ACCEPT".into(),
        }],
        static_routes: vec![StaticRoute { path: "/etc/sysconfig/network-scripts/route-eth0".into(), name: "route-eth0".into() }],
        ip_routes: vec!["10.0.0.0/8 via 10.0.0.1".into()],
        ip_rules: vec!["from 10.0.0.0/8 lookup 100".into()],
        resolv_provenance: "NetworkManager".into(),
        hosts_additions: vec!["10.0.0.5 db.local".into()],
        proxy_env: vec![ProxyEntry { source: "/etc/environment".into(), line: "http_proxy=http://proxy:3128".into() }],
    };
    let section = web_network_section(&data);
    assert!(section.items.is_empty(), "top-level items must be empty");
    assert_eq!(section.subsections.len(), 5);
    assert_eq!(section.subsections[0].id, "connections");
    assert_eq!(section.subsections[0].display_name, "Connections");
    assert_eq!(section.subsections[0].items.len(), 1);
    assert_eq!(section.subsections[0].items[0].title, "eth0");
    assert!(section.subsections[0].items[0].subtitle.as_deref().unwrap().contains("ethernet"));
    assert_eq!(section.subsections[1].id, "firewall");
    assert_eq!(section.subsections[1].items.len(), 2);
    assert!(section.subsections[1].items[0].detail.is_some());
    assert_eq!(section.subsections[1].items[0].subtitle.as_deref(), Some("services: ssh; ports: 8080/tcp"));
    assert_eq!(section.subsections[1].items[1].id, "ipv4:INPUT:0");
    assert_eq!(section.subsections[2].id, "routes_rules");
    assert_eq!(section.subsections[2].display_name, "Routes & Rules");
    assert_eq!(section.subsections[2].items.len(), 3);
    assert!(section.subsections[2].items.iter().any(|i| i.subtitle.as_deref() == Some("ip route")));
    assert_eq!(section.subsections[3].id, "dns_hosts");
    assert_eq!(section.subsections[3].items.len(), 2);
    assert_eq!(section.subsections[4].id, "proxy");
    assert_eq!(section.subsections[4].items.len(), 1);
    assert_eq!(section.subsections[4].items[0].id, "/etc/environment:http_proxy=http://proxy:3128");
}

#[test]
fn web_network_section_omits_empty_subsections() {
    let mut data = empty_network();
    data.connections = vec![NetConnection { name: "eth0".into(), conn_type: "ethernet".into(), method: "auto".into(), path: "/path".into() }];
    let section = web_network_section(&data);
    assert_eq!(section.subsections.len(), 1);
    assert_eq!(section.subsections[0].id, "connections");
}

#[test]
fn web_kernel_boot_section_splits_customizations_and_defaults() {
    let mut data = empty_kernel();
    data.tuned_active = Some("throughput-performance".into());
    data.sysctl_overrides = vec![SysctlOverride {
        key: "vm.swappiness".into(),
        runtime: "10".into(),
        default: "60".into(),
        source: "/etc/sysctl.d/99-custom.conf".into(),
    }];
    data.cmdline = Some("BOOT_IMAGE=/vmlinuz-5.14.0 root=/dev/mapper/rhel-root".into());
    data.locale = Some("en_US.UTF-8".into());
    let section = web_kernel_boot_section(&data);
    assert!(section.items.is_empty(), "top-level items must be empty");
    assert_eq!(section.subsections.len(), 2);
    assert_eq!(section.subsections[0].id, "customizations");
    assert_eq!(section.subsections[0].display_name, "Customizations");
    assert!(section.subsections[0].items.iter().any(|i| i.title == "Active tuned profile"));
    assert!(section.subsections[0].items.iter().any(|i| i.title == "vm.swappiness"));
    assert_eq!(section.subsections[0].items[1].subtitle.as_deref(), Some("\"10\" (default: \"60\")"));
    assert_eq!(section.subsections[1].id, "defaults_context");
    assert_eq!(section.subsections[1].display_name, "Defaults / Context");
    assert!(section.subsections[1].items.iter().any(|i| i.title == "Kernel cmdline"));
    assert!(section.subsections[1].items.iter().any(|i| i.title == "Locale"));
}

#[test]
fn web_kernel_boot_section_omits_empty_customizations() {
    let mut data = empty_kernel();
    data.cmdline = Some("BOOT_IMAGE=...".into());
    data.locale = Some("en_US.UTF-8".into());
    let section = web_kernel_boot_section(&data);
    assert_eq!(section.subsections.len(), 1, "only non-empty subsections");
    assert_eq!(section.subsections[0].id, "defaults_context");
}

#[test]
fn long_cmdline_is_cut_in_the_subtitle() {
    let mut data = empty_kernel();
    let cmd = "x".repeat(100);
    data.cmdline = Some(cmd.clone());
    data.modprobe_d = vec![ConfigSnippet { path: "/etc/modprobe.d/blacklist.conf".into(), content: "blacklist nouveau".into() }];
    let section = web_kernel_boot_section(&data);
    let item = &section.subsections[1].items[0];
    assert_eq!(item.subtitle.as_deref(), Some(format!("{}...", "x".repeat(77)).as_str()));
    assert_eq!(item.detail.as_deref(), Some(cmd.as_str()));
    let snippet = &section.subsections[0].items[0];
    assert_eq!(snippet.title, "blacklist.conf");
    assert_eq!(snippet.subtitle.as_deref(), Some("modprobe.d"));
}

#[test]
fn evr_pairs_show_epochs_only_when_needed() {
    assert_eq!(format_evr_pair("", "1.0", "0", "1.1"), ("1.0".to_string(), "1.1".to_string()));
    assert_eq!(format_evr_pair("1", "1.0", "", "1.1"), ("1:1.0".to_string(), "0:1.1".to_string()));
    assert_eq!(format_evr_pair("2", "1.0", "2", "1.1"), ("1.0".to_string(), "1.1".to_string()));
    assert_eq!(format_evr_pair("", "1.0", "1", "2.0"), ("0:1.0".to_string(), "1:2.0".to_string()));
}

fn vc(name: &str, direction: VersionChangeDirection) -> VersionChange {
    VersionChange {
        name: name.into(),
        arch: "x86_64".into(),
        host_version: "2.0".into(),
        base_version: "1.0".into(),
        host_epoch: String::new(),
        base_epoch: String::new(),
        direction,
    }
}

#[test]
fn version_changes_list_downgrades_first() {
    let data = RefVersionChanges {
        downgrades: vec![vc("openssl", VersionChangeDirection::Downgrade)],
        upgrades: vec![vc("bash", VersionChangeDirection::Upgrade)],
        empty_reason: None,
    };
    let section = web_version_changes_section(&data);
    assert_eq!(section.items.len(), 2);
    assert_eq!(section.items[0].title, "\u{25BC} openssl.x86_64");
    assert_eq!(section.items[0].subtitle.as_deref(), Some("2.0 \u{2192} 1.0 (downgrade)"));
    assert_eq!(section.items[1].title, "bash.x86_64");
    assert_eq!(section.items[1].searchable_text, "bash x86_64 upgrade");
}

#[test]
fn version_changes_report_why_empty() {
    let data = RefVersionChanges { downgrades: vec![], upgrades: vec![], empty_reason: Some(EmptyReason::ZeroDrift) };
    let section = web_version_changes_section(&data);
    assert!(section.items.is_empty());
    assert_eq!(section.empty_reason.as_deref(), Some("zero_drift"));
}

#[test]
fn service_subtitles() {
    assert_eq!(typed_service_subtitle(ServiceUnitState::Enabled, Some(PresetDefault::Disable)), "enabled (diverges from preset: disable)");
    assert_eq!(typed_service_subtitle(ServiceUnitState::Masked, None), "masked (no preset rule)");
    assert_eq!(typed_service_subtitle(ServiceUnitState::Enabled, Some(PresetDefault::Enable)), "enabled (diverges from preset: enable)");
    assert_eq!(typed_service_subtitle(ServiceUnitState::Disabled, None), "disabled (no preset rule)");
}

#[test]
fn services_section_items_and_subsections() {
    let mut p = empty_projection();
    p.services.divergent = vec![RefService {
        unit: "httpd.service".into(),
        current_state: ServiceUnitState::Enabled,
        default_state: Some(PresetDefault::Disable),
        dropin_contents: vec!["[Service]\nA=1".into(), "[Service]\nB=2".into()],
        owning_package: Some("httpd".into()),
    }];
    p.services.advisories = vec![ServiceAdvisory {
        unit: "sshd.service".into(),
        owning_package: "openssh-server".into(),
        reasons: vec![AdvisoryReason::PackageExcluded, AdvisoryReason::BaselineUnavailable],
    }];
    let s = web_services_section(&p.services);
    assert_eq!(s.items.len(), 1);
    assert_eq!(s.items[0].detail.as_deref(), Some("[Service]\nA=1\n---\n[Service]\nB=2"));
    assert_eq!(s.items[0].searchable_text, "httpd.service enabled disable enable httpd");
    assert_eq!(s.subsections.len(), 1);
    assert_eq!(s.subsections[0].id, "service_advisories");
    assert_eq!(
        s.subsections[0].items[0].subtitle.as_deref(),
        Some("package 'openssh-server': package excluded; baseline unavailable")
    );
}

#[test]
fn containers_section_items() {
    let data = RefContainers {
        quadlets: vec![QuadletUnit {
            name: "web".into(),
            image: "nginx:latest".into(),
            path: "/etc/containers/systemd/web.container".into(),
            ports: vec!["8080:80".into()],
            volumes: vec![],
            content: "[Container]".into(),
        }],
        compose_files: vec![ComposeFile {
            path: "/srv/app/compose.yml".into(),
            services: vec![
                ComposeService { service: "db".into(), image: "postgres".into() },
                ComposeService { service: "api".into(), image: String::new() },
            ],
        }],
        running_containers: vec![],
        flatpaks: vec![],
    };
    let s = web_containers_section(&data);
    assert_eq!(s.items[0].searchable_text, "web nginx:latest /etc/containers/systemd/web.container 8080:80");
    assert_eq!(s.items[1].title, "compose.yml");
    assert_eq!(s.items[1].subtitle.as_deref(), Some("db, api"));
    assert_eq!(s.items[1].searchable_text, "/srv/app/compose.yml db api postgres");
}

#[test]
fn storage_and_generic_sections() {
    let data = RefStorage {
        fstab_entries: vec![],
        mount_points: vec![],
        lvm_volumes: vec![LvmVolume { vg_name: "rhel".into(), lv_name: "root".into(), lv_size: "50G".into() }],
        var_directories: vec![],
        credential_refs: vec![],
        unbacked_var_paths: vec![],
    };
    let s = web_storage_section(&data);
    assert_eq!(s.items[0].id, "rhel/root");
    assert_eq!(s.items[0].subtitle.as_deref(), Some("VG: rhel, size: 50G"));
    let items = vec![GenericRefItem {
        id: "cron-1".into(),
        key: "backup".into(),
        summary: Some("daily".into()),
        content: None,
        tags: vec!["cron".into(), "root".into()],
    }];
    let g = web_generic_section("scheduled_tasks", "Scheduled Tasks", &items);
    assert_eq!(g.items[0].searchable_text, "backup daily cron root");
    assert!(!g.has_ifcfg);
}

#[test]
fn reference_section_defaults() {
    let s = reference_section("x", "X", vec![]);
    assert!(s.subsections.is_empty());
    assert!(s.empty_reason.is_none());
    assert!(is_false(&s.has_ifcfg));
    assert!(!is_false(&true));
}
