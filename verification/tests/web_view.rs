use inspectah::web::view::{
    build_group_info, build_language_packages, build_package_groups, build_package_provenances, build_web_view, file_type_str,
    group_unmanaged_files, str_lt, DegradationReason, FileProvenance, FileType, GroupRenderState, InstalledGroup,
    NonRpmItem, ProjectedPackage, UnmanagedFile, ViewPackage, WebViewData,
};
use inspectah::web::adapter::{VersionChange, VersionChangeDirection};

fn empty_view_data() -> WebViewData {
    WebViewData {
        packages: vec![],
        version_changes: vec![],
        installed_groups: vec![],
        group_states: vec![],
        projected: vec![],
        non_rpm: None,
        unmanaged: None,
    }
}

fn names(list: &[&str]) -> Vec<String> {
    list.iter().map(|s| s.to_string()).collect()
}

fn added(list: &[&str]) -> Vec<ProjectedPackage> {
    list.iter().map(|s| ProjectedPackage { name: s.to_string(), locked: false }).collect()
}

#[test]
fn build_web_view_with_groups() {
    let groups = vec![InstalledGroup {
        name: "Development Tools".into(),
        members: names(&["gcc", "make"]),
        optional_installed: names(&["valgrind"]),
    }];
    let projected = added(&["gcc", "make"]);
    let infos = build_package_groups(&groups, &vec![], &projected);
    assert_eq!(infos.len(), 1, "one group");
    assert_eq!(infos[0].name, "Development Tools");
    assert_eq!(infos[0].member_count, 2);
    assert_eq!(infos[0].optional_spillover_count, 1);
    let state = infos[0].render_state.as_str();
    assert!(["renderable", "excluded", "ungrouped", "degraded"].contains(&state));
    assert_eq!(infos[0].members.len(), 2);
    assert!(infos[0].members[0].overlap_groups.is_empty());
}

#[test]
fn group_info_includes_in_base_image_and_added_count() {
    let groups = vec![InstalledGroup {
        name: "Web Server".into(),
        members: names(&["httpd", "mod_ssl", "apr", "apr-util"]),
        optional_installed: vec![],
    }];
    let projected = added(&["httpd", "mod_ssl"]);
    let infos = build_package_groups(&groups, &vec![], &projected);
    assert_eq!(infos.len(), 1);
    assert_eq!(infos[0].added_count, 2, "added_count should be 2");
    assert_eq!(infos[0].member_count, 4, "member_count should be 4");
    let members = &infos[0].members;
    assert_eq!(members.len(), 4);
    assert_eq!(members[0].name, "httpd");
    assert!(!members[0].in_base_image);
    assert_eq!(members[1].name, "mod_ssl");
    assert!(!members[1].in_base_image);
    assert_eq!(members[2].name, "apr");
    assert!(members[2].in_base_image);
    assert_eq!(members[3].name, "apr-util");
    assert!(members[3].in_base_image);
}

#[test]
fn members_sorted_by_name_within_kind_and_overlap_listed() {
    let groups = vec![
        InstalledGroup { name: "A".into(), members: names(&["zsh", "bash", "vim"]), optional_installed: vec![] },
        InstalledGroup { name: "B".into(), members: names(&["vim"]), optional_installed: vec![] },
    ];
    let projected = vec![
        ProjectedPackage { name: "zsh".into(), locked: true },
        ProjectedPackage { name: "vim".into(), locked: false },
    ];
    let info = build_group_info(&groups[0], &groups, &vec![], &projected);
    let order: Vec<&str> = info.members.iter().map(|m| m.name.as_str()).collect();
    assert_eq!(order, vec!["vim", "zsh", "bash"]);
    assert_eq!(info.locked_count, 1);
    assert_eq!(info.added_count, 2);
    assert_eq!(info.members[0].overlap_groups, vec!["B".to_string()]);
    assert!(info.members[1].locked);
    assert_eq!(info.render_state, "renderable");
    assert_eq!(info.degradation_reason, None);
}

#[test]
fn degraded_state_and_reason() {
    let groups = vec![InstalledGroup { name: "G".into(), members: names(&["a"]), optional_installed: vec![] }];
    let states = vec![("G".to_string(), GroupRenderState::Degraded { reason: DegradationReason::MultilibConflict })];
    let info = build_group_info(&groups[0], &groups, &states, &vec![]);
    assert_eq!(info.render_state, "degraded");
    assert_eq!(info.degradation_reason.as_deref(), Some("multilib_conflict"));
}

#[test]
fn provenance_prefers_optional_then_loose_groups() {
    let groups = vec![
        InstalledGroup { name: "Tools".into(), members: names(&["gcc"]), optional_installed: names(&["valgrind"]) },
        InstalledGroup { name: "Loose".into(), members: names(&["gcc", "make"]), optional_installed: vec![] },
        InstalledGroup { name: "Broken".into(), members: names(&["make", "patch"]), optional_installed: vec![] },
    ];
    let states = vec![
        ("Loose".to_string(), GroupRenderState::Ungrouped),
        ("Broken".to_string(), GroupRenderState::Degraded { reason: DegradationReason::MemberExcluded }),
    ];
    let pkgs = vec![
        ViewPackage { name: "valgrind".into(), arch: "x86_64".into() },
        ViewPackage { name: "gcc".into(), arch: "x86_64".into() },
        ViewPackage { name: "patch".into(), arch: "x86_64".into() },
        ViewPackage { name: "bash".into(), arch: "x86_64".into() },
    ];
    let p = build_package_provenances(&pkgs, &groups, &states);
    assert_eq!(p.len(), 3);
    assert_eq!(p[0].0, "valgrind.x86_64");
    assert_eq!(p[0].1.kind, "optional_spillover");
    assert_eq!(p[0].1.group_name, "Tools");
    assert_eq!(p[1].0, "gcc.x86_64");
    assert_eq!(p[1].1.kind, "ungrouped_member");
    assert_eq!(p[1].1.group_name, "Loose");
    assert_eq!(p[2].1.kind, "degraded_member");
    assert_eq!(p[2].1.group_name, "Broken");
}

#[test]
fn string_order_matches_std() {
    for (a, b) in [("apr", "apr-util"), ("apr-util", "apr"), ("a", "b"), ("", "a"), ("a", ""), ("same", "same"), ("Z", "a")] {
        assert_eq!(str_lt(a, b), a < b, "{a} < {b}");
    }
}

fn unmanaged(path: &str, ft: FileType) -> UnmanagedFile {
    UnmanagedFile {
        path: path.into(),
        size: 10,
        under_var: path.starts_with("/var"),
        included: false,
        file_type: ft,
        provenance: FileProvenance {
            last_modified: 1,
            uid: 0,
            gid: 0,
            permissions: "0644".into(),
            mutable: true,
            writable_mount: false,
            service_working_dir: false,
        },
    }
}

#[test]
fn unmanaged_files_grouped_by_sorted_parent_dir() {
    let files = vec![
        unmanaged("/opt/app/bin/run", FileType::ElfBinary),
        unmanaged("/etc/app.conf", FileType::Config),
        unmanaged("/opt/app/bin/tool", FileType::Script),
        unmanaged("/var/lib/app/data", FileType::DataFile),
    ];
    let groups = group_unmanaged_files(&files);
    let dirs: Vec<&str> = groups.iter().map(|g| g.directory.as_str()).collect();
    assert_eq!(dirs, vec!["/etc", "/opt/app/bin", "/var/lib/app"]);
    assert_eq!(groups[1].items.len(), 2);
    assert_eq!(groups[1].items[0].path, "/opt/app/bin/run");
    assert_eq!(groups[1].items[1].path, "/opt/app/bin/tool");
    assert_eq!(groups[1].items[0].provenance.file_type, "elf_binary");
    assert!(groups[2].items[0].is_var_path);
}

#[test]
fn root_path_groups_under_slash() {
    let groups = group_unmanaged_files(&vec![unmanaged("/", FileType::Other)]);
    assert_eq!(groups.len(), 1);
    assert_eq!(groups[0].directory, "/");
    assert!(group_unmanaged_files(&vec![]).is_empty());
}

#[test]
fn file_type_names() {
    assert_eq!(file_type_str(FileType::Jar), "jar");
    assert_eq!(file_type_str(FileType::Symlink), "symlink");
    assert_eq!(file_type_str(FileType::DataFile), "data_file");
}

#[test]
fn language_packages_keep_only_language_envs() {
    let items = vec![
        NonRpmItem {
            lang: "python".into(),
            path: "/opt/venv".into(),
            method: "pip".into(),
            packages: vec!["requests".into(), "flask".into()],
            confidence: "high".into(),
            manifest_files: vec!["requirements.txt".into(), "setup.py".into()],
            included: true,
        },
        NonRpmItem {
            lang: String::new(),
            path: "/usr/local/bin/tool".into(),
            method: "binary".into(),
            packages: vec![],
            confidence: "low".into(),
            manifest_files: vec![],
            included: false,
        },
    ];
    let envs = build_language_packages(&items);
    assert_eq!(envs.len(), 1);
    assert_eq!(envs[0].ecosystem, "python");
    assert_eq!(envs[0].packages, vec!["requests".to_string(), "flask".to_string()]);
    assert_eq!(envs[0].manifest_basis, "requirements.txt");
    assert!(envs[0].included);
}

#[test]
fn build_web_view_empty_snapshot() {
    let w = build_web_view(&empty_view_data());
    assert!(w.package_groups.is_empty(), "empty snapshot has no groups");
    assert!(w.version_changes.is_empty());
    assert!(w.package_provenances.is_empty());
    assert!(w.language_packages.is_empty());
    assert!(w.unmanaged_files.is_empty());
    assert!(!w.has_unmanaged_scan);
}

#[test]
fn build_web_view_with_rpm() {
    let mut d = empty_view_data();
    d.packages = vec![ViewPackage { name: "httpd".into(), arch: "x86_64".into() }];
    d.projected = added(&["httpd"]);
    d.version_changes = vec![VersionChange {
        name: "curl".into(),
        arch: "x86_64".into(),
        host_version: "8.6.0".into(),
        base_version: "8.5.0".into(),
        host_epoch: "0".into(),
        base_epoch: "0".into(),
        direction: VersionChangeDirection::Upgrade,
    }];
    let w = build_web_view(&d);
    assert_eq!(w.version_changes.len(), 1);
    assert_eq!(w.version_changes[0].direction, "upgrade");
    assert_eq!(w.version_changes[0].name, "curl");
}

#[test]
fn build_web_view_includes_language_packages() {
    let mut d = empty_view_data();
    d.non_rpm = Some(vec![NonRpmItem {
        lang: "pip".into(),
        path: "/opt/app/venv".into(),
        method: "pip-freeze".into(),
        packages: vec!["flask".into()],
        confidence: "high".into(),
        manifest_files: vec!["requirements.txt".into()],
        included: true,
    }]);
    let w = build_web_view(&d);
    assert_eq!(w.language_packages.len(), 1);
    assert_eq!(w.language_packages[0].ecosystem, "pip");
    assert_eq!(w.language_packages[0].path, "/opt/app/venv");
    assert_eq!(w.language_packages[0].packages[0], "flask");
    assert_eq!(w.language_packages[0].manifest_basis, "requirements.txt");
    assert!(w.language_packages[0].included);
    assert!(!w.has_unmanaged_scan);
}

#[test]
fn build_web_view_includes_unmanaged_files() {
    let mut d = empty_view_data();
    let mut bin = unmanaged("/opt/splunk/bin/splunkd", FileType::ElfBinary);
    bin.included = true;
    bin.size = 52428800;
    let conf = unmanaged("/opt/splunk/etc/config.ini", FileType::Config);
    d.unmanaged = Some(vec![bin, conf]);
    let w = build_web_view(&d);
    assert!(w.has_unmanaged_scan);
    assert_eq!(w.unmanaged_files.len(), 2);
    let bin_group = w.unmanaged_files.iter().find(|g| g.directory == "/opt/splunk/bin").expect("bin group");
    assert_eq!(bin_group.items.len(), 1);
    assert_eq!(bin_group.items[0].path, "/opt/splunk/bin/splunkd");
    assert_eq!(bin_group.items[0].provenance.file_type, "elf_binary");
    assert!(bin_group.items[0].included);
    let etc_group = w.unmanaged_files.iter().find(|g| g.directory == "/opt/splunk/etc").expect("etc group");
    assert_eq!(etc_group.items[0].provenance.file_type, "config");
    assert!(!etc_group.items[0].included);
}
