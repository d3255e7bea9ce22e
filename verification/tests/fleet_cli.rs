use inspectah::cli::fleet::{
    check_inputs, check_strict, collect_fleet_warnings, fleet_summary_lines, FleetSummary, FleetWarning, UnparseableFile,
};

#[test]
fn inputs_must_yield_snapshots() {
    assert_eq!(check_inputs(0, 0, 0), Err("no tarball files found".to_string()));
    assert_eq!(check_inputs(3, 0, 3), Err("no valid snapshots found (3 file(s) could not be parsed)".to_string()));
    assert_eq!(check_inputs(3, 2, 1), Ok(()));
}

#[test]
fn warnings_then_unparseable_files() {
    let ws = vec![FleetWarning::MinorVersionSpread { versions: vec!["9.2".into(), "9.4".into()] }];
    let us = vec![UnparseableFile { path: "/scans/bad.tar.gz".into(), reason: "not a gzip stream".into() }];
    assert_eq!(
        collect_fleet_warnings(&ws, &us),
        vec!["minor version spread: 9.2, 9.4".to_string(), "unparseable file: /scans/bad.tar.gz (not a gzip stream)".to_string()]
    );
}

#[test]
fn strict_refuses_warnings() {
    assert_eq!(check_strict(true, 2), Err("aborting due to --strict: 2 warning(s)".to_string()));
    assert_eq!(check_strict(true, 0), Ok(()));
    assert_eq!(check_strict(false, 5), Ok(()));
}

fn summary() -> FleetSummary {
    FleetSummary {
        label: "web".into(),
        host_count: 3,
        packages: 412,
        config_files: 37,
        services: 9,
        hostnames: vec!["web-1".into(), "web-2".into(), "web-3".into()],
        section_host_counts: vec![("rpm".into(), 3), ("config".into(), 2)],
        output: "fleet-web-20260101.tar.gz".into(),
    }
}

#[test]
fn summary_lines_brief() {
    assert_eq!(
        fleet_summary_lines(&summary(), false),
        vec![
            "Fleet: web (3 hosts)".to_string(),
            "Merged: 412 packages, 37 config files, 9 services".to_string(),
            "Output: fleet-web-20260101.tar.gz".to_string(),
        ]
    );
}

#[test]
fn summary_lines_verbose() {
    let lines = fleet_summary_lines(&summary(), true);
    assert_eq!(
        lines,
        vec![
            "Fleet: web (3 hosts)",
            "Merged: 412 packages, 37 config files, 9 services",
            "Hosts:",
            "  - web-1",
            "  - web-2",
            "  - web-3",
            "Section coverage:",
            "  rpm: 3/3 hosts",
            "  config: 2/3 hosts",
            "Output: fleet-web-20260101.tar.gz",
        ]
    );
    let mut s = summary();
    s.section_host_counts = vec![];
    let lines = fleet_summary_lines(&s, true);
    assert!(!lines.iter().any(|l| l == "Section coverage:"));
}
