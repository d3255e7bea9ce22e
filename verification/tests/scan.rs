use inspectah::cli::fleet::{
    format_validation_errors, FleetValidationError,
    format_warning, input_mode, is_tarball_name, run_fleet, FleetAggregateArgs, FleetArgs, FleetInitArgs,
    FleetSubcommand, FleetWarning, InputMode,
};
use inspectah::cli::refine::{resume_choice, ResumeChoice};
use inspectah::cli::scan::{
    build_summary_counts, check_export_allowed, check_scan_flags, root_refusal, sensitive_export_notice, completion_lines, hostname_from_output, parse_os_release, Completeness,
    ScanArgs, ScanOutcome, SummaryCounts,
};

#[test]
fn test_parse_os_release() {
    let content = r#"NAME="Red Hat Enterprise Linux"
VERSION_ID="9.4"
ID=rhel
ID_LIKE="fedora"
PRETTY_NAME="Red Hat Enterprise Linux 9.4 (Plow)"
VERSION="9.4 (Plow)"
VARIANT_ID="workstation"
"#;
    let os = parse_os_release(content);
    assert_eq!(os.name, "Red Hat Enterprise Linux");
    assert_eq!(os.version_id, "9.4");
    assert_eq!(os.id, "rhel");
    assert_eq!(os.id_like, "fedora");
    assert_eq!(os.pretty_name, "Red Hat Enterprise Linux 9.4 (Plow)");
    assert_eq!(os.variant_id, "workstation");
    assert_eq!(os.version, "9.4 (Plow)");
}

#[test]
fn test_parse_os_release_minimal() {
    let content = "ID=fedora\nVERSION_ID=40\n";
    let os = parse_os_release(content);
    assert_eq!(os.id, "fedora");
    assert_eq!(os.version_id, "40");
    assert_eq!(os.name, "");
}

#[test]
fn parse_os_release_later_lines_win_and_junk_is_ignored() {
    let os = parse_os_release("ID=a\n  ID = \"b\"\nnot a pair\nID=c\nFOO=bar");
    assert_eq!(os.id, "c");
    let os = parse_os_release("  ID=\"\"\"x\"\"  \r\n");
    assert_eq!(os.id, "x");
}

#[test]
fn exit_codes_reflect_trustworthiness() {
    assert_eq!(ScanOutcome::Clean.exit_code(), 0);
    assert_eq!(ScanOutcome::Degraded.exit_code(), 0);
    assert_eq!(ScanOutcome::Incomplete.exit_code(), 2);
    assert_eq!(ScanOutcome::Interrupted.exit_code(), 130);
}

#[test]
fn outcome_from_completeness() {
    assert_eq!(ScanOutcome::from_completeness(&Completeness::Complete), ScanOutcome::Clean);
    assert_eq!(
        ScanOutcome::from_completeness(&Completeness::Partial { degraded_sections: vec!["rpm".into()] }),
        ScanOutcome::Degraded
    );
    assert_eq!(
        ScanOutcome::from_completeness(&Completeness::Incomplete { failed_sections: vec![], degraded_sections: vec![] }),
        ScanOutcome::Incomplete
    );
}

fn args(base_image: Option<&str>, no_baseline: bool) -> ScanArgs {
    ScanArgs {
        inspect_only: false,
        output: None,
        base_image: base_image.map(|s| s.to_string()),
        no_baseline,
        preserve_password_hashes: false,
        preserve_ssh_keys: false,
        acknowledge_sensitive: false,
        progress: None,
    }
}

#[test]
fn base_image_and_no_baseline_conflict() {
    assert!(check_scan_flags(&args(Some("registry.redhat.io/rhel9/rhel-bootc:9.6"), true)).is_err());
    assert!(check_scan_flags(&args(Some("x"), false)).is_ok());
    assert!(check_scan_flags(&args(None, true)).is_ok());
}

#[test]
fn sensitive_export_needs_acknowledgement() {
    let mut a = args(None, false);
    assert!(check_export_allowed(&a).is_ok());
    a.preserve_password_hashes = true;
    assert_eq!(
        check_export_allowed(&a),
        Err("Cannot export sensitive snapshot without --acknowledge-sensitive flag".to_string())
    );
    a.preserve_password_hashes = false;
    a.preserve_ssh_keys = true;
    assert!(check_export_allowed(&a).is_err());
    a.acknowledge_sensitive = true;
    assert!(check_export_allowed(&a).is_ok());
    a.preserve_password_hashes = true;
    assert!(check_export_allowed(&a).is_ok());
}

#[test]
fn hostname_falls_back_to_unknown() {
    assert_eq!(hostname_from_output("  web01\n"), "web01");
    assert_eq!(hostname_from_output(" \n"), "unknown");
}

#[test]
fn test_build_summary_counts_full() {
    let c = SummaryCounts {
        packages_added: Some(3),
        config_files: Some(2),
        service_changes: Some(4),
        running_containers: Some(1),
    };
    assert_eq!(build_summary_counts(&c), "3 packages, 2 configs, 4 services, 1 containers");
}

#[test]
fn test_build_summary_counts_empty() {
    let c = SummaryCounts { packages_added: None, config_files: None, service_changes: None, running_containers: None };
    assert_eq!(build_summary_counts(&c), "");
}

#[test]
fn test_build_summary_counts_partial() {
    let c = SummaryCounts { packages_added: Some(5), config_files: None, service_changes: None, running_containers: Some(2) };
    assert_eq!(build_summary_counts(&c), "5 packages, 2 containers");
}

#[test]
fn test_build_summary_counts_skips_empty_sections() {
    let c = SummaryCounts { packages_added: Some(0), config_files: Some(7), service_changes: Some(0), running_containers: None };
    assert_eq!(build_summary_counts(&c), "7 configs");
}

#[test]
fn completion_block_for_each_outcome() {
    let lines = completion_lines(ScanOutcome::Clean, "4.2s", "3 packages", &Completeness::Complete, Some("/tmp/out.tar.gz"), false);
    assert_eq!(
        lines,
        vec![
            "Scan complete (4.2s) \u{2014} 3 packages".to_string(),
            "Report: /tmp/out.tar.gz".to_string(),
            "To review: inspectah refine /tmp/out.tar.gz".to_string(),
        ]
    );
    let partial = Completeness::Partial { degraded_sections: vec!["a".into(), "b".into()] };
    let lines = completion_lines(ScanOutcome::Degraded, "1.0s", "", &partial, Some("/tmp/snap"), true);
    assert_eq!(lines[1], "  2 degraded (see report for details)");
    assert_eq!(lines[2], "Output: /tmp/snap");
    let inc = Completeness::Incomplete { failed_sections: vec!["x".into()], degraded_sections: vec!["y".into()] };
    let lines = completion_lines(ScanOutcome::Incomplete, "1.0s", "", &inc, None, false);
    assert_eq!(lines[1], "  1 failed, 1 degraded (see report for details)");
    assert_eq!(lines.len(), 2);
    assert!(completion_lines(ScanOutcome::Interrupted, "1.0s", "", &inc, None, false).is_empty());
}

fn agg(inputs: &[&str], manifest: Option<&str>) -> FleetAggregateArgs {
    FleetAggregateArgs {
        inputs: inputs.iter().map(|s| s.to_string()).collect(),
        manifest: manifest.map(|s| s.to_string()),
        baseline: None,
        output_dir: None,
        output_file: None,
        json_only: false,
        strict: false,
        verbose: false,
    }
}

#[test]
fn fleet_init_is_not_available_yet() {
    let args = FleetArgs { command: FleetSubcommand::Init(FleetInitArgs { directory: "d".into(), output: None, overwrite: false }) };
    let err = run_fleet(&args).err().unwrap();
    assert!(err.contains("not yet implemented"));
    let args = FleetArgs { command: FleetSubcommand::Aggregate(agg(&["a.tar.gz"], None)) };
    assert_eq!(run_fleet(&args).ok().unwrap().inputs, vec!["a.tar.gz".to_string()]);
}

#[test]
fn fleet_input_modes() {
    assert_eq!(input_mode(&agg(&[], Some("m.toml")), false), Ok(InputMode::Manifest));
    assert_eq!(input_mode(&agg(&["dir"], None), true), Ok(InputMode::Directory));
    assert_eq!(input_mode(&agg(&["a", "b"], None), false), Ok(InputMode::Paths));
    assert!(input_mode(&agg(&["a"], Some("m.toml")), false).is_err());
    assert!(input_mode(&agg(&[], None), false).unwrap_err().contains("no inputs specified"));
}

#[test]
fn tarball_names() {
    assert!(is_tarball_name("web01.tar.gz"));
    assert!(!is_tarball_name("notes.txt"));
}

#[test]
fn fleet_warnings_are_formatted() {
    let w = FleetWarning::BaselineConflict {
        distribution: vec![("img:9.4".into(), 3), ("img:9.5".into(), 1)],
        selected: "img:9.4".into(),
    };
    assert_eq!(format_warning(&w), "baseline conflict: selected img:9.4 from [img:9.4 (3), img:9.5 (1)]");
    let w = FleetWarning::MinorVersionSpread { versions: vec!["9.4".into(), "9.5".into()] };
    assert_eq!(format_warning(&w), "minor version spread: 9.4, 9.5");
}

#[test]
fn resume_prompt_answers() {
    assert_eq!(resume_choice("r"), ResumeChoice::Resume);
    assert_eq!(resume_choice("fresh"), ResumeChoice::Fresh);
    assert_eq!(resume_choice(""), ResumeChoice::Quit);
    assert_eq!(resume_choice("x"), ResumeChoice::Invalid);
}

#[test]
fn validation_errors_message() {
    let errors = vec![
        FleetValidationError::TooFewSnapshots { count: 1 },
        FleetValidationError::SchemaVersionMismatch { versions: vec![1, 2] },
        FleetValidationError::ArchitectureMismatch { architectures: vec!["x86_64".into(), "aarch64".into()] },
        FleetValidationError::DuplicateHostname { hostname: "web1".into() },
    ];
    assert_eq!(
        format_validation_errors(&errors),
        "fleet validation failed:\n  too few snapshots: 1 (need at least 2)\n  schema version mismatch: [1, 2]\n  architecture mismatch: x86_64, aarch64\n  duplicate hostname: web1"
    );
}

#[test]
fn scan_requires_root() {
    assert_eq!(root_refusal(0), None);
    assert_eq!(
        root_refusal(1000),
        Some(vec![
            "Error: inspectah scan requires root privileges.".to_string(),
            "Run with: sudo inspectah scan [options]".to_string(),
        ])
    );
}

#[test]
fn sensitive_export_notice_lists_preserved_counts() {
    assert_eq!(
        sensitive_export_notice(2, 5),
        vec![
            "Error: Snapshot contains sensitive data (password hashes or SSH keys).".to_string(),
            "       To export, re-run with --acknowledge-sensitive".to_string(),
            "       Preserved credentials: 2".to_string(),
            "       Preserved SSH keys: 5".to_string(),
        ]
    );
}
