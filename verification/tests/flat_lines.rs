use inspectah::progress::checklist::{
    InspectorId, InspectorOutcome, MetricKind, ProbeId, ProbeOutcome, ProgressEvent, StepId, StepOutcome,
};
use inspectah::progress::lines::{DisplayNames, FlatRenderer};

fn names(list: &[&str]) -> Vec<String> {
    list.iter().map(|s| s.to_string()).collect()
}

fn display_names() -> DisplayNames {
    let order = vec![
        (InspectorId::Rpm, "RPM packages".to_string()),
        (InspectorId::Services, "Services".to_string()),
        (InspectorId::Storage, "Storage".to_string()),
        (InspectorId::KernelBoot, "Kernel & boot".to_string()),
        (InspectorId::Network, "Network".to_string()),
        (InspectorId::Containers, "Containers".to_string()),
        (InspectorId::UsersGroups, "Users & groups".to_string()),
        (InspectorId::ScheduledTasks, "Scheduled tasks".to_string()),
        (InspectorId::Config, "Config files".to_string()),
        (InspectorId::Selinux, "SELinux".to_string()),
        (InspectorId::NonRpmSoftware, "Non-RPM software".to_string()),
    ];
    let steps = names(&[
        "Querying installed packages",
        "Classifying packages",
        "Resolving source repos",
        "Resolving dependency tree",
        "Verifying package integrity",
        "Mapping file ownership",
        "Applying rpm verification",
        "Walking filesystem",
        "Classifying configs",
    ]);
    let probes = names(&["pip packages", "npm packages", "Python virtualenvs", "ELF binaries"]);
    DisplayNames { order, steps, probes }
}

/// A flat renderer with the text it has written; every event arrives at
/// the same instant, so no elapsed time reaches the display threshold.
struct FlatOut {
    renderer: FlatRenderer,
    text: String,
}

impl FlatOut {
    fn handle(&mut self, event: ProgressEvent) {
        if let Some(line) = self.renderer.handle(event, 1_000) {
            self.text.push_str(&line.text);
            self.text.push('\n');
        }
    }
}

fn test_renderer(total: usize) -> FlatOut {
    FlatOut { renderer: FlatRenderer::new(display_names(), total), text: String::new() }
}

#[test]
fn flat_renders_inspector_lifecycle() {
    let mut out = test_renderer(11);

    out.handle(ProgressEvent::InspectorStarted(InspectorId::Rpm));
    out.handle(ProgressEvent::InspectorFinished {
        id: InspectorId::Rpm,
        outcome: InspectorOutcome::Complete,
    });

    let text = out.text.clone();
    assert!(text.contains("[1/11] RPM packages..."));
    assert!(text.contains("[1/11] RPM packages... done"));
}

#[test]
fn flat_renders_sub_steps() {
    let mut out = test_renderer(11);

    out.handle(ProgressEvent::InspectorStarted(InspectorId::Rpm));
    out.handle(ProgressEvent::StepStarted {
        inspector: InspectorId::Rpm,
        step: StepId::QueryingPackages,
    });
    out.handle(ProgressEvent::Metric {
        inspector: InspectorId::Rpm,
        kind: MetricKind::PackagesFound,
        value: 847,
    });
    out.handle(ProgressEvent::StepFinished {
        inspector: InspectorId::Rpm,
        step: StepId::QueryingPackages,
        outcome: StepOutcome::Complete,
    });
    out.handle(ProgressEvent::StepStarted {
        inspector: InspectorId::Rpm,
        step: StepId::ClassifyingPackages,
    });
    out.handle(ProgressEvent::StepFinished {
        inspector: InspectorId::Rpm,
        step: StepId::ClassifyingPackages,
        outcome: StepOutcome::Complete,
    });

    let text = out.text.clone();
    assert!(
        text.contains("Querying installed packages... 847 found"),
        "expected metric-enriched step finish, got: {text}"
    );
    assert!(
        text.contains("Classifying packages... done"),
        "expected plain done (no metric), got: {text}"
    );
}

#[test]
fn flat_renders_probes() {
    let mut out = test_renderer(11);

    out.handle(ProgressEvent::InspectorStarted(InspectorId::NonRpmSoftware));
    out.handle(ProgressEvent::ProbeStarted {
        inspector: InspectorId::NonRpmSoftware,
        probe: ProbeId::PythonVenvs,
    });
    out.handle(ProgressEvent::ProbeFinished {
        inspector: InspectorId::NonRpmSoftware,
        probe: ProbeId::PythonVenvs,
        outcome: ProbeOutcome::Found { count: 3 },
    });
    out.handle(ProgressEvent::ProbeStarted {
        inspector: InspectorId::NonRpmSoftware,
        probe: ProbeId::NpmPackages,
    });
    out.handle(ProgressEvent::ProbeFinished {
        inspector: InspectorId::NonRpmSoftware,
        probe: ProbeId::NpmPackages,
        outcome: ProbeOutcome::Empty,
    });

    let text = out.text.clone();
    assert!(
        text.contains("Python virtualenvs... 3 found"),
        "got: {text}"
    );
    assert!(text.contains("npm packages... none"), "got: {text}");
}

#[test]
fn flat_renders_skipped_failed_degraded() {
    let mut out = test_renderer(11);

    // Skipped
    out.handle(ProgressEvent::InspectorStarted(InspectorId::Selinux));
    out.handle(ProgressEvent::InspectorFinished {
        id: InspectorId::Selinux,
        outcome: InspectorOutcome::Skipped {
            reason: "disabled".to_string(),
        },
    });

    // Failed
    out.handle(ProgressEvent::InspectorStarted(InspectorId::Containers));
    out.handle(ProgressEvent::InspectorFinished {
        id: InspectorId::Containers,
        outcome: InspectorOutcome::Failed {
            reason: "podman not found".to_string(),
        },
    });

    // Degraded
    out.handle(ProgressEvent::InspectorStarted(InspectorId::Storage));
    out.handle(ProgressEvent::InspectorFinished {
        id: InspectorId::Storage,
        outcome: InspectorOutcome::Degraded {
            reason: "lsblk partial".to_string(),
        },
    });

    let text = out.text.clone();
    assert!(
        text.contains("SELinux... skipped (disabled)"),
        "got: {text}"
    );
    assert!(
        text.contains("Containers... failed: podman not found"),
        "got: {text}"
    );
    assert!(
        text.contains("Storage... degraded: lsblk partial"),
        "got: {text}"
    );
}

#[test]
fn flat_renders_step_degraded() {
    let mut out = test_renderer(11);

    out.handle(ProgressEvent::InspectorStarted(InspectorId::Rpm));
    out.handle(ProgressEvent::StepStarted {
        inspector: InspectorId::Rpm,
        step: StepId::VerifyingIntegrity,
    });
    out.handle(ProgressEvent::StepFinished {
        inspector: InspectorId::Rpm,
        step: StepId::VerifyingIntegrity,
        outcome: StepOutcome::Degraded {
            reason: "rpm -V timed out".to_string(),
        },
    });

    let text = out.text.clone();
    assert!(
        text.contains("Verifying package integrity... degraded: rpm -V timed out"),
        "got: {text}"
    );
}

#[test]
fn flat_metric_resets_between_inspectors() {
    let mut out = test_renderer(11);

    // First inspector: metric then finish
    out.handle(ProgressEvent::InspectorStarted(InspectorId::Rpm));
    out.handle(ProgressEvent::StepStarted {
        inspector: InspectorId::Rpm,
        step: StepId::QueryingPackages,
    });
    out.handle(ProgressEvent::Metric {
        inspector: InspectorId::Rpm,
        kind: MetricKind::PackagesFound,
        value: 500,
    });
    out.handle(ProgressEvent::StepFinished {
        inspector: InspectorId::Rpm,
        step: StepId::QueryingPackages,
        outcome: StepOutcome::Complete,
    });
    out.handle(ProgressEvent::InspectorFinished {
        id: InspectorId::Rpm,
        outcome: InspectorOutcome::Complete,
    });

    // Second inspector: step without metric should say "done"
    out.handle(ProgressEvent::InspectorStarted(InspectorId::Services));
    out.handle(ProgressEvent::StepStarted {
        inspector: InspectorId::Services,
        step: StepId::QueryingPackages, // reusing step for test
    });
    out.handle(ProgressEvent::StepFinished {
        inspector: InspectorId::Services,
        step: StepId::QueryingPackages,
        outcome: StepOutcome::Complete,
    });

    let text = out.text.clone();
    // The second inspector's step should NOT inherit the first's metric.
    // We need the StepFinished line (has a suffix), not StepStarted.
    let lines: Vec<&str> = text.lines().collect();
    let services_step = lines
        .iter()
        .skip_while(|l| !l.contains("[2/11] Services..."))
        .find(|l| {
            l.contains("Querying installed packages...")
                && (l.contains("done") || l.contains("found"))
        })
        .expect("should find services step finish line");
    assert!(
        services_step.contains("done"),
        "expected 'done' not metric, got: {services_step}"
    );
}

#[test]
fn flat_metric_labels_match_spec() {
    let mut out = test_renderer(11);

    out.handle(ProgressEvent::InspectorStarted(InspectorId::Rpm));
    // PackagesFound step
    out.handle(ProgressEvent::StepStarted {
        inspector: InspectorId::Rpm,
        step: StepId::QueryingPackages,
    });
    out.handle(ProgressEvent::Metric {
        inspector: InspectorId::Rpm,
        kind: MetricKind::PackagesFound,
        value: 847,
    });
    out.handle(ProgressEvent::StepFinished {
        inspector: InspectorId::Rpm,
        step: StepId::QueryingPackages,
        outcome: StepOutcome::Complete,
    });
    // ReposMapped step
    out.handle(ProgressEvent::StepStarted {
        inspector: InspectorId::Rpm,
        step: StepId::ResolvingSourceRepos,
    });
    out.handle(ProgressEvent::Metric {
        inspector: InspectorId::Rpm,
        kind: MetricKind::ReposMapped,
        value: 8,
    });
    out.handle(ProgressEvent::StepFinished {
        inspector: InspectorId::Rpm,
        step: StepId::ResolvingSourceRepos,
        outcome: StepOutcome::Complete,
    });
    // Inspector finishes — last metric was ReposMapped
    out.handle(ProgressEvent::InspectorFinished {
        id: InspectorId::Rpm,
        outcome: InspectorOutcome::Complete,
    });

    let text = out.text.clone();
    assert!(
        text.contains("847 found"),
        "PackagesFound should say '847 found', got: {text}"
    );
    assert!(
        text.contains("8 repos mapped"),
        "ReposMapped should say '8 repos mapped', got: {text}"
    );
    // Parent completion line should show last metric
    assert!(
        text.contains("RPM packages... 8 repos mapped"),
        "parent completion should show last metric, got: {text}"
    );
}

#[test]
fn flat_interrupted_outcome() {
    let mut out = test_renderer(11);

    out.handle(ProgressEvent::InspectorStarted(InspectorId::Network));
    out.handle(ProgressEvent::InspectorFinished {
        id: InspectorId::Network,
        outcome: InspectorOutcome::Interrupted,
    });

    let text = out.text.clone();
    assert!(
        text.contains("Network... interrupted"),
        "got: {text}"
    );
}

#[test]
fn display_position_used_correctly() {
    // Services is position 2 in the display order
    let mut out = test_renderer(11);
    out.handle(ProgressEvent::InspectorStarted(InspectorId::Services));

    let text = out.text.clone();
    assert!(text.contains("[2/11]"), "got: {text}");
}

#[test]
fn flat_nonrpm_ecosystems_count() {
    let mut out = test_renderer(11);

    out.handle(ProgressEvent::InspectorStarted(InspectorId::NonRpmSoftware));
    // Two found, one empty
    out.handle(ProgressEvent::ProbeStarted {
        inspector: InspectorId::NonRpmSoftware,
        probe: ProbeId::PipPackages,
    });
    out.handle(ProgressEvent::ProbeFinished {
        inspector: InspectorId::NonRpmSoftware,
        probe: ProbeId::PipPackages,
        outcome: ProbeOutcome::Found { count: 12 },
    });
    out.handle(ProgressEvent::ProbeStarted {
        inspector: InspectorId::NonRpmSoftware,
        probe: ProbeId::NpmPackages,
    });
    out.handle(ProgressEvent::ProbeFinished {
        inspector: InspectorId::NonRpmSoftware,
        probe: ProbeId::NpmPackages,
        outcome: ProbeOutcome::Found { count: 3 },
    });
    out.handle(ProgressEvent::ProbeStarted {
        inspector: InspectorId::NonRpmSoftware,
        probe: ProbeId::ElfBinaries,
    });
    out.handle(ProgressEvent::ProbeFinished {
        inspector: InspectorId::NonRpmSoftware,
        probe: ProbeId::ElfBinaries,
        outcome: ProbeOutcome::Empty,
    });
    out.handle(ProgressEvent::InspectorFinished {
        id: InspectorId::NonRpmSoftware,
        outcome: InspectorOutcome::Complete,
    });

    let text = out.text.clone();
    assert!(
        text.contains("2 ecosystems"),
        "expected '2 ecosystems', got: {text}"
    );
}

#[test]
fn flat_nonrpm_zero_result_shows_none_found() {
    let mut out = test_renderer(11);

    out.handle(ProgressEvent::InspectorStarted(InspectorId::NonRpmSoftware));
    out.handle(ProgressEvent::ProbeStarted {
        inspector: InspectorId::NonRpmSoftware,
        probe: ProbeId::ElfBinaries,
    });
    out.handle(ProgressEvent::ProbeFinished {
        inspector: InspectorId::NonRpmSoftware,
        probe: ProbeId::ElfBinaries,
        outcome: ProbeOutcome::Empty,
    });
    out.handle(ProgressEvent::ProbeStarted {
        inspector: InspectorId::NonRpmSoftware,
        probe: ProbeId::PipPackages,
    });
    out.handle(ProgressEvent::ProbeFinished {
        inspector: InspectorId::NonRpmSoftware,
        probe: ProbeId::PipPackages,
        outcome: ProbeOutcome::Empty,
    });
    out.handle(ProgressEvent::InspectorFinished {
        id: InspectorId::NonRpmSoftware,
        outcome: InspectorOutcome::Complete,
    });

    let text = out.text.clone();
    assert!(
        text.contains("none found"),
        "expected 'none found', got: {text}"
    );
}

#[test]
fn flat_per_inspector_metric_isolation() {
    // Two inspectors active simultaneously — metrics must not leak.
    let mut out = test_renderer(11);

    out.handle(ProgressEvent::InspectorStarted(InspectorId::Rpm));
    out.handle(ProgressEvent::InspectorStarted(InspectorId::Services));

    // RPM gets a metric
    out.handle(ProgressEvent::StepStarted {
        inspector: InspectorId::Rpm,
        step: StepId::QueryingPackages,
    });
    out.handle(ProgressEvent::Metric {
        inspector: InspectorId::Rpm,
        kind: MetricKind::PackagesFound,
        value: 847,
    });
    out.handle(ProgressEvent::StepFinished {
        inspector: InspectorId::Rpm,
        step: StepId::QueryingPackages,
        outcome: StepOutcome::Complete,
    });

    // Services finishes without a metric — should say "done", not "847 found"
    out.handle(ProgressEvent::InspectorFinished {
        id: InspectorId::Services,
        outcome: InspectorOutcome::Complete,
    });

    let text = out.text.clone();
    let lines: Vec<&str> = text.lines().collect();
    let svc_done = lines
        .iter()
        .find(|l| l.contains("Services...") && !l.ends_with("..."))
        .expect("services done line");
    assert!(
        svc_done.contains("done"),
        "Services should say 'done' not inherit RPM metric, got: {svc_done}"
    );
}

#[test]
fn flat_writes_no_escape_and_reports_done() {
    let mut out = test_renderer(11);
    out.handle(ProgressEvent::InspectorStarted(InspectorId::Storage));
    out.handle(ProgressEvent::StepStarted { inspector: InspectorId::Storage, step: StepId::WalkingFilesystem });
    out.handle(ProgressEvent::StepFinished {
        inspector: InspectorId::Storage,
        step: StepId::WalkingFilesystem,
        outcome: StepOutcome::Failed { reason: "denied".into() },
    });
    out.handle(ProgressEvent::InspectorFinished { id: InspectorId::Storage, outcome: InspectorOutcome::Complete });
    assert!(!out.text.contains('\x1b'));
    assert!(out.text.ends_with("[3/11] Storage... done\n"));
}
