use inspectah::progress::checklist::{
    InspectorId, InspectorOutcome, MetricKind, ProbeId, ProbeOutcome, ProgressEvent, StepId, StepOutcome,
};
use inspectah::progress::lines::{DisplayNames, PlainRenderer};

fn names(list: &[&str]) -> Vec<String> {
    list.iter().map(|s| s.to_string()).collect()
}

fn display_names() -> DisplayNames {
    let order = vec![
        (InspectorId::Rpm, "RPM packages".to_string()),
        (InspectorId::Services, "Services".to_string()),
        (InspectorId::Storage, "Storage".to_string()),
        (InspectorId::KernelBoot, "Kernel & boot".to_string()),
        (InspectorId::Network, "Network".to_string()),
        (InspectorId::Containers, "Containers".to_string()),
        (InspectorId::UsersGroups, "Users & groups".to_string()),
        (InspectorId::ScheduledTasks, "Scheduled tasks".to_string()),
        (InspectorId::Config, "Config files".to_string()),
        (InspectorId::Selinux, "SELinux".to_string()),
        (InspectorId::NonRpmSoftware, "Non-RPM software".to_string()),
    ];
    let steps = names(&[
        "Querying installed packages",
        "Classifying packages",
        "Resolving source repos",
        "Resolving dependency tree",
        "Verifying package integrity",
        "Mapping file ownership",
        "Applying rpm verification",
        "Walking filesystem",
        "Classifying configs",
    ]);
    let probes = names(&["pip packages", "npm packages", "Python virtualenvs", "ELF binaries"]);
    DisplayNames { order, steps, probes }
}

/// A plain renderer with the text it has written; every event arrives at
/// the same instant, so elapsed times are zero.
struct PlainOut {
    renderer: PlainRenderer,
    text: String,
}

impl PlainOut {
    fn handle(&mut self, event: ProgressEvent) {
        if let Some(line) = self.renderer.handle(event, 1_000) {
            self.text.push_str(&line.text);
            if let Some(ms) = line.elapsed_ms {
                self.text.push_str(&format!(" ({:.1}s)", ms as f64 / 1000.0));
            }
            self.text.push('\n');
        }
    }
}

fn test_renderer(use_color: bool) -> PlainOut {
    PlainOut { renderer: PlainRenderer::new(display_names(), use_color), text: String::new() }
}

#[test]
fn plain_renders_started_and_done_separately() {
    let mut out = test_renderer(false);

    out.handle(ProgressEvent::InspectorStarted(InspectorId::Rpm));
    out.handle(ProgressEvent::InspectorFinished {
        id: InspectorId::Rpm,
        outcome: InspectorOutcome::Complete,
    });

    let text = out.text.clone();
    let lines: Vec<&str> = text.lines().collect();

    // Started line uses ▸
    assert!(
        lines[0].starts_with('\u{25b8}'),
        "expected started line with ▸, got: {}", lines[0]
    );
    assert!(
        lines[0].contains("RPM packages"),
        "expected inspector name, got: {}", lines[0]
    );

    // Done line uses ✓ — separate from started
    assert!(
        lines[1].contains('\u{2713}'),
        "expected done line with ✓, got: {}", lines[1]
    );
    assert!(
        lines[1].contains("RPM packages"),
        "expected inspector name on done line, got: {}", lines[1]
    );
}

#[test]
fn plain_uses_correct_symbols() {
    let mut out = test_renderer(false);

    // Complete → ✓
    out.handle(ProgressEvent::InspectorStarted(InspectorId::Rpm));
    out.handle(ProgressEvent::InspectorFinished {
        id: InspectorId::Rpm,
        outcome: InspectorOutcome::Complete,
    });

    // Skipped → –
    out.handle(ProgressEvent::InspectorStarted(InspectorId::Selinux));
    out.handle(ProgressEvent::InspectorFinished {
        id: InspectorId::Selinux,
        outcome: InspectorOutcome::Skipped {
            reason: "disabled".to_string(),
        },
    });

    // Degraded → ~
    out.handle(ProgressEvent::InspectorStarted(InspectorId::Storage));
    out.handle(ProgressEvent::InspectorFinished {
        id: InspectorId::Storage,
        outcome: InspectorOutcome::Degraded {
            reason: "lsblk partial".to_string(),
        },
    });

    // Failed → ✗
    out.handle(ProgressEvent::InspectorStarted(InspectorId::Containers));
    out.handle(ProgressEvent::InspectorFinished {
        id: InspectorId::Containers,
        outcome: InspectorOutcome::Failed {
            reason: "podman not found".to_string(),
        },
    });

    // Interrupted → ■
    out.handle(ProgressEvent::InspectorStarted(InspectorId::Network));
    out.handle(ProgressEvent::InspectorFinished {
        id: InspectorId::Network,
        outcome: InspectorOutcome::Interrupted,
    });

    let text = out.text.clone();
    assert!(text.contains('\u{2713}'), "missing ✓ for complete");
    assert!(text.contains('\u{2013}'), "missing – for skipped");
    assert!(text.contains('~'), "missing ~ for degraded");
    assert!(text.contains('\u{2717}'), "missing ✗ for failed");
    assert!(text.contains('\u{25a0}'), "missing ■ for interrupted");
}

#[test]
fn plain_no_color_mode() {
    let mut out = test_renderer(false);

    out.handle(ProgressEvent::InspectorStarted(InspectorId::Rpm));
    out.handle(ProgressEvent::InspectorFinished {
        id: InspectorId::Rpm,
        outcome: InspectorOutcome::Complete,
    });

    out.handle(ProgressEvent::InspectorStarted(InspectorId::Selinux));
    out.handle(ProgressEvent::InspectorFinished {
        id: InspectorId::Selinux,
        outcome: InspectorOutcome::Skipped {
            reason: "disabled".to_string(),
        },
    });

    let text = out.text.clone();
    // No ANSI escape codes anywhere
    assert!(
        !text.contains("\x1b["),
        "found ANSI escape in no-color mode: {text}"
    );
    // But symbols are still present
    assert!(text.contains('\u{2713}'), "missing ✓ in no-color mode");
    assert!(text.contains('\u{2013}'), "missing – in no-color mode");
}

#[test]
fn plain_color_mode_has_ansi_codes() {
    let mut out = test_renderer(true);

    out.handle(ProgressEvent::InspectorStarted(InspectorId::Rpm));
    out.handle(ProgressEvent::InspectorFinished {
        id: InspectorId::Rpm,
        outcome: InspectorOutcome::Complete,
    });

    let text = out.text.clone();
    // ✓ should be wrapped in green
    assert!(
        text.contains("\x1b[32m\u{2713}\x1b[0m"),
        "expected green ✓ in color mode, got: {text}"
    );
}

#[test]
fn plain_renders_probes_with_empty_and_found() {
    let mut out = test_renderer(false);

    out.handle(ProgressEvent::InspectorStarted(InspectorId::NonRpmSoftware));

    // Found probe
    out.handle(ProgressEvent::ProbeStarted {
        inspector: InspectorId::NonRpmSoftware,
        probe: ProbeId::PipPackages,
    });
    out.handle(ProgressEvent::ProbeFinished {
        inspector: InspectorId::NonRpmSoftware,
        probe: ProbeId::PipPackages,
        outcome: ProbeOutcome::Found { count: 12 },
    });

    // Empty probe
    out.handle(ProgressEvent::ProbeStarted {
        inspector: InspectorId::NonRpmSoftware,
        probe: ProbeId::ElfBinaries,
    });
    out.handle(ProgressEvent::ProbeFinished {
        inspector: InspectorId::NonRpmSoftware,
        probe: ProbeId::ElfBinaries,
        outcome: ProbeOutcome::Empty,
    });

    let text = out.text.clone();
    // Found: ✓ with count
    assert!(
        text.contains("pip packages") && text.contains("12 found"),
        "expected pip 12 found, got: {text}"
    );
    // Empty: – with "none"
    assert!(
        text.contains("ELF binaries") && text.contains("none"),
        "expected ELF none, got: {text}"
    );
}

#[test]
fn plain_metric_labels_match_spec() {
    let mut out = test_renderer(false);

    out.handle(ProgressEvent::InspectorStarted(InspectorId::Rpm));
    out.handle(ProgressEvent::StepStarted {
        inspector: InspectorId::Rpm,
        step: StepId::QueryingPackages,
    });
    out.handle(ProgressEvent::Metric {
        inspector: InspectorId::Rpm,
        kind: MetricKind::PackagesFound,
        value: 847,
    });
    out.handle(ProgressEvent::StepFinished {
        inspector: InspectorId::Rpm,
        step: StepId::QueryingPackages,
        outcome: StepOutcome::Complete,
    });
    out.handle(ProgressEvent::StepStarted {
        inspector: InspectorId::Rpm,
        step: StepId::ResolvingSourceRepos,
    });
    out.handle(ProgressEvent::Metric {
        inspector: InspectorId::Rpm,
        kind: MetricKind::ReposMapped,
        value: 8,
    });
    out.handle(ProgressEvent::StepFinished {
        inspector: InspectorId::Rpm,
        step: StepId::ResolvingSourceRepos,
        outcome: StepOutcome::Complete,
    });
    out.handle(ProgressEvent::InspectorFinished {
        id: InspectorId::Rpm,
        outcome: InspectorOutcome::Complete,
    });

    let text = out.text.clone();
    assert!(
        text.contains("847 found"),
        "PackagesFound should say '847 found', got: {text}"
    );
    assert!(
        text.contains("8 repos mapped"),
        "ReposMapped should say '8 repos mapped', got: {text}"
    );
}

#[test]
fn plain_renders_sub_steps_indented() {
    let mut out = test_renderer(false);

    out.handle(ProgressEvent::InspectorStarted(InspectorId::Rpm));
    out.handle(ProgressEvent::StepStarted {
        inspector: InspectorId::Rpm,
        step: StepId::QueryingPackages,
    });
    out.handle(ProgressEvent::Metric {
        inspector: InspectorId::Rpm,
        kind: MetricKind::PackagesFound,
        value: 847,
    });
    out.handle(ProgressEvent::StepFinished {
        inspector: InspectorId::Rpm,
        step: StepId::QueryingPackages,
        outcome: StepOutcome::Complete,
    });

    let text = out.text.clone();
    let lines: Vec<&str> = text.lines().collect();

    // Inspector line is NOT indented
    assert!(
        lines[0].starts_with('\u{25b8}'),
        "inspector line should not be indented, got: {}", lines[0]
    );
    // Step lines ARE indented (4 spaces)
    assert!(
        lines[1].starts_with("    "),
        "step line should be indented, got: {}", lines[1]
    );
    assert!(
        lines[2].starts_with("    "),
        "step done line should be indented, got: {}", lines[2]
    );
    // Step done has metric
    assert!(
        lines[2].contains("847 found"),
        "expected metric on step done, got: {}", lines[2]
    );
}

#[test]
fn plain_metric_resets_between_inspectors() {
    let mut out = test_renderer(false);

    // First inspector with metric
    out.handle(ProgressEvent::InspectorStarted(InspectorId::Rpm));
    out.handle(ProgressEvent::StepStarted {
        inspector: InspectorId::Rpm,
        step: StepId::QueryingPackages,
    });
    out.handle(ProgressEvent::Metric {
        inspector: InspectorId::Rpm,
        kind: MetricKind::PackagesFound,
        value: 500,
    });
    out.handle(ProgressEvent::StepFinished {
        inspector: InspectorId::Rpm,
        step: StepId::QueryingPackages,
        outcome: StepOutcome::Complete,
    });
    out.handle(ProgressEvent::InspectorFinished {
        id: InspectorId::Rpm,
        outcome: InspectorOutcome::Complete,
    });

    // Second inspector: step without metric should say "done"
    out.handle(ProgressEvent::InspectorStarted(InspectorId::Services));
    out.handle(ProgressEvent::StepStarted {
        inspector: InspectorId::Services,
        step: StepId::QueryingPackages,
    });
    out.handle(ProgressEvent::StepFinished {
        inspector: InspectorId::Services,
        step: StepId::QueryingPackages,
        outcome: StepOutcome::Complete,
    });

    let text = out.text.clone();
    let lines: Vec<&str> = text.lines().collect();

    // Find Services step done line
    let services_step = lines
        .iter()
        .skip_while(|l| !l.contains("Services"))
        .find(|l| {
            l.contains("Querying installed packages")
                && (l.contains("done") || l.contains("found"))
        })
        .expect("should find services step finish line");
    assert!(
        services_step.contains("done"),
        "expected 'done' not metric, got: {services_step}"
    );
}

#[test]
fn plain_step_degraded() {
    let mut out = test_renderer(false);

    out.handle(ProgressEvent::InspectorStarted(InspectorId::Rpm));
    out.handle(ProgressEvent::StepStarted {
        inspector: InspectorId::Rpm,
        step: StepId::VerifyingIntegrity,
    });
    out.handle(ProgressEvent::StepFinished {
        inspector: InspectorId::Rpm,
        step: StepId::VerifyingIntegrity,
        outcome: StepOutcome::Degraded {
            reason: "rpm -V timed out".to_string(),
        },
    });

    let text = out.text.clone();
    assert!(
        text.contains('~'),
        "expected ~ for degraded step, got: {text}"
    );
    assert!(
        text.contains("degraded: rpm -V timed out"),
        "expected degraded reason, got: {text}"
    );
}

#[test]
fn plain_nonrpm_ecosystems_count() {
    let mut out = test_renderer(false);

    out.handle(ProgressEvent::InspectorStarted(InspectorId::NonRpmSoftware));
    out.handle(ProgressEvent::ProbeStarted {
        inspector: InspectorId::NonRpmSoftware,
        probe: ProbeId::PipPackages,
    });
    out.handle(ProgressEvent::ProbeFinished {
        inspector: InspectorId::NonRpmSoftware,
        probe: ProbeId::PipPackages,
        outcome: ProbeOutcome::Found { count: 12 },
    });
    out.handle(ProgressEvent::ProbeStarted {
        inspector: InspectorId::NonRpmSoftware,
        probe: ProbeId::NpmPackages,
    });
    out.handle(ProgressEvent::ProbeFinished {
        inspector: InspectorId::NonRpmSoftware,
        probe: ProbeId::NpmPackages,
        outcome: ProbeOutcome::Found { count: 5 },
    });
    out.handle(ProgressEvent::ProbeStarted {
        inspector: InspectorId::NonRpmSoftware,
        probe: ProbeId::ElfBinaries,
    });
    out.handle(ProgressEvent::ProbeFinished {
        inspector: InspectorId::NonRpmSoftware,
        probe: ProbeId::ElfBinaries,
        outcome: ProbeOutcome::Empty,
    });
    out.handle(ProgressEvent::InspectorFinished {
        id: InspectorId::NonRpmSoftware,
        outcome: InspectorOutcome::Complete,
    });

    let text = out.text.clone();
    // The parent completion line should show "2 ecosystems"
    let lines: Vec<&str> = text.lines().collect();
    let done_line = lines
        .iter()
        .find(|l| l.contains("Non-RPM") && l.contains('\u{2713}'))
        .expect("should find NonRpmSoftware done line");
    assert!(
        done_line.contains("2 ecosystems"),
        "expected '2 ecosystems', got: {done_line}"
    );
}

#[test]
fn plain_nonrpm_zero_result_shows_none_found() {
    let mut out = test_renderer(false);

    out.handle(ProgressEvent::InspectorStarted(InspectorId::NonRpmSoftware));
    out.handle(ProgressEvent::ProbeStarted {
        inspector: InspectorId::NonRpmSoftware,
        probe: ProbeId::ElfBinaries,
    });
    out.handle(ProgressEvent::ProbeFinished {
        inspector: InspectorId::NonRpmSoftware,
        probe: ProbeId::ElfBinaries,
        outcome: ProbeOutcome::Empty,
    });
    out.handle(ProgressEvent::ProbeStarted {
        inspector: InspectorId::NonRpmSoftware,
        probe: ProbeId::PipPackages,
    });
    out.handle(ProgressEvent::ProbeFinished {
        inspector: InspectorId::NonRpmSoftware,
        probe: ProbeId::PipPackages,
        outcome: ProbeOutcome::Empty,
    });
    out.handle(ProgressEvent::InspectorFinished {
        id: InspectorId::NonRpmSoftware,
        outcome: InspectorOutcome::Complete,
    });

    let text = out.text.clone();
    let done_line = text
        .lines()
        .find(|l| l.contains("Non-RPM") && l.contains('\u{2713}'))
        .expect("should find NonRpmSoftware done line");
    assert!(
        done_line.contains("none found"),
        "expected 'none found', got: {done_line}"
    );
}

#[test]
fn plain_per_inspector_metric_isolation() {
    // Two inspectors active at once — RPM metric must not leak to Services.
    let mut out = test_renderer(false);

    out.handle(ProgressEvent::InspectorStarted(InspectorId::Rpm));
    out.handle(ProgressEvent::InspectorStarted(InspectorId::Services));

    out.handle(ProgressEvent::StepStarted {
        inspector: InspectorId::Rpm,
        step: StepId::QueryingPackages,
    });
    out.handle(ProgressEvent::Metric {
        inspector: InspectorId::Rpm,
        kind: MetricKind::PackagesFound,
        value: 500,
    });
    out.handle(ProgressEvent::StepFinished {
        inspector: InspectorId::Rpm,
        step: StepId::QueryingPackages,
        outcome: StepOutcome::Complete,
    });

    // Services finishes without any metric
    out.handle(ProgressEvent::InspectorFinished {
        id: InspectorId::Services,
        outcome: InspectorOutcome::Complete,
    });

    let text = out.text.clone();
    let lines: Vec<&str> = text.lines().collect();
    let svc_done = lines
        .iter()
        .find(|l| l.contains("Services") && l.contains('\u{2713}'))
        .expect("services done line");
    assert!(
        svc_done.contains("done"),
        "Services should say 'done' not inherit RPM metric, got: {svc_done}"
    );
}

#[test]
fn plain_color_symbols_per_outcome() {
    let mut out = test_renderer(true);

    // Skipped → dim
    out.handle(ProgressEvent::InspectorStarted(InspectorId::Selinux));
    out.handle(ProgressEvent::InspectorFinished {
        id: InspectorId::Selinux,
        outcome: InspectorOutcome::Skipped {
            reason: "disabled".to_string(),
        },
    });

    // Degraded → yellow
    out.handle(ProgressEvent::InspectorStarted(InspectorId::Storage));
    out.handle(ProgressEvent::InspectorFinished {
        id: InspectorId::Storage,
        outcome: InspectorOutcome::Degraded {
            reason: "partial".to_string(),
        },
    });

    // Failed → red
    out.handle(ProgressEvent::InspectorStarted(InspectorId::Containers));
    out.handle(ProgressEvent::InspectorFinished {
        id: InspectorId::Containers,
        outcome: InspectorOutcome::Failed {
            reason: "missing".to_string(),
        },
    });

    let text = out.text.clone();
    assert!(
        text.contains("\x1b[2m\u{2013}\x1b[0m"),
        "expected dim – for skipped"
    );
    assert!(
        text.contains("\x1b[33m~\x1b[0m"),
        "expected yellow ~ for degraded"
    );
    assert!(
        text.contains("\x1b[31m\u{2717}\x1b[0m"),
        "expected red ✗ for failed"
    );
}
