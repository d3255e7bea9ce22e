use inspectah::progress::checklist::{
    ChecklistState, InspectorId, InspectorOutcome, MetricKind, ProbeId, ProbeOutcome, ProbeRowState, ProgressEvent,
    RowState, StepId, StepOutcome,
};

const SPINNER: [char; 10] = ['\u{280b}', '\u{2819}', '\u{2839}', '\u{2838}', '\u{283c}', '\u{2834}', '\u{2826}', '\u{2827}', '\u{2807}', '\u{280f}'];

fn names(list: &[&str]) -> Vec<String> {
    list.iter().map(|s| s.to_string()).collect()
}

fn state_with(use_color: bool, height: usize) -> ChecklistState {
    let order = vec![
        (InspectorId::Rpm, "RPM packages".to_string()),
        (InspectorId::Services, "Services".to_string()),
        (InspectorId::Storage, "Storage".to_string()),
        (InspectorId::KernelBoot, "Kernel & boot".to_string()),
        (InspectorId::Network, "Network".to_string()),
        (InspectorId::Containers, "Containers".to_string()),
        (InspectorId::UsersGroups, "Users & groups".to_string()),
        (InspectorId::ScheduledTasks, "Scheduled tasks".to_string()),
        (InspectorId::Config, "Config files".to_string()),
        (InspectorId::Selinux, "SELinux".to_string()),
        (InspectorId::NonRpmSoftware, "Non-RPM software".to_string()),
    ];
    let steps = names(&[
        "Querying installed packages",
        "Classifying packages",
        "Resolving source repos",
        "Resolving dependency tree",
        "Verifying package integrity",
        "Mapping file ownership",
        "Applying rpm verification",
        "Walking filesystem",
        "Classifying configs",
    ]);
    let probes = names(&["pip packages", "npm packages", "Python virtualenvs", "ELF binaries"]);
    ChecklistState::new(order, steps, probes, use_color, height)
}

fn test_state() -> ChecklistState {
    state_with(false, 40)
}

fn ev(state: &mut ChecklistState, e: ProgressEvent) {
    state.handle_event(e, 1_000);
}

fn render(state: &ChecklistState) -> Vec<String> {
    let suffixes = vec![String::new(); state.rows.len()];
    state.render_lines(1_000, &suffixes)
}

#[test]
fn state_initializes_all_pending() {
    let state = test_state();
    assert_eq!(state.rows.len(), 11);
    for row in &state.rows {
        assert!(matches!(row.state, RowState::Pending));
    }
}

#[test]
fn state_transitions_active_and_complete() {
    let mut state = test_state();

    ev(&mut state, ProgressEvent::InspectorStarted(InspectorId::Rpm));
    assert!(matches!(state.rows[0].state, RowState::Active));
    assert!(state.rows[0].started_at_ms.is_some());

    ev(&mut state, ProgressEvent::InspectorFinished {
        id: InspectorId::Rpm,
        outcome: InspectorOutcome::Complete,
    });
    assert!(matches!(state.rows[0].state, RowState::Complete { .. }));
}

#[test]
fn state_transitions_skipped() {
    let mut state = test_state();
    ev(&mut state, ProgressEvent::InspectorStarted(InspectorId::Selinux));
    ev(&mut state, ProgressEvent::InspectorFinished {
        id: InspectorId::Selinux,
        outcome: InspectorOutcome::Skipped {
            reason: "disabled".to_string(),
        },
    });
    assert!(matches!(state.rows[9].state, RowState::Skipped { .. }));
}

#[test]
fn state_transitions_degraded() {
    let mut state = test_state();
    ev(&mut state, ProgressEvent::InspectorStarted(InspectorId::Storage));
    ev(&mut state, ProgressEvent::InspectorFinished {
        id: InspectorId::Storage,
        outcome: InspectorOutcome::Degraded {
            reason: "lsblk partial".to_string(),
        },
    });
    assert!(matches!(state.rows[2].state, RowState::Degraded { .. }));
}

#[test]
fn state_transitions_failed() {
    let mut state = test_state();
    ev(&mut state, ProgressEvent::InspectorStarted(InspectorId::Containers));
    ev(&mut state, ProgressEvent::InspectorFinished {
        id: InspectorId::Containers,
        outcome: InspectorOutcome::Failed {
            reason: "podman not found".to_string(),
        },
    });
    assert!(matches!(state.rows[5].state, RowState::Failed { .. }));
}

#[test]
fn state_transitions_interrupted() {
    let mut state = test_state();
    ev(&mut state, ProgressEvent::InspectorStarted(InspectorId::Network));
    ev(&mut state, ProgressEvent::InspectorFinished {
        id: InspectorId::Network,
        outcome: InspectorOutcome::Interrupted,
    });
    assert!(matches!(state.rows[4].state, RowState::Interrupted));
}

#[test]
fn sub_steps_tracked() {
    let mut state = test_state();
    ev(&mut state, ProgressEvent::InspectorStarted(InspectorId::Rpm));
    ev(&mut state, ProgressEvent::StepStarted {
        inspector: InspectorId::Rpm,
        step: StepId::QueryingPackages,
    });
    assert_eq!(state.rows[0].sub_steps.len(), 6); // pre-populated
    assert!(matches!(state.rows[0].sub_steps[0].state, RowState::Active));

    ev(&mut state, ProgressEvent::Metric {
        inspector: InspectorId::Rpm,
        kind: MetricKind::PackagesFound,
        value: 847,
    });
    ev(&mut state, ProgressEvent::StepFinished {
        inspector: InspectorId::Rpm,
        step: StepId::QueryingPackages,
        outcome: StepOutcome::Complete,
    });
    assert!(matches!(
        state.rows[0].sub_steps[0].state,
        RowState::Complete { .. }
    ));
    assert_eq!(
        state.rows[0].sub_steps[0].metric,
        Some((MetricKind::PackagesFound, 847))
    );
}

#[test]
fn probe_disappearing_empties() {
    let mut state = test_state();
    ev(&mut state, ProgressEvent::InspectorStarted(InspectorId::NonRpmSoftware));

    // Start two probes
    ev(&mut state, ProgressEvent::ProbeStarted {
        inspector: InspectorId::NonRpmSoftware,
        probe: ProbeId::PipPackages,
    });
    ev(&mut state, ProgressEvent::ProbeStarted {
        inspector: InspectorId::NonRpmSoftware,
        probe: ProbeId::ElfBinaries,
    });
    assert_eq!(state.rows[10].probes.len(), 2);

    // Finish one as Empty — it should disappear
    ev(&mut state, ProgressEvent::ProbeFinished {
        inspector: InspectorId::NonRpmSoftware,
        probe: ProbeId::ElfBinaries,
        outcome: ProbeOutcome::Empty,
    });
    assert_eq!(state.rows[10].probes.len(), 1);
    assert_eq!(state.rows[10].probes[0].probe, ProbeId::PipPackages);

    // Finish the other as Found
    ev(&mut state, ProgressEvent::ProbeFinished {
        inspector: InspectorId::NonRpmSoftware,
        probe: ProbeId::PipPackages,
        outcome: ProbeOutcome::Found { count: 12 },
    });
    assert_eq!(state.rows[10].probes.len(), 1);
    assert!(matches!(
        state.rows[10].probes[0].state,
        ProbeRowState::Found { count: 12 }
    ));
}

#[test]
fn render_lines_pending_format() {
    let state = test_state();
    let lines = render(&state);

    // All 11 inspectors should have lines
    assert_eq!(lines.len(), 11);

    // Pending lines use ◌ (dotted circle)
    assert!(
        lines[0].contains('\u{25cc}'),
        "expected ◌ for pending, got: {}",
        lines[0]
    );
    // Rich mode uses glyphs, not [n/total] numbering
    assert!(
        !lines[0].contains("["),
        "rich mode should not have [n/N] numbering, got: {}",
        lines[0]
    );
    assert!(
        lines[0].contains("RPM packages"),
        "expected inspector name, got: {}",
        lines[0]
    );
}

#[test]
fn render_lines_active_has_spinner() {
    let mut state = test_state();
    ev(&mut state, ProgressEvent::InspectorStarted(InspectorId::Rpm));

    let lines = render(&state);
    // Active line should have the spinner character (tick_count=0 → first frame)
    let spinner_char = SPINNER[0];
    assert!(
        lines[0].contains(spinner_char),
        "expected spinner char '{spinner_char}', got: {}",
        lines[0]
    );
}

#[test]
fn render_lines_complete_symbols() {
    let mut state = test_state();
    ev(&mut state, ProgressEvent::InspectorStarted(InspectorId::Rpm));
    ev(&mut state, ProgressEvent::InspectorFinished {
        id: InspectorId::Rpm,
        outcome: InspectorOutcome::Complete,
    });

    let lines = render(&state);
    assert!(
        lines[0].contains('\u{2713}'),
        "expected checkmark for complete, got: {}",
        lines[0]
    );
    assert!(
        lines[0].contains("done"),
        "expected 'done' suffix, got: {}",
        lines[0]
    );
}

#[test]
fn render_lines_sub_steps_indented() {
    let mut state = test_state();
    ev(&mut state, ProgressEvent::InspectorStarted(InspectorId::Rpm));
    ev(&mut state, ProgressEvent::StepStarted {
        inspector: InspectorId::Rpm,
        step: StepId::QueryingPackages,
    });
    ev(&mut state, ProgressEvent::Metric {
        inspector: InspectorId::Rpm,
        kind: MetricKind::PackagesFound,
        value: 500,
    });
    ev(&mut state, ProgressEvent::StepFinished {
        inspector: InspectorId::Rpm,
        step: StepId::QueryingPackages,
        outcome: StepOutcome::Complete,
    });

    let lines = render(&state);
    // Line 0 is the RPM inspector, lines 1..6 are 6 pre-populated sub-steps
    assert_eq!(lines.len(), 17); // 11 inspectors + 6 RPM sub-steps

    // First sub-step line should be indented with 7 spaces
    assert!(
        lines[1].starts_with("       "),
        "expected 7-space indent, got: {:?}",
        lines[1]
    );
    assert!(
        lines[1].contains("500 found"),
        "expected metric suffix, got: {}",
        lines[1]
    );
}

#[test]
fn render_lines_probe_found() {
    let mut state = test_state();
    ev(&mut state, ProgressEvent::InspectorStarted(InspectorId::NonRpmSoftware));
    ev(&mut state, ProgressEvent::ProbeStarted {
        inspector: InspectorId::NonRpmSoftware,
        probe: ProbeId::PipPackages,
    });
    ev(&mut state, ProgressEvent::ProbeFinished {
        inspector: InspectorId::NonRpmSoftware,
        probe: ProbeId::PipPackages,
        outcome: ProbeOutcome::Found { count: 7 },
    });

    let lines = render(&state);
    // Line for the probe should show checkmark and count
    let probe_line = lines
        .iter()
        .find(|l| l.contains("pip packages"))
        .expect("should have pip packages line");
    assert!(
        probe_line.contains("7 found"),
        "expected '7 found', got: {probe_line}"
    );
    assert!(
        probe_line.contains('\u{2713}'),
        "expected checkmark, got: {probe_line}"
    );
}

#[test]
fn overflow_hides_pending() {
    // With terminal_height=10, max_lines=8.
    // 11 inspectors all pending = overflow.
    let state = state_with(false, 10);
    let lines = render(&state);

    // Should be truncated — fewer lines than 11
    assert!(
        lines.len() < 11,
        "expected overflow truncation, got {} lines",
        lines.len()
    );

    // Last line should be the "... and N more" footer
    let last = lines.last().expect("should have lines");
    assert!(
        last.contains("...") && last.contains("more"),
        "expected overflow footer, got: {last}"
    );
}

#[test]
fn overflow_shows_active_over_pending() {
    // Terminal with 10 lines = max_lines 8.
    let mut state = state_with(false, 10);

    // Activate the first 3 inspectors (they become Active, not Pending)
    ev(&mut state, ProgressEvent::InspectorStarted(InspectorId::Rpm));
    ev(&mut state, ProgressEvent::InspectorStarted(InspectorId::Services));
    ev(&mut state, ProgressEvent::InspectorStarted(InspectorId::Storage));

    let lines = render(&state);

    // Active lines should appear (they have spinner)
    let active_count = lines.iter().filter(|l| l.contains(SPINNER[0])).count();
    assert_eq!(active_count, 3, "expected 3 active lines with spinners");

    // Should still have the overflow footer
    let last = lines.last().expect("should have lines");
    assert!(
        last.contains("..."),
        "expected overflow footer, got: {last}"
    );
}

#[test]
fn tick_advances_spinner() {
    let mut state = test_state();
    ev(&mut state, ProgressEvent::InspectorStarted(InspectorId::Rpm));

    let lines_0 = render(&state);
    state.tick();
    let lines_1 = render(&state);

    // The spinner character should change between ticks
    assert_ne!(
        lines_0[0], lines_1[0],
        "spinner frame should change on tick"
    );
}

#[test]
fn all_outcome_symbols_rendered() {
    let mut state = test_state();

    // Complete
    ev(&mut state, ProgressEvent::InspectorStarted(InspectorId::Rpm));
    ev(&mut state, ProgressEvent::InspectorFinished {
        id: InspectorId::Rpm,
        outcome: InspectorOutcome::Complete,
    });

    // Skipped
    ev(&mut state, ProgressEvent::InspectorStarted(InspectorId::Selinux));
    ev(&mut state, ProgressEvent::InspectorFinished {
        id: InspectorId::Selinux,
        outcome: InspectorOutcome::Skipped {
            reason: "disabled".to_string(),
        },
    });

    // Degraded
    ev(&mut state, ProgressEvent::InspectorStarted(InspectorId::Storage));
    ev(&mut state, ProgressEvent::InspectorFinished {
        id: InspectorId::Storage,
        outcome: InspectorOutcome::Degraded {
            reason: "partial".to_string(),
        },
    });

    // Failed
    ev(&mut state, ProgressEvent::InspectorStarted(InspectorId::Containers));
    ev(&mut state, ProgressEvent::InspectorFinished {
        id: InspectorId::Containers,
        outcome: InspectorOutcome::Failed {
            reason: "podman missing".to_string(),
        },
    });

    // Interrupted
    ev(&mut state, ProgressEvent::InspectorStarted(InspectorId::Network));
    ev(&mut state, ProgressEvent::InspectorFinished {
        id: InspectorId::Network,
        outcome: InspectorOutcome::Interrupted,
    });

    let lines = render(&state);
    let joined = lines.join("\n");

    assert!(joined.contains('\u{2713}'), "missing checkmark (complete)");
    assert!(joined.contains('\u{2013}'), "missing en-dash (skipped)");
    assert!(joined.contains('~'), "missing tilde (degraded)");
    assert!(joined.contains('\u{2717}'), "missing cross (failed)");
    assert!(joined.contains('\u{25a0}'), "missing square (interrupted)");
}

#[test]
fn no_color_mode_has_no_ansi() {
    let mut state = state_with(false, 40);
    ev(&mut state, ProgressEvent::InspectorStarted(InspectorId::Rpm));
    ev(&mut state, ProgressEvent::InspectorFinished {
        id: InspectorId::Rpm,
        outcome: InspectorOutcome::Complete,
    });

    let lines = render(&state);
    let joined = lines.join("\n");
    assert!(
        !joined.contains("\x1b["),
        "found ANSI escape in no-color mode: {joined}"
    );
}

#[test]
fn color_mode_has_ansi() {
    let mut state = state_with(true, 40);
    ev(&mut state, ProgressEvent::InspectorStarted(InspectorId::Rpm));
    ev(&mut state, ProgressEvent::InspectorFinished {
        id: InspectorId::Rpm,
        outcome: InspectorOutcome::Complete,
    });

    let lines = render(&state);
    let joined = lines.join("\n");
    assert!(
        joined.contains("\x1b["),
        "expected ANSI escape in color mode: {joined}"
    );
}

#[test]
fn metric_labels_match_spec() {
    let mut state = test_state();
    ev(&mut state, ProgressEvent::InspectorStarted(InspectorId::Rpm));

    // Step with PackagesFound
    ev(&mut state, ProgressEvent::StepStarted {
        inspector: InspectorId::Rpm,
        step: StepId::QueryingPackages,
    });
    ev(&mut state, ProgressEvent::Metric {
        inspector: InspectorId::Rpm,
        kind: MetricKind::PackagesFound,
        value: 847,
    });
    ev(&mut state, ProgressEvent::StepFinished {
        inspector: InspectorId::Rpm,
        step: StepId::QueryingPackages,
        outcome: StepOutcome::Complete,
    });

    // Step with ReposMapped
    ev(&mut state, ProgressEvent::StepStarted {
        inspector: InspectorId::Rpm,
        step: StepId::ResolvingSourceRepos,
    });
    ev(&mut state, ProgressEvent::Metric {
        inspector: InspectorId::Rpm,
        kind: MetricKind::ReposMapped,
        value: 8,
    });
    ev(&mut state, ProgressEvent::StepFinished {
        inspector: InspectorId::Rpm,
        step: StepId::ResolvingSourceRepos,
        outcome: StepOutcome::Complete,
    });

    // Finish RPM inspector — last metric was ReposMapped
    ev(&mut state, ProgressEvent::InspectorFinished {
        id: InspectorId::Rpm,
        outcome: InspectorOutcome::Complete,
    });

    let lines = render(&state);
    let joined = lines.join("\n");

    assert!(
        joined.contains("847 found"),
        "PackagesFound should say '847 found', got: {joined}"
    );
    assert!(
        joined.contains("8 repos mapped"),
        "ReposMapped should say '8 repos mapped', got: {joined}"
    );
    // Parent completion line should show last metric (no [n/N] numbering in rich mode)
    let rpm_line = lines
        .iter()
        .find(|l| l.contains("RPM packages") && l.contains('\u{2713}'))
        .expect("RPM done line");
    assert!(
        rpm_line.contains("8 repos mapped"),
        "parent completion should show last metric, got: {rpm_line}"
    );
    assert!(
        !rpm_line.contains("["),
        "rich mode should not have numbering, got: {rpm_line}"
    );
}

#[test]
fn metric_resets_between_steps() {
    let mut state = test_state();
    ev(&mut state, ProgressEvent::InspectorStarted(InspectorId::Rpm));

    // Step 1 with metric
    ev(&mut state, ProgressEvent::StepStarted {
        inspector: InspectorId::Rpm,
        step: StepId::QueryingPackages,
    });
    ev(&mut state, ProgressEvent::Metric {
        inspector: InspectorId::Rpm,
        kind: MetricKind::PackagesFound,
        value: 847,
    });
    ev(&mut state, ProgressEvent::StepFinished {
        inspector: InspectorId::Rpm,
        step: StepId::QueryingPackages,
        outcome: StepOutcome::Complete,
    });

    // Step 2 without metric
    ev(&mut state, ProgressEvent::StepStarted {
        inspector: InspectorId::Rpm,
        step: StepId::ClassifyingPackages,
    });
    ev(&mut state, ProgressEvent::StepFinished {
        inspector: InspectorId::Rpm,
        step: StepId::ClassifyingPackages,
        outcome: StepOutcome::Complete,
    });

    // Step 1 should have metric, step 2 should say "done"
    let lines = render(&state);
    let step1_line = lines
        .iter()
        .find(|l| l.contains("Querying"))
        .expect("querying line");
    let step2_line = lines
        .iter()
        .find(|l| l.contains("Classifying"))
        .expect("classifying line");

    assert!(
        step1_line.contains("847 found"),
        "step 1 should have metric, got: {step1_line}"
    );
    assert!(
        step2_line.contains("done"),
        "step 2 should say 'done', got: {step2_line}"
    );
}

#[test]
fn rpm_substeps_visible_upfront() {
    let mut state = test_state();
    ev(&mut state, ProgressEvent::InspectorStarted(InspectorId::Rpm));

    let rpm_row = state
        .rows
        .iter()
        .find(|r| r.id == InspectorId::Rpm)
        .unwrap();
    assert_eq!(
        rpm_row.sub_steps.len(),
        6,
        "RPM should have 6 pre-populated sub-steps"
    );
    assert!(
        rpm_row
            .sub_steps
            .iter()
            .all(|s| matches!(s.state, RowState::Pending)),
        "all RPM sub-steps should start as Pending"
    );
}

#[test]
fn config_substeps_visible_upfront() {
    let mut state = test_state();
    ev(&mut state, ProgressEvent::InspectorStarted(InspectorId::Config));

    let cfg_row = state
        .rows
        .iter()
        .find(|r| r.id == InspectorId::Config)
        .unwrap();
    assert_eq!(
        cfg_row.sub_steps.len(),
        3,
        "Config should have 3 pre-populated sub-steps"
    );
    assert!(
        cfg_row
            .sub_steps
            .iter()
            .all(|s| matches!(s.state, RowState::Pending)),
        "all Config sub-steps should start as Pending"
    );
}

#[test]
fn step_started_transitions_prepopulated_row() {
    let mut state = test_state();
    ev(&mut state, ProgressEvent::InspectorStarted(InspectorId::Rpm));

    // StepStarted should transition the pre-populated Pending row
    // to Active, not push a duplicate.
    ev(&mut state, ProgressEvent::StepStarted {
        inspector: InspectorId::Rpm,
        step: StepId::QueryingPackages,
    });
    assert_eq!(
        state.rows[0].sub_steps.len(),
        6,
        "should not push a duplicate"
    );
    assert!(matches!(state.rows[0].sub_steps[0].state, RowState::Active));
    // Remaining sub-steps stay Pending.
    assert!(matches!(
        state.rows[0].sub_steps[1].state,
        RowState::Pending
    ));
}

#[test]
fn interrupted_parent_reconciles_children() {
    let mut state = test_state();
    ev(&mut state, ProgressEvent::InspectorStarted(InspectorId::Rpm));

    // Complete the first step normally
    ev(&mut state, ProgressEvent::StepStarted {
        inspector: InspectorId::Rpm,
        step: StepId::QueryingPackages,
    });
    ev(&mut state, ProgressEvent::StepFinished {
        inspector: InspectorId::Rpm,
        step: StepId::QueryingPackages,
        outcome: StepOutcome::Complete,
    });

    // Start the second step (it becomes Active)
    ev(&mut state, ProgressEvent::StepStarted {
        inspector: InspectorId::Rpm,
        step: StepId::ClassifyingPackages,
    });

    // Parent finishes as Interrupted without finishing remaining steps
    ev(&mut state, ProgressEvent::InspectorFinished {
        id: InspectorId::Rpm,
        outcome: InspectorOutcome::Interrupted,
    });

    let rpm_row = state
        .rows
        .iter()
        .find(|r| r.id == InspectorId::Rpm)
        .unwrap();

    // Step 0 (QueryingPackages) was already Complete — stays Complete
    assert!(
        matches!(rpm_row.sub_steps[0].state, RowState::Complete { .. }),
        "completed step should stay complete"
    );
    // Step 1 (ClassifyingPackages) was Active → Interrupted
    assert!(
        matches!(rpm_row.sub_steps[1].state, RowState::Interrupted),
        "active step should become interrupted"
    );
    // Steps 2..5 were Pending → Interrupted
    for sub in &rpm_row.sub_steps[2..] {
        assert!(
            matches!(sub.state, RowState::Interrupted),
            "pending step {:?} should become interrupted, got {:?}",
            sub.step,
            sub.state
        );
    }
}

#[test]
fn failed_parent_reconciles_children() {
    let mut state = test_state();
    ev(&mut state, ProgressEvent::InspectorStarted(InspectorId::Config));

    // Start but don't finish any steps
    ev(&mut state, ProgressEvent::StepStarted {
        inspector: InspectorId::Config,
        step: StepId::ApplyingRpmVerification,
    });

    // Parent fails
    ev(&mut state, ProgressEvent::InspectorFinished {
        id: InspectorId::Config,
        outcome: InspectorOutcome::Failed {
            reason: "rpm -Va crashed".to_string(),
        },
    });

    let cfg_row = state
        .rows
        .iter()
        .find(|r| r.id == InspectorId::Config)
        .unwrap();

    // Active step → Failed
    assert!(
        matches!(cfg_row.sub_steps[0].state, RowState::Failed { .. }),
        "active step should become failed"
    );
    // Pending steps → Failed
    for sub in &cfg_row.sub_steps[1..] {
        assert!(
            matches!(sub.state, RowState::Failed { .. }),
            "pending step {:?} should become failed, got {:?}",
            sub.step,
            sub.state
        );
    }
}

#[test]
fn complete_parent_reconciles_remaining_pending() {
    let mut state = test_state();
    ev(&mut state, ProgressEvent::InspectorStarted(InspectorId::Rpm));

    // Complete only the first step
    ev(&mut state, ProgressEvent::StepStarted {
        inspector: InspectorId::Rpm,
        step: StepId::QueryingPackages,
    });
    ev(&mut state, ProgressEvent::StepFinished {
        inspector: InspectorId::Rpm,
        step: StepId::QueryingPackages,
        outcome: StepOutcome::Complete,
    });

    // Parent completes (remaining sub-steps never fired individually)
    ev(&mut state, ProgressEvent::InspectorFinished {
        id: InspectorId::Rpm,
        outcome: InspectorOutcome::Complete,
    });

    let rpm_row = state
        .rows
        .iter()
        .find(|r| r.id == InspectorId::Rpm)
        .unwrap();

    // Remaining pending sub-steps should be swept to Complete
    for sub in &rpm_row.sub_steps[1..] {
        assert!(
            matches!(sub.state, RowState::Complete { .. }),
            "pending step {:?} should become complete on parent complete, got {:?}",
            sub.step,
            sub.state
        );
    }
}

#[test]
fn non_substep_inspector_unaffected() {
    // Inspectors without pre-populated sub-steps (e.g., Services)
    // should not have any sub-steps added by InspectorStarted.
    let mut state = test_state();
    ev(&mut state, ProgressEvent::InspectorStarted(InspectorId::Services));

    let svc_row = state
        .rows
        .iter()
        .find(|r| r.id == InspectorId::Services)
        .unwrap();
    assert!(
        svc_row.sub_steps.is_empty(),
        "Services should have no sub-steps"
    );
}

#[test]
fn rich_no_numbering_in_output() {
    // Rich mode uses glyphs, not [n/N] numbering (that's flat mode).
    let mut state = test_state();
    ev(&mut state, ProgressEvent::InspectorStarted(InspectorId::Rpm));
    ev(&mut state, ProgressEvent::InspectorFinished {
        id: InspectorId::Rpm,
        outcome: InspectorOutcome::Complete,
    });
    ev(&mut state, ProgressEvent::InspectorStarted(InspectorId::Selinux));
    ev(&mut state, ProgressEvent::InspectorFinished {
        id: InspectorId::Selinux,
        outcome: InspectorOutcome::Skipped {
            reason: "disabled".to_string(),
        },
    });

    let lines = render(&state);
    for line in &lines {
        assert!(
            !line.contains("[") || line.contains("..."),
            "rich mode should not use [n/N] numbering, got: {line}"
        );
    }
}

#[test]
fn nonrpm_ecosystems_count() {
    // NonRpmSoftware completion line should show "N ecosystems".
    let mut state = test_state();
    ev(&mut state, ProgressEvent::InspectorStarted(InspectorId::NonRpmSoftware));

    // Two probes find results, one is empty
    ev(&mut state, ProgressEvent::ProbeStarted {
        inspector: InspectorId::NonRpmSoftware,
        probe: ProbeId::PipPackages,
    });
    ev(&mut state, ProgressEvent::ProbeFinished {
        inspector: InspectorId::NonRpmSoftware,
        probe: ProbeId::PipPackages,
        outcome: ProbeOutcome::Found { count: 12 },
    });
    ev(&mut state, ProgressEvent::ProbeStarted {
        inspector: InspectorId::NonRpmSoftware,
        probe: ProbeId::NpmPackages,
    });
    ev(&mut state, ProgressEvent::ProbeFinished {
        inspector: InspectorId::NonRpmSoftware,
        probe: ProbeId::NpmPackages,
        outcome: ProbeOutcome::Found { count: 5 },
    });
    ev(&mut state, ProgressEvent::ProbeStarted {
        inspector: InspectorId::NonRpmSoftware,
        probe: ProbeId::ElfBinaries,
    });
    ev(&mut state, ProgressEvent::ProbeFinished {
        inspector: InspectorId::NonRpmSoftware,
        probe: ProbeId::ElfBinaries,
        outcome: ProbeOutcome::Empty,
    });

    ev(&mut state, ProgressEvent::InspectorFinished {
        id: InspectorId::NonRpmSoftware,
        outcome: InspectorOutcome::Complete,
    });

    let lines = render(&state);
    let nonrpm_line = lines
        .iter()
        .find(|l| l.contains("Non-RPM") && l.contains('\u{2713}'))
        .expect("should have NonRpmSoftware done line");
    assert!(
        nonrpm_line.contains("2 ecosystems"),
        "expected '2 ecosystems', got: {nonrpm_line}"
    );
}

#[test]
fn nonrpm_zero_ecosystems() {
    // When all probes are empty, show "none found" (not "0 ecosystems").
    let mut state = test_state();
    ev(&mut state, ProgressEvent::InspectorStarted(InspectorId::NonRpmSoftware));

    ev(&mut state, ProgressEvent::ProbeStarted {
        inspector: InspectorId::NonRpmSoftware,
        probe: ProbeId::ElfBinaries,
    });
    ev(&mut state, ProgressEvent::ProbeFinished {
        inspector: InspectorId::NonRpmSoftware,
        probe: ProbeId::ElfBinaries,
        outcome: ProbeOutcome::Empty,
    });

    ev(&mut state, ProgressEvent::InspectorFinished {
        id: InspectorId::NonRpmSoftware,
        outcome: InspectorOutcome::Complete,
    });

    let lines = render(&state);
    let nonrpm_line = lines
        .iter()
        .find(|l| l.contains("Non-RPM") && l.contains('\u{2713}'))
        .expect("should have NonRpmSoftware done line");
    assert!(
        nonrpm_line.contains("none found"),
        "expected 'none found', got: {nonrpm_line}"
    );
}

#[test]
fn cut_block_keeps_order_and_counts_hidden_lines() {
    let mut state = state_with(false, 6);
    ev(&mut state, ProgressEvent::InspectorStarted(InspectorId::Storage));
    ev(&mut state, ProgressEvent::InspectorStarted(InspectorId::Services));
    ev(&mut state, ProgressEvent::InspectorFinished { id: InspectorId::Services, outcome: InspectorOutcome::Complete });
    let lines = render(&state);
    assert_eq!(lines.len(), 3);
    assert!(lines[0].contains("Services"));
    assert!(lines[1].contains("Storage"));
    assert_eq!(lines[2], "  \u{00b7} ... and 9 more");
}

#[test]
fn events_keep_rows_and_names() {
    let mut state = test_state();
    let before: Vec<(InspectorId, String)> = state.rows.iter().map(|r| (r.id, r.name.clone())).collect();
    ev(&mut state, ProgressEvent::InspectorStarted(InspectorId::Network));
    ev(&mut state, ProgressEvent::Metric { inspector: InspectorId::Network, kind: MetricKind::PackagesFound, value: 3 });
    ev(&mut state, ProgressEvent::InspectorFinished { id: InspectorId::Network, outcome: InspectorOutcome::Interrupted });
    let after: Vec<(InspectorId, String)> = state.rows.iter().map(|r| (r.id, r.name.clone())).collect();
    assert_eq!(before, after);
    assert_eq!(state.rows.len(), 11);
}
