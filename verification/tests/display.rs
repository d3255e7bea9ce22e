use inspectah::progress::checklist::InspectorId;
use inspectah::progress::display::{display_names, display_order, probe_names, shows_elapsed, step_names};

#[test]
fn display_order_lists_every_inspector() {
    let order = display_order();
    assert_eq!(order.len(), 11);
    assert_eq!(order[0], (InspectorId::Rpm, "RPM packages".to_string()));
    assert_eq!(order[10], (InspectorId::NonRpmSoftware, "Non-RPM software".to_string()));
    assert_eq!(step_names()[4], "Verifying package integrity");
    assert_eq!(probe_names()[2], "Python virtualenvs");
    let n = display_names();
    assert_eq!((n.steps.len(), n.probes.len()), (9, 4));
}

#[test]
fn elapsed_shown_from_one_second() {
    assert!(!shows_elapsed(999));
    assert!(shows_elapsed(1000));
    assert!(shows_elapsed(65_432));
}
