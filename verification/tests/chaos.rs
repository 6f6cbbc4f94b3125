use kubernation::advisor::WorkloadRef;
use kubernation::chaos::{node_picker, workload_picker, PickRow, resolve_action, subject_eq, Chaos, ChaosAction, ChaosKind, Experiment, PartitionDir, Subject};

fn wr(n: &str) -> WorkloadRef {
    WorkloadRef { kind: "Deployment".into(), namespace: "demo".into(), name: n.into() }
}

#[test]
fn a_new_console_starts_on_an_outage_with_default_knobs() {
    let c = Chaos::new(Some(wr("web")));
    assert_eq!(c.kind, ChaosKind::Outage);
    assert_eq!(c.kill_pct, 50);
    assert_eq!(c.spike_factor, 3);
    assert_eq!(c.partition_dir, PartitionDir::Both);
    assert!(!c.auto_restore);
    assert!(matches!(c.experiment(), Some(Experiment::Outage { workload }) if workload == wr("web")));
}

#[test]
fn the_steppers_clamp_at_both_ends() {
    let mut c = Chaos::new(None);
    for _ in 0..20 {
        c.step_kill_pct(true);
        c.step_spike_factor(true);
    }
    assert_eq!(c.kill_pct, 100);
    assert_eq!(c.spike_factor, 10);
    for _ in 0..20 {
        c.step_kill_pct(false);
        c.step_spike_factor(false);
    }
    assert_eq!(c.kill_pct, 10);
    assert_eq!(c.spike_factor, 2);
    c.step_kill_pct(true);
    assert_eq!(c.kill_pct, 20);
}

#[test]
fn a_node_drill_needs_a_node_and_a_workload_drill_a_workload() {
    let mut c = Chaos::new(Some(wr("web")));
    c.set_kind(ChaosKind::NodeFailure);
    assert!(c.experiment().is_none(), "a workload target does not make a node drill");
    c.pick_node("n1".into());
    assert!(matches!(c.experiment(), Some(Experiment::NodeFailure { node }) if node == "n1"));
    c.set_kind(ChaosKind::CordonFreeze);
    assert!(matches!(c.experiment(), Some(Experiment::CordonFreeze { node }) if node == "n1"));
    let mut w = Chaos::new(None);
    w.pick_node("n1".into());
    w.set_kind(ChaosKind::KillOne);
    assert!(w.experiment().is_none(), "a node target does not make a workload drill");
}

#[test]
fn the_knobs_flow_into_the_experiment() {
    let mut c = Chaos::new(Some(wr("web")));
    c.set_kind(ChaosKind::KillPercent);
    c.step_kill_pct(false);
    assert!(matches!(c.experiment(), Some(Experiment::KillPercent { pct: 40, .. })));
    c.set_kind(ChaosKind::ScaleSpike);
    c.step_spike_factor(true);
    assert!(matches!(c.experiment(), Some(Experiment::ScaleSpike { factor: 4, .. })));
    c.set_kind(ChaosKind::Partition);
    c.set_partition_dir(PartitionDir::Egress);
    assert!(matches!(c.experiment(), Some(Experiment::Partition { dir: PartitionDir::Egress, .. })));
}

#[test]
fn the_scorecard_shows_only_for_the_selected_subject() {
    let mut c = Chaos::new(Some(wr("web")));
    assert!(c.shows_scorecard(&Subject::Workload(wr("web"))));
    assert!(!c.shows_scorecard(&Subject::Workload(wr("api"))));
    assert!(!c.shows_scorecard(&Subject::Node("web".into())));
    c.set_kind(ChaosKind::NodeFailure);
    assert!(!c.shows_scorecard(&Subject::Workload(wr("web"))));
    assert!(subject_eq(&Subject::Node("n".into()), &Subject::Node("n".into())));
}

#[test]
fn run_arms_auto_restore_only_when_restorable_and_ticked() {
    let mut c = Chaos::new(Some(wr("web")));
    assert!(matches!(c.runnable(false, true), Some((_, false))));
    c.toggle_auto_restore();
    assert!(matches!(c.runnable(false, true), Some((_, true))));
    assert!(matches!(c.runnable(false, false), Some((_, false))));
    assert!(c.runnable(true, true).is_none(), "a refused plan cannot run");
    assert!(Chaos::new(None).runnable(false, true).is_none());
}

#[test]
fn a_run_beats_a_restore_beats_a_close() {
    let c = Chaos::new(Some(wr("web")));
    assert!(matches!(resolve_action(c.runnable(false, false), true, true), ChaosAction::Run { .. }));
    assert!(matches!(resolve_action(None, true, true), ChaosAction::Restore));
    assert!(matches!(resolve_action(None, false, true), ChaosAction::Close));
    assert!(matches!(resolve_action(None, false, false), ChaosAction::Nothing));
}

#[test]
fn drill_kinds_parse_from_their_flags_and_carry_labels() {
    assert_eq!(ChaosKind::from_flag("kill-one"), Some(ChaosKind::KillOne));
    assert_eq!(ChaosKind::from_flag("cordon-freeze"), Some(ChaosKind::CordonFreeze));
    assert_eq!(ChaosKind::from_flag("nope"), None);
    assert_eq!(ChaosKind::all().len(), 9);
    assert_eq!(ChaosKind::Outage.label(), "Outage (scale to 0)");
    assert!(ChaosKind::NodeFailure.is_node());
    assert!(!ChaosKind::Partition.is_node());
    let subject = Experiment::KillAll { workload: wr("web") }.subject();
    assert!(matches!(subject, Subject::Workload(w) if w == wr("web")));
}

#[test]
fn the_workload_picker_skips_protected_namespaces_and_marks_the_target() {
    let sys = WorkloadRef { kind: "DaemonSet".into(), namespace: "kube-system".into(), name: "proxy".into() };
    let items = vec![(wr("web"), false), (sys, true), (wr("api"), false), (wr("a-very-long-workload-name-here"), false)];
    let (eligible, rows, more) = workload_picker(&items, &Some(wr("api")), 2);
    assert_eq!(eligible, vec![wr("web"), wr("api"), wr("a-very-long-workload-name-here")]);
    assert_eq!(
        rows,
        vec![
            PickRow { text: "Deployment demo/web".into(), chosen: false },
            PickRow { text: "Deployment demo/api".into(), chosen: true },
        ]
    );
    assert_eq!(more, Some("+1 more".to_string()));
    let (_, rows, more) = workload_picker(&items, &None, 5);
    assert_eq!(rows[2].text, "Deployment demo/a-very-long-workload-~");
    assert_eq!(more, None);
}

#[test]
fn the_node_picker_says_when_nothing_can_be_drained() {
    let (el, rows, note) = node_picker(&vec![("cp-1".into(), true)], &None, 3);
    assert!(el.is_empty() && rows.is_empty());
    assert_eq!(note, Some("no drainable nodes".to_string()));
    let items = vec![("n1".to_string(), false), ("cp-1".to_string(), true), ("n2".to_string(), false)];
    let (el, rows, note) = node_picker(&items, &Some("n2".into()), 1);
    assert_eq!(el, vec!["n1".to_string(), "n2".to_string()]);
    assert_eq!(rows.len(), 1);
    assert!(!rows[0].chosen);
    assert_eq!(note, Some("+1 more".to_string()));
}
