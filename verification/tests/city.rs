use kubernation::city::{
    census_line, city_closes, city_title, diagnosis_lines, event_line, gauge_full, image_change_line,
    image_edit_open, image_edit_step, image_field, improvements_tail, owned_row, pod_label,
    pod_row_action, pod_tint, replica_step, replicas_tint, revision_line, revision_tint,
    rollback_control, rollout_line, slo_click, staged_replicas_note, status_line, step_target,
    target_source_tag, target_tint, treasury_summary, why_not_ready, BudgetState, Diagnosis,
    EventRow, ForwardBtn, OwnedRes, PodAct, PodRow, PodState, Revision, SloView, TargetSource, Tint,
};
use kubernation::screens::ClusterId;

fn status(state: BudgetState) -> SloView {
    SloView {
        state,
        samples: 100,
        target_pct: "99.0".into(),
        sli_pct: "99.50".into(),
        burn: "2.0".into(),
        budget: "50%".into(),
        source: TargetSource::Default,
    }
}

fn pod(name: &str, state: PodState, diag: Option<&str>) -> PodRow {
    PodRow {
        name: name.into(),
        state,
        reason: String::new(),
        restarts: 0,
        age: "5m".into(),
        usage: None,
        diag: diag.map(|d| Diagnosis { reason: d.into(), explain: "e".into(), hint: "h".into() }),
    }
}

#[test]
fn step_target_walks_tiers_and_clamps() {
    assert_eq!(step_target(9900, true), 9950);
    assert_eq!(step_target(9900, false), 9500);
    assert_eq!(step_target(9920, true), 9950);
    assert_eq!(step_target(9995, true), 9995);
    assert_eq!(step_target(9000, false), 9000);
}

#[test]
fn step_target_snaps_to_the_lower_of_two_equally_near_tiers() {
    assert_eq!(step_target(9700, true), 9900, "9700 is as near 9500 as 9900: it snaps to 9500");
    assert_eq!(step_target(0, true), 9500);
    assert_eq!(step_target(10000, false), 9990);
}

#[test]
fn target_source_tag_maps_source() {
    assert_eq!(target_source_tag(TargetSource::Manual).1, Tint::Warn);
    assert_eq!(target_source_tag(TargetSource::Annotation).0, "annotated");
    assert_eq!(target_source_tag(TargetSource::Default).0, "default");
    assert_eq!(target_tint(TargetSource::Manual), Tint::Warn);
    assert_eq!(target_tint(TargetSource::Default), Tint::Ink);
}

#[test]
fn treasury_summary_colours_by_budget_state() {
    assert_eq!(treasury_summary(None).1, Tint::Dim);
    let (t, c) = treasury_summary(Some(&status(BudgetState::Healthy)));
    assert_eq!(c, Tint::Good);
    assert!(t.contains("budget"));
    assert_eq!(treasury_summary(Some(&status(BudgetState::Warming))).1, Tint::Dim);
    assert_eq!(treasury_summary(Some(&status(BudgetState::Burning))).1, Tint::Warn);
    let (t, c) = treasury_summary(Some(&status(BudgetState::Breached)));
    assert_eq!(c, Tint::Crit);
    assert!(t.contains("exhausted"));
}

#[test]
fn treasury_lines_read_in_full() {
    assert_eq!(treasury_summary(None).0, "no SLO yet (just synced or scaled to zero)");
    assert_eq!(treasury_summary(Some(&status(BudgetState::Warming))).0, "warming up . 100 samples . target 99.0%");
    assert_eq!(treasury_summary(Some(&status(BudgetState::Healthy))).0, "50% budget . avail 99.50% / SLO 99.0%");
    assert_eq!(treasury_summary(Some(&status(BudgetState::Burning))).0, "50% budget . burning 2.0x . avail 99.50%");
}

#[test]
fn the_slo_controls_step_set_and_reset() {
    assert_eq!(slo_click(9900, TargetSource::Default, true, true, false, false), Some(Some(9500)));
    assert_eq!(slo_click(9900, TargetSource::Default, true, false, true, false), Some(Some(9950)));
    assert_eq!(slo_click(9900, TargetSource::Manual, true, false, false, true), Some(None));
    assert_eq!(slo_click(9900, TargetSource::Default, true, false, false, true), None, "reset needs an override");
    assert_eq!(slo_click(9900, TargetSource::Manual, false, true, true, true), None);
}

#[test]
fn the_title_names_the_world_only_when_paired() {
    assert_eq!(city_title("Deployment", "demo", "web", ClusterId::Hot, false), "Deployment demo/web");
    assert_eq!(city_title("Deployment", "demo", "web", ClusterId::Hot, true), "Deployment demo/web \u{2014} HOT");
    assert_eq!(city_title("Deployment", "demo", "web", ClusterId::Warm, true), "Deployment demo/web \u{2014} WARM");
}

#[test]
fn the_replica_stepper_never_goes_below_zero() {
    assert_eq!(replica_step(3, None, true), 4);
    assert_eq!(replica_step(3, Some(5), false), 4);
    assert_eq!(replica_step(0, None, false), 0);
    assert_eq!(replica_step(3, Some(0), false), 0);
    assert_eq!(staged_replicas_note(3, Some(5)), Some("staged  3 -> 5".to_string()));
    assert_eq!(staged_replicas_note(3, Some(3)), None);
    assert_eq!(staged_replicas_note(3, None), None);
    assert_eq!(replicas_tint(3, Some(5)), Tint::Warn);
    assert_eq!(replicas_tint(3, Some(3)), Tint::Ink);
}

#[test]
fn the_status_band_warns_while_replicas_are_missing() {
    assert_eq!(status_line(2, 2, 3, 3), ("2 ready . 2 available . 3 updated  /  3 desired".to_string(), Tint::Warn));
    assert_eq!(status_line(3, 3, 3, 3).1, Tint::Ink);
    assert!(gauge_full(3, 3));
    assert!(!gauge_full(0, 0));
    assert!(!gauge_full(2, 3));
}

#[test]
fn the_image_field_shows_the_edit_the_staged_image_or_an_invitation() {
    assert_eq!(image_field(Some("nginx:1"), Some("x"), true), ("nginx:1_".to_string(), Tint::Ink));
    let long = "r".repeat(50);
    assert_eq!(image_field(Some(&long), None, true).0, format!("{}_", "r".repeat(46)));
    assert_eq!(image_field(None, Some("nginx:2"), true), ("-> nginx:2".to_string(), Tint::Warn));
    assert_eq!(image_field(None, None, true), ("click to set image".to_string(), Tint::Dim));
    assert_eq!(image_field(None, None, false), ("(no container)".to_string(), Tint::Dim));
}

#[test]
fn typing_into_the_image_editor_skips_control_characters() {
    let (buf, stage) = image_edit_step("ngi", &vec!['n', '\u{7}', 'x'], false, false, &Some("app".into()));
    assert_eq!(buf, Some("nginx".to_string()));
    assert_eq!(stage, None);
    let (buf, _) = image_edit_step("nginx", &vec![], true, false, &Some("app".into()));
    assert_eq!(buf, Some("ngin".to_string()));
    let (buf, _) = image_edit_step("", &vec![], true, false, &None);
    assert_eq!(buf, Some(String::new()));
}

#[test]
fn enter_stages_the_trimmed_image_for_the_container() {
    let (buf, stage) = image_edit_step("  nginx:1.27 \t", &vec![], false, true, &Some("app".into()));
    assert_eq!(buf, None);
    assert_eq!(stage, Some(("app".to_string(), "nginx:1.27".to_string())));
    let (buf, stage) = image_edit_step(" \u{3000} ", &vec![], false, true, &Some("app".into()));
    assert_eq!((buf, stage), (None, None), "a blank image stages nothing");
    let (_, stage) = image_edit_step("nginx", &vec![], false, true, &None);
    assert_eq!(stage, None);
    assert_eq!(image_edit_open(true, true, true, Some("img")), Some("img".to_string()));
    assert_eq!(image_edit_open(true, true, false, None), None);
}

#[test]
fn the_why_line_prefers_a_failing_pod() {
    let pods = vec![pod("a", PodState::Pending, Some("pending")), pod("b", PodState::Failing, Some("crash"))];
    assert_eq!(why_not_ready(&pods), Some(1));
    let pods = vec![pod("a", PodState::Running, None), pod("b", PodState::Pending, Some("pending"))];
    assert_eq!(why_not_ready(&pods), Some(1));
    assert_eq!(why_not_ready(&vec![pod("a", PodState::Failing, None)]), None);
    let d = Diagnosis { reason: "CrashLoopBackOff".into(), explain: "exits 1".into(), hint: "check logs".into() };
    let (why, fix) = diagnosis_lines(&d);
    assert_eq!(why, ("why: CrashLoopBackOff - exits 1".to_string(), Tint::Warn));
    assert_eq!(fix, ("fix: check logs".to_string(), Tint::Dim));
}

#[test]
fn a_pod_row_reads_name_reason_restarts_age_and_usage() {
    let mut p = pod("web-7d4b-2", PodState::Failing, None);
    p.reason = "CrashLoopBackOff".into();
    p.restarts = 4;
    p.usage = Some("12m / 30Mi".into());
    assert_eq!(pod_label(&p), "web-7d4b-2  CrashLoopBackOff . r4 . 5m . 12m / 30Mi");
    let q = pod("a-very-long-pod-name-that-goes-on", PodState::Running, None);
    assert_eq!(pod_label(&q), "a-very-long-pod-name-~ . r0 . 5m");
    assert_eq!(pod_tint(PodState::Failing), Tint::Crit);
    assert_eq!(pod_tint(PodState::Pending), Tint::Ink);
}

#[test]
fn pod_row_buttons_take_precedence_over_the_log_click() {
    assert_eq!(pod_row_action(true, false, Some(ForwardBtn::Start), true, true, true, true), PodAct::Forward);
    assert_eq!(pod_row_action(true, false, Some(ForwardBtn::Stop), false, false, true, true), PodAct::StopForward);
    assert_eq!(pod_row_action(true, false, None, true, true, true, true), PodAct::Evict);
    assert_eq!(pod_row_action(true, false, None, false, true, true, true), PodAct::Inspect);
    assert_eq!(pod_row_action(true, false, None, false, false, true, false), PodAct::Log);
    assert_eq!(pod_row_action(true, false, None, false, false, true, true), PodAct::Nothing);
    assert_eq!(pod_row_action(true, true, None, true, false, true, false), PodAct::Nothing, "the image editor suppresses pod clicks");
    assert_eq!(pod_row_action(false, false, None, false, false, true, false), PodAct::Nothing);
}

#[test]
fn the_window_closes_on_a_click_that_did_not_act() {
    assert!(city_closes(true, false, true, true));
    assert!(city_closes(true, false, false, false));
    assert!(!city_closes(true, true, false, false));
    assert!(!city_closes(true, false, false, true));
    assert!(!city_closes(false, false, true, false));
}

#[test]
fn the_census_and_rollout_lines() {
    let owned = vec![
        OwnedRes { kind: "svc".into(), name: "web".into(), note: String::new() },
        OwnedRes { kind: "pvc".into(), name: "data".into(), note: "Pending".into() },
        OwnedRes { kind: "svc".into(), name: "web-h".into(), note: String::new() },
        OwnedRes { kind: "cm".into(), name: "conf".into(), note: String::new() },
    ];
    assert_eq!(census_line(3, &owned), "3 pods . 2 svc . 0 ingress . 1 PVC");
    assert_eq!(rollout_line("progressing", ""), "rollout progressing");
    assert_eq!(rollout_line("stalled", "deadline exceeded"), "rollout stalled (deadline exceeded)");
}

#[test]
fn improvements_align_kinds_and_flag_unbound_claims() {
    let row = owned_row(&OwnedRes { kind: "pvc".into(), name: "data".into(), note: "Pending".into() });
    assert_eq!(row.kind, "   pvc/");
    assert_eq!(row.note, Some("Pending".to_string()));
    assert_eq!(row.note_tint, Tint::Warn);
    let bound = owned_row(&OwnedRes { kind: "pvc".into(), name: "data".into(), note: "Bound".into() });
    assert_eq!(bound.note_tint, Tint::Dim);
    let secret = owned_row(&OwnedRes { kind: "secret".into(), name: "s".into(), note: String::new() });
    assert_eq!(secret.kind, "secret/");
    assert_eq!(secret.note, None);
    assert_eq!(improvements_tail(12), Some("+2 more".to_string()));
    assert_eq!(improvements_tail(0), Some("nothing owned".to_string()));
    assert_eq!(improvements_tail(10), None);
}

#[test]
fn history_marks_the_live_revision_and_the_staged_rollback() {
    let live = Revision { number: 7, current: true, age: "2h".into(), image: "web:2".into() };
    let old = Revision { number: 6, current: false, age: "1d".into(), image: "web:1".into() };
    assert_eq!(revision_line(&live), "rev 7 *  2h  web:2");
    assert_eq!(revision_line(&old), "rev 6    1d  web:1");
    assert_eq!(revision_tint(&live, None), Tint::Ink);
    assert_eq!(revision_tint(&old, None), Tint::Dim);
    assert_eq!(revision_tint(&old, Some(6)), Tint::Warn);
    assert_eq!(rollback_control(&live, None, true), None);
    assert_eq!(rollback_control(&old, None, true), Some(("rollback", Some(6))));
    assert_eq!(rollback_control(&old, Some(6), true), Some(("staged", None)));
    assert_eq!(image_change_line("app", Some("web:1"), None), "app: web:1 -> (none)");
}

#[test]
fn events_count_at_least_once() {
    let e = EventRow { reason: "BackOff".into(), count: 0, message: "restarting".into(), warning: true };
    assert_eq!(event_line(&e), ("BackOff x1 restarting".to_string(), Tint::Warn));
    let f = EventRow { reason: "Pulled".into(), count: 3, message: "ok".into(), warning: false };
    assert_eq!(event_line(&f), ("Pulled x3 ok".to_string(), Tint::Dim));
}
