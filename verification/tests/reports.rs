use kubernation::advisor::{walls_lines, NetpolReport, OpenNamespace, RsRole, WorkloadRef};
use kubernation::cost::{cost_lines, CostBasis, CostMode, CostReport, NamespaceCost, WorkloadCost};
use kubernation::reports::{
    hardening_lines, hf_summary, posture_lines, tier_role, Axis, AxisScore, Factor, FactorKind,
    Finding, HardeningReport, PostureReport, PostureTier, Severity, WorkloadFindings,
};
use kubernation::rightsizing::{
    basis_note, rightsizing_lines, rs_row_line, RightSizingReport, RsResource, RsRow, RsVerdict,
    UsageBasis,
};

fn wr(n: &str) -> WorkloadRef {
    WorkloadRef { kind: "Deployment".into(), namespace: "demo".into(), name: n.into() }
}

fn empty_netpol() -> NetpolReport {
    NetpolReport {
        workloads: 0,
        walled_ingress: 0,
        policies: 0,
        unwalled_exposed: vec![],
        unwalled_unexposed: 0,
        open_namespaces: vec![],
        egress_isolated: 0,
    }
}

fn res(verdict: RsVerdict) -> RsResource {
    RsResource {
        verdict,
        request: String::new(),
        usage: String::new(),
        peak: String::new(),
        suggested: None,
        note: None,
    }
}

fn over_row(name: &str) -> RsRow {
    RsRow {
        kind: "Deployment".into(),
        namespace: "demo".into(),
        name: name.into(),
        qos: "Burstable".into(),
        measured_pods: 1,
        running_pods: 1,
        cpu: RsResource {
            request: "500m".into(),
            usage: "50m".into(),
            suggested: Some("80m".into()),
            ..res(RsVerdict::Over)
        },
        mem: res(RsVerdict::RightSized),
        basis: UsageBasis::Latest,
    }
}

fn rs_report() -> RightSizingReport {
    RightSizingReport {
        metrics_available: true,
        reclaimable_cpu: "0".into(),
        reclaimable_mem: "0".into(),
        node_equiv: None,
        over: vec![],
        under: vec![],
        unrequested: vec![],
        right_sized_count: 0,
        unmeasured: 0,
    }
}

fn empty_hardening() -> HardeningReport {
    HardeningReport {
        critical: vec![],
        warning: vec![],
        info: vec![],
        workloads_clean: 0,
        workloads_total: 0,
        unresolved: 0,
        counts_by_standard: vec![],
    }
}

fn empty_cost() -> CostReport {
    CostReport {
        mode: CostMode::Unitless,
        basis: CostBasis::Rates,
        nodes_priced: 0,
        total_positive: false,
        total_monthly: String::new(),
        idle_pct: String::new(),
        idle_monthly: String::new(),
        idle_warn: false,
        idle_meaning: String::new(),
        metrics_available: false,
        by_namespace: vec![],
        top_workloads: vec![],
    }
}

#[test]
fn walls_lines_headline_axes_and_finding_first() {
    let report = NetpolReport {
        policies: 1,
        workloads: 3,
        walled_ingress: 1,
        egress_isolated: 0,
        unwalled_exposed: vec![wr("web")],
        unwalled_unexposed: 1,
        open_namespaces: vec![OpenNamespace { namespace: "wild".into(), workloads: 2 }],
    };
    let lines = walls_lines(&report);
    assert!(lines[0].1 == RsRole::Headline);
    assert!(lines[0].0.contains("1/3 cities walled") && lines[0].0.contains("1 unwalled & exposed"));
    assert!(lines.iter().any(|(s, r)| s.contains("demo/web") && *r == RsRole::Crit));
    assert!(lines.iter().any(|(s, r)| s.contains("wild") && *r == RsRole::Warn));
    assert!(lines.iter().any(|(s, _)| s.contains("enforcement not verified")));
}

#[test]
fn walls_lines_all_walled_is_good() {
    let report = NetpolReport { policies: 2, workloads: 2, walled_ingress: 2, ..empty_netpol() };
    let lines = walls_lines(&report);
    assert!(lines.iter().any(|(s, r)| s.contains("no exposed city is unwalled") && *r == RsRole::Good));
}

#[test]
fn walls_lines_on_an_empty_cluster_are_never_green() {
    let lines = walls_lines(&empty_netpol());
    assert!(lines.iter().any(|(s, r)| s == "no workloads to evaluate" && *r == RsRole::Dim));
    assert!(!lines.iter().any(|(_, r)| *r == RsRole::Good));
}

#[test]
fn walls_lines_cap_the_exposed_list() {
    let exposed: Vec<WorkloadRef> = (0..14).map(|i| wr(&format!("w{i}"))).collect();
    let report = NetpolReport { workloads: 14, unwalled_exposed: exposed, ..empty_netpol() };
    let lines = walls_lines(&report);
    assert_eq!(lines.iter().filter(|(_, r)| *r == RsRole::Crit).count(), 12);
    assert!(lines.iter().any(|(s, _)| s == "+2 more"));
    assert_eq!(lines[2].0, "Deployment demo/w0 \u{2014} no ingress NetworkPolicy");
}

#[test]
fn the_footer_reports_the_weakest_basis_present() {
    let row = |b| {
        let mut r = over_row("app");
        r.basis = b;
        r
    };
    let rep = |rows: Vec<RsRow>| RightSizingReport { over: rows, ..rs_report() };

    let all_p90 = basis_note(&rep(vec![row(UsageBasis::P90 { samples: 40 }), row(UsageBasis::P90 { samples: 12 })]));
    assert!(all_p90.contains("P90"), "{all_p90}");
    assert!(all_p90.contains("12 samples"), "the SHORTEST window: {all_p90}");
    assert!(all_p90.contains("~3 min"), "minutes too, so neither is trusted: {all_p90}");

    let mixed = basis_note(&rep(vec![row(UsageBasis::P90 { samples: 40 }), row(UsageBasis::Latest)]));
    assert!(mixed.contains("P90"), "{mixed}");
    assert!(mixed.contains("40 samples"), "{mixed}");
    assert!(mixed.contains("1 of 2 rows from a single sample"), "{mixed}");

    let none = basis_note(&rep(vec![row(UsageBasis::Latest)]));
    assert!(none.contains("single metrics-server sample"), "{none}");
    assert!(!none.contains("P90"), "{none}");

    let empty = basis_note(&rep(vec![]));
    assert!(empty.contains("no measured workloads"), "{empty}");
}

#[test]
fn the_basis_window_rounds_minutes_up() {
    let mut r = over_row("app");
    r.basis = UsageBasis::P90 { samples: 5 };
    let note = basis_note(&RightSizingReport { over: vec![r], ..rs_report() });
    assert_eq!(note, "P90 of each pod's usage over the last 5 samples (~2 min) \u{2014} directional, not a multi-day VPA fit");
}

#[test]
fn rightsizing_lines_degrade_dark_shows_only_scheduler_blind() {
    let mut blind = over_row("blind");
    blind.qos = "BestEffort".into();
    blind.cpu.verdict = RsVerdict::Unrequested;
    blind.cpu.suggested = None;
    let r = RightSizingReport { metrics_available: false, unrequested: vec![blind], ..rs_report() };
    let lines = rightsizing_lines(&r);
    assert!(lines[0].0.contains("needs per-pod metrics"));
    assert!(!lines.iter().any(|(s, _)| s.starts_with("RECLAIMABLE")));
    assert!(lines.iter().any(|(s, role)| s.contains("blind") && *role == RsRole::Crit));
}

#[test]
fn rightsizing_lines_headline_counts_and_caps() {
    let over: Vec<RsRow> = (0..15).map(|i| over_row(&format!("w{i}"))).collect();
    let r = RightSizingReport {
        over,
        right_sized_count: 5,
        reclaimable_cpu: "1.5".into(),
        node_equiv: None,
        ..rs_report()
    };
    let lines = rightsizing_lines(&r);
    assert!(lines[0].0.starts_with("RECLAIMABLE") && lines[0].1 == RsRole::Headline);
    assert!(!lines[0].0.contains("nodes"));
    assert!(lines.iter().any(|(s, _)| s == "+3 more"));
    assert!(lines.iter().any(|(s, role)| s.starts_with("over-provisioned: 15") && *role == RsRole::Warn));
}

#[test]
fn the_reclaimable_headline_names_nodes_only_when_given() {
    let r = RightSizingReport { node_equiv: Some("1.2".into()), ..rs_report() };
    assert_eq!(rightsizing_lines(&r)[0].0, "RECLAIMABLE  0 cpu \u{b7} 0 mem  \u{2248} 1.2 nodes");
}

#[test]
fn a_row_line_carries_only_its_buckets_clauses() {
    let mut row = over_row("api");
    row.mem = RsResource { request: "1Gi".into(), peak: "900Mi".into(), suggested: Some("1.2Gi".into()), ..res(RsVerdict::Under) };
    row.measured_pods = 2;
    row.running_pods = 3;
    assert_eq!(rs_row_line(&row, RsVerdict::Over), "Deployment demo/api [Burstable]  cpu 500m->50m ~80m  (2/3 sampled)");
    assert_eq!(rs_row_line(&row, RsVerdict::Under), "Deployment demo/api [Burstable]  mem req 1Gi peak 900Mi ~raise 1.2Gi  (2/3 sampled)");
}

#[test]
fn hardening_lines_headline_sections_and_honesty() {
    let crit = WorkloadFindings {
        r: wr("bad"),
        worst: Severity::Critical,
        findings: vec![Finding { severity: Severity::Critical, container: Some("c".into()), detail: "privileged: true".into() }],
        worst_standards: "PSS-baseline".into(),
    };
    let mut report = HardeningReport { workloads_total: 3, workloads_clean: 2, ..empty_hardening() };
    report.critical.push(crit);
    report.counts_by_standard.push(("PSS-baseline".into(), 1));

    let lines = hardening_lines(&report);
    assert!(lines[0].1 == RsRole::Headline);
    assert!(lines[0].0.contains("1 critical") && lines[0].0.contains("2 clean of 3"));
    assert!(lines.iter().any(|(s, _)| s.contains("not full PSS compliance")));
    assert!(lines.iter().any(|(s, role)| s.contains("demo/bad") && s.contains("[PSS-baseline]") && *role == RsRole::Crit));
    assert!(lines.last().unwrap().0.contains("read-only"));

    let clean = HardeningReport { workloads_total: 2, workloads_clean: 2, ..empty_hardening() };
    assert!(hardening_lines(&clean).iter().any(|(s, r)| s.contains("every workload is fortified") && *r == RsRole::Good));
}

#[test]
fn hardening_is_never_green_before_a_scan() {
    let lines = hardening_lines(&empty_hardening());
    assert!(lines.iter().any(|(s, _)| s == "no workloads to scan"));
    assert!(!lines.iter().any(|(_, r)| *r == RsRole::Good));
    let pending = HardeningReport { workloads_total: 2, unresolved: 2, ..empty_hardening() };
    assert!(!hardening_lines(&pending).iter().any(|(_, r)| *r == RsRole::Good));
}

#[test]
fn a_findings_summary_keeps_the_worst_two_and_counts_the_rest() {
    let f = |d: &str, s| Finding { detail: d.into(), container: None, severity: s };
    let wf = WorkloadFindings {
        r: wr("x"),
        findings: vec![
            f("a", Severity::Critical),
            f("b", Severity::Warning),
            f("c", Severity::Critical),
            f("d", Severity::Critical),
            f("e", Severity::Critical),
        ],
        worst: Severity::Critical,
        worst_standards: "PSS-baseline".into(),
    };
    assert_eq!(hf_summary(&wf), "a; c; +2 more [PSS-baseline]");
}

#[test]
fn posture_lines_headline_subscores_factors_footer() {
    let r = PostureReport {
        score: Some(72),
        tier: PostureTier::Defended,
        fortifications: AxisScore { score: 78, band: PostureTier::Defended },
        walls: AxisScore { score: 58, band: PostureTier::Exposed },
        system_critical: 2,
        system_warning: 0,
        factors: vec![
            Factor {
                axis: Axis::Fortifications,
                kind: FactorKind::Critical,
                points: 22,
                label: "1 workload with breakout risk".into(),
                detail: "demo/bad  \u{2192} Hardening".into(),
                capped: false,
            },
            Factor {
                axis: Axis::Fortifications,
                kind: FactorKind::Info,
                points: 10,
                label: "hygiene nits".into(),
                detail: "demo/x  \u{2192} Hardening".into(),
                capped: true,
            },
        ],
    };
    let lines = posture_lines(&r);
    assert!(lines[0].0.contains("DEFENSE  72 / 100 \u{2014} DEFENDED"));
    assert!(lines.iter().any(|(s, _)| s.contains("fortifications  78")));
    assert!(lines.iter().any(|(s, _)| s.contains("walls (segmentation)  58")));
    assert!(lines.iter().any(|(s, r)| s.contains("breakout risk") && *r == RsRole::Crit));
    assert!(lines.iter().any(|(s, _)| s.contains("(capped)")));
    assert!(lines.iter().any(|(s, _)| s.contains("system namespaces: 2 critical")));
    assert!(lines.last().unwrap().0.contains("not CIS/full-PSS"));
}

#[test]
fn posture_lines_unscanned_is_not_green() {
    let r = PostureReport {
        score: None,
        tier: PostureTier::Unscanned,
        fortifications: AxisScore { score: 0, band: PostureTier::Unscanned },
        walls: AxisScore { score: 0, band: PostureTier::Unscanned },
        system_critical: 0,
        system_warning: 0,
        factors: vec![],
    };
    let lines = posture_lines(&r);
    assert!(lines[0].0.contains("not yet scanned"));
    assert!(!lines.iter().any(|(_, r)| *r == RsRole::Good));
}

#[test]
fn each_tier_has_its_own_role() {
    assert_eq!(tier_role(PostureTier::Fortified), RsRole::Good);
    assert_eq!(tier_role(PostureTier::Defended), RsRole::Headline);
    assert_eq!(tier_role(PostureTier::Exposed), RsRole::Warn);
    assert_eq!(tier_role(PostureTier::Breached), RsRole::Crit);
    assert_eq!(tier_role(PostureTier::Unscanned), RsRole::Dim);
    assert_eq!(PostureTier::Breached.label(), "BREACHED");
}

fn sample_cost() -> CostReport {
    CostReport {
        nodes_priced: 1,
        total_positive: true,
        total_monthly: "7300 units/mo".into(),
        idle_pct: "40".into(),
        idle_monthly: "2920 units/mo".into(),
        idle_warn: true,
        idle_meaning: "reserved capacity no pod requests".into(),
        by_namespace: vec![NamespaceCost {
            namespace: "demo".into(),
            system: false,
            per_hour: "6.00 units/h".into(),
            share: " (60%)".into(),
        }],
        ..empty_cost()
    }
}

#[test]
fn cost_lines_modes_idle_warn_and_honesty() {
    let join = |v: &[(String, RsRole)]| v.iter().map(|(s, _)| s.as_str()).collect::<Vec<_>>().join("\n");
    let mut r = sample_cost();
    let u = cost_lines(&r);
    let ut = join(&u);
    assert!(u[0].0.contains("UPKEEP") && u[0].0.contains("units") && !u[0].0.contains('$'), "{ut}");
    assert!(u.iter().any(|(s, _)| s.contains("demo") && s.contains("units")));
    assert!(ut.to_lowercase().contains("cloud"), "honesty footer");
    assert!(u.iter().any(|(s, role)| s.starts_with("idle") && *role == RsRole::Warn));
    r.mode = CostMode::Currency;
    r.total_monthly = "$7300/mo".into();
    assert!(join(&cost_lines(&r)).contains('$'));
    let empty = cost_lines(&empty_cost());
    assert!(empty[0].0.contains("no priced nodes"));
}

#[test]
fn only_the_idle_line_depends_on_the_warning_flag() {
    let mut r = sample_cost();
    r.idle_warn = false;
    let calm = cost_lines(&r);
    let idle = calm.iter().find(|(s, _)| s.starts_with("idle")).unwrap();
    assert_eq!(idle.0, "idle (unrequested capacity): 40% \u{b7} 2920 units/mo");
    assert_eq!(idle.1, RsRole::Dim);
    assert!(!calm.iter().any(|(_, role)| *role == RsRole::Warn));
}

#[test]
fn opencost_says_where_its_figures_come_from() {
    let r = CostReport {
        basis: CostBasis::OpenCost,
        nodes_priced: 0,
        top_workloads: vec![WorkloadCost { r: wr("api"), per_hour: "$1.00/h".into(), share: String::new() }],
        ..sample_cost()
    };
    let lines = cost_lines(&r);
    assert!(lines[1].0.starts_with("from OpenCost"));
    assert!(lines.iter().any(|(s, _)| s.starts_with("per-node map overlay n/a")));
    assert!(lines.iter().any(|(s, _)| s == "Deployment demo/api  $1.00/h"));
    assert!(lines.last().unwrap().0.starts_with("imported from OpenCost"));
}
