use kubernation::advisor::{
    is_prose, node_trouble, substrate_lines, substrate_rows, Advisor, AdvisorTab, MapModel,
    MapZone, MissingNode, NodeTile, NodeTrouble, RsRole, SubstrateReport,
};

fn sub_report(total: usize, expected: &[&str], gaps: &[(&str, &[&str])]) -> SubstrateReport {
    SubstrateReport {
        expected: expected.iter().map(|s| s.to_string()).collect(),
        missing_by_node: gaps
            .iter()
            .map(|(n, g)| (n.to_string(), g.iter().map(|s| s.to_string()).collect()))
            .collect(),
        nodes_total: total,
        nodes_with_gaps: gaps.len(),
        floor_nodes: 4,
        prevalence_pct: 80,
        prevalence_note: "'expected' is inferred from prevalence, not intent: a daemonset on most nodes is taken to belong on all of them".to_string(),
    }
}

fn trouble(rows: &[(&str, bool, bool)]) -> Vec<(String, NodeTrouble)> {
    rows.iter()
        .map(|&(n, nr, nc)| (n.to_string(), NodeTrouble { not_ready: nr, no_capacity: nc }))
        .collect()
}

#[test]
fn every_advisor_tab_has_a_label_at_its_index() {
    assert_eq!(AdvisorTab::all().len(), AdvisorTab::labels().len());
    for t in AdvisorTab::all() {
        assert!(!AdvisorTab::labels()[t.idx()].is_empty());
    }
}

#[test]
fn tab_positions_round_trip_through_at() {
    for (i, t) in AdvisorTab::all().into_iter().enumerate() {
        assert_eq!(t.idx(), i);
        assert_eq!(AdvisorTab::at(i), Some(t));
    }
    assert_eq!(AdvisorTab::at(8), None);
}

#[test]
fn cycling_the_advisor_wraps_and_comes_back() {
    let mut a = Advisor::new(AdvisorTab::Substrate);
    a.cycle(1);
    assert_eq!(a.tab, AdvisorTab::Health);
    a.cycle(-1);
    assert_eq!(a.tab, AdvisorTab::Substrate);
    a.cycle(-9);
    assert_eq!(a.tab, AdvisorTab::Cost);
    a.cycle(9);
    assert_eq!(a.tab, AdvisorTab::Substrate);
    a.go(AdvisorTab::Network);
    assert_eq!(a.tab, AdvisorTab::Network);
}

#[test]
fn substrate_rows_invert_by_daemonset_and_count_nodes() {
    let r = sub_report(
        10,
        &["kube-system/cni", "kube-system/proxy"],
        &[("n7", &["kube-system/cni", "kube-system/proxy"]), ("n3", &["kube-system/cni"])],
    );
    let rows = substrate_rows(&r, &Vec::new());
    assert_eq!(rows.len(), 2, "one row per expected daemonset");
    assert_eq!(rows[0].daemonset, "kube-system/cni");
    assert_eq!(rows[0].on, 8);
    assert_eq!(
        rows[0].missing.iter().map(|m| m.node.as_str()).collect::<Vec<_>>(),
        ["n3", "n7"],
        "sorted, so rows do not reorder between ticks"
    );
    assert_eq!(rows[1].daemonset, "kube-system/proxy");
    assert_eq!(rows[1].on, 9);
    assert_eq!(rows[1].missing.len(), 1, "n7 appears in BOTH rows");
    let rows = substrate_rows(&r, &trouble(&[("n7", true, false)]));
    assert_eq!(
        rows[0].missing,
        vec![
            MissingNode { node: "n3".into(), trouble: NodeTrouble::default() },
            MissingNode { node: "n7".into(), trouble: NodeTrouble { not_ready: true, no_capacity: false } }
        ]
    );
}

#[test]
fn a_no_capacity_node_is_tagged_in_every_row_and_still_counted() {
    let r = sub_report(
        10,
        &["kube-system/cni", "kube-system/proxy", "obs/agent"],
        &[("dead", &["kube-system/cni", "kube-system/proxy", "obs/agent"]), ("n3", &["kube-system/cni"])],
    );
    let rows = substrate_rows(&r, &trouble(&[("dead", false, true)]));
    assert_eq!(rows.len(), 3);
    for row in &rows {
        let m = row
            .missing
            .iter()
            .find(|m| m.node == "dead")
            .unwrap_or_else(|| panic!("{} should list the node", row.daemonset));
        assert!(m.trouble.no_capacity, "{}: every occurrence carries the tag, or it reads as three gaps", row.daemonset);
        assert!(m.trouble.note().unwrap().contains("reports no capacity"), "and the tag says which reason");
    }
    assert_eq!(rows[0].daemonset, "kube-system/cni");
    assert_eq!(rows[0].missing.len(), 2);
    assert_eq!(rows[0].on, 8);
    assert_eq!(rows[2].on, 9, "and a row whose only gap is the dead node");
}

#[test]
fn not_ready_and_no_capacity_are_distinguishable_and_both_carriable() {
    let nr = NodeTrouble { not_ready: true, no_capacity: false };
    let nc = NodeTrouble { not_ready: false, no_capacity: true };
    let both = NodeTrouble { not_ready: true, no_capacity: true };
    let (a, b, c) = (nr.note().unwrap(), nc.note().unwrap(), both.note().unwrap());
    assert!(a.contains("NotReady") && !a.contains("capacity"), "{a}");
    assert!(b.contains("reports no capacity") && !b.contains("NotReady"), "{b}");
    assert_ne!(a, b, "one word for two reasons would be the collapse");
    assert!(c.contains("NotReady") && c.contains("reports no capacity"), "a node that is both says both: {c}");
    assert_eq!(NodeTrouble::default().note(), None, "an ordinary node is untagged");
}

#[test]
fn the_trouble_note_reads_in_full() {
    let both = NodeTrouble { not_ready: true, no_capacity: true };
    assert_eq!(both.note().unwrap(), "(NotReady, reports no capacity \u{2014} the node is the story)");
    assert!(both.any());
    assert!(!NodeTrouble::default().any());
}

#[test]
fn a_dimmed_node_row_truncates_while_a_caveat_wraps() {
    assert!(
        is_prose("'expected' is inferred from prevalence, not intent: \u{2026}", RsRole::Dim),
        "an unindented Dim line is a caveat and wraps"
    );
    assert!(
        !is_prose("    n7   (NotReady \u{2014} the node is the story)", RsRole::Dim),
        "an indented Dim line is a ROW; wrapping it would strip the indent"
    );
    assert!(!is_prose("    n7", RsRole::Crit), "an ordinary row truncates");
    assert!(!is_prose("churn/cni   on 98 / 100   missing from 2", RsRole::Crit), "and so does a heading");
    let row = "    n7   (NotReady \u{2014} the node is the story)";
    assert_ne!(
        row.split_whitespace().collect::<Vec<_>>().join(" "),
        row,
        "wrap() would strip this row's indent and collapse its columns"
    );
}

#[test]
fn node_trouble_reads_readiness_and_capacity() {
    let tile = |name: &str, ready: bool, bare: bool| NodeTile {
        name: name.to_string(),
        ready,
        capacity_unreported: bare,
    };
    let map = MapModel {
        zones: vec![MapZone {
            nodes: vec![
                tile("fine", true, false),
                tile("down", false, false),
                tile("bare", true, true),
                tile("worst", false, true),
            ],
        }],
    };
    let t = node_trouble(&map);
    let get = |n: &str| t.iter().find(|(k, _)| k == n).map(|(_, v)| *v);
    assert_eq!(get("fine"), None, "an ordinary node has no entry");
    assert_eq!(get("down"), Some(NodeTrouble { not_ready: true, no_capacity: false }), "NotReady must not be read off capacity");
    assert_eq!(get("bare"), Some(NodeTrouble { not_ready: false, no_capacity: true }), "no-capacity must not be read off readiness");
    assert_eq!(get("worst"), Some(NodeTrouble { not_ready: true, no_capacity: true }));
    assert_eq!(t.len(), 3);
}

#[test]
fn node_trouble_keeps_map_order_across_zones() {
    let map = MapModel {
        zones: vec![
            MapZone { nodes: vec![NodeTile { name: "b".into(), ready: false, capacity_unreported: false }] },
            MapZone { nodes: vec![] },
            MapZone { nodes: vec![NodeTile { name: "a".into(), ready: true, capacity_unreported: true }] },
        ],
    };
    let t = node_trouble(&map);
    assert_eq!(t.iter().map(|(n, _)| n.as_str()).collect::<Vec<_>>(), ["b", "a"]);
}

#[test]
fn substrate_lines_name_each_empty_state() {
    let none: Vec<(String, NodeTrouble)> = Vec::new();
    let floor = substrate_lines(&sub_report(4, &["kube-system/cni"], &[]), &none);
    assert!(floor[0].0.contains("no gap is representable"), "{}", floor[0].0);
    assert!(floor.iter().any(|(l, _)| l.contains("5 nodes is the smallest")), "{floor:?}");
    let bar = substrate_lines(&sub_report(20, &[], &[]), &none);
    assert!(bar[0].0.contains("no daemonset reaches the fleet bar"), "{}", bar[0].0);
    assert!(bar.iter().any(|(l, _)| l.contains("not 'all covered'")), "{bar:?}");
    let clean = substrate_lines(&sub_report(20, &["kube-system/cni"], &[]), &none);
    assert!(clean[0].0.contains("0 of 20 nodes with gaps"), "{}", clean[0].0);
    assert_eq!(clean[0].1, RsRole::Good);
    assert_ne!(floor[0].0, bar[0].0);
    assert_ne!(bar[0].0, clean[0].0);
    for lines in [&floor, &bar, &clean] {
        assert!(lines.iter().any(|(l, _)| l.contains("inferred from prevalence")), "{lines:?}");
    }
}

#[test]
fn substrate_lines_with_no_nodes_say_so() {
    let lines = substrate_lines(&sub_report(0, &["kube-system/cni"], &[]), &Vec::new());
    assert_eq!(lines, vec![("no nodes observed yet".to_string(), RsRole::Dim)]);
}

#[test]
fn substrate_lines_list_each_gap_under_its_daemonset() {
    let r = sub_report(10, &["kube-system/cni"], &[("n7", &["kube-system/cni"]), ("n3", &["kube-system/cni"])]);
    let lines = substrate_lines(&r, &trouble(&[("n7", true, false)]));
    assert_eq!(lines[0], ("1 fleet-wide daemonsets \u{b7} 2 of 10 nodes with gaps".to_string(), RsRole::Headline));
    assert!(lines.iter().any(|(l, _)| l.contains("kube-system/cni") && l.contains("8")));
    let n3 = lines.iter().position(|(l, _)| l.contains("n3")).unwrap();
    let n7 = lines.iter().position(|(l, _)| l.contains("n7")).unwrap();
    assert!(n3 < n7, "missing nodes are listed by name");
    assert!(lines[n7].0.contains("NotReady"));
    assert!(lines.last().unwrap().0.contains("coverage is presence, not health"));
}
