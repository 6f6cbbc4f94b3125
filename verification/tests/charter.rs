use kubernation::charter::{
    cell_token, charter_click, charter_title, CharterClick, cell_mark, charter_banner, charter_lines, step_focus, Access, Charter, CharterCell,
    CharterTrust, Mark, Probe, Risk, Role,
};

fn cell(resource: &str, sub: Option<&str>, verb: &str, risk: Risk, dangerous: bool, access: Access) -> CharterCell {
    CharterCell {
        probe: Probe {
            resource: resource.into(),
            subresource: sub.map(|s| s.to_string()),
            verb: verb.into(),
            risk,
        },
        access,
        dangerous,
    }
}

fn probes(access: impl Fn(usize) -> Access) -> Vec<CharterCell> {
    let spec: Vec<(&str, Option<&str>, &str, Risk, bool)> = vec![
        ("pods", None, "get", Risk::Normal, false),
        ("pods", None, "list", Risk::Normal, false),
        ("pods", None, "create", Risk::High, true),
        ("pods", None, "delete", Risk::High, true),
        ("pods", Some("exec"), "create", Risk::Critical, true),
        ("pods", Some("log"), "get", Risk::Normal, false),
        ("secrets", None, "get", Risk::Critical, true),
    ];
    spec.into_iter()
        .enumerate()
        .map(|(i, (r, s, v, k, d))| cell(r, s, v, k, d, access(i)))
        .collect()
}

fn charter(cells: Vec<CharterCell>, trust: CharterTrust) -> Charter {
    let allowed = cells.iter().filter(|c| c.access == Access::Allowed).count();
    let denied = cells.iter().filter(|c| c.access == Access::Denied).count();
    let unknown = cells.iter().filter(|c| c.access == Access::Unknown).count();
    let dangerous_granted = cells.iter().filter(|c| c.dangerous && c.access == Access::Allowed).count();
    Charter {
        namespace: "demo".into(),
        trust,
        allowed,
        denied,
        unknown,
        dangerous_granted,
        ns_cells: cells,
        cluster_cells: vec![],
    }
}

#[test]
fn charter_lines_group_by_resource_and_color_dangerous() {
    let cells = probes(|_| Access::Allowed);
    let lines = charter_lines(&cells);
    let pods = lines.iter().find(|l| l.label == "pods").unwrap();
    assert_eq!(pods.cells.len(), 4);
    let exec = lines.iter().find(|l| l.label == "pods/exec").unwrap();
    assert_eq!(exec.cells[0].2, Role::Crit);
    let log = lines.iter().find(|l| l.label == "pods/log").unwrap();
    assert_eq!(log.cells[0].2, Role::Good);
    assert_eq!(
        lines.iter().map(|l| l.label.as_str()).collect::<Vec<_>>(),
        ["pods", "pods/exec", "pods/log", "secrets"],
        "one row per resource, in first-seen order"
    );
    assert_eq!(pods.cells[2], ("create".to_string(), Mark::Yes, Role::Warn));
}

#[test]
fn cell_mark_maps_access_states() {
    let cells = probes(|i| if i == 0 { Access::Denied } else { Access::Unknown });
    let lines = charter_lines(&cells);
    let pods = lines.iter().find(|l| l.label == "pods").unwrap();
    assert_eq!(pods.cells[0].1, Mark::No);
    assert_eq!(pods.cells[1].1, Mark::Maybe);
    assert_eq!(cell_mark(&cells[0]), (Mark::No, Role::Dim));
    assert_eq!(cell_mark(&cells[1]), (Mark::Maybe, Role::Dim));
}

#[test]
fn banner_reports_unavailable_and_dangerous() {
    let c = charter(probes(|_| Access::Unknown), CharterTrust::Unavailable("403".into()));
    let b = charter_banner(&c);
    assert_eq!(b.len(), 1);
    assert_eq!(b[0].1, Role::Crit);
    assert!(b[0].0.contains("couldn't read your access"));
    assert!(b[0].0.contains("403"));

    let c = charter(probes(|_| Access::Allowed), CharterTrust::Answered);
    let b = charter_banner(&c);
    assert!(b[0].0.contains("you can do") && b[0].1 == Role::Good);
    let danger = b.iter().find(|(s, _)| s.contains("dangerous")).unwrap();
    assert_eq!(danger.1, Role::Crit);

    let c = charter(probes(|_| Access::Denied), CharterTrust::Answered);
    let b = charter_banner(&c);
    assert_eq!(b[0].1, Role::Dim, "0-of-N capability must not be green");
    let danger = b.iter().find(|(s, _)| s.contains("dangerous")).unwrap();
    assert_eq!(danger.1, Role::Dim);
}

#[test]
fn the_banner_counts_what_was_probed() {
    let c = charter(probes(|i| if i < 2 { Access::Allowed } else if i < 4 { Access::Unknown } else { Access::Denied }), CharterTrust::Answered);
    let b = charter_banner(&c);
    assert_eq!(b[0].0, "you can do 2 of 7 probed actions here");
    assert_eq!(b[1], ("0 dangerous capabilities granted".to_string(), Role::Dim));
    assert_eq!(b[2], ("2 cell(s) the apiserver didn't answer (shown ?)".to_string(), Role::Dim));
    assert_eq!(b.len(), 3);
}

#[test]
fn stepping_the_charter_focus_wraps_and_returns() {
    let ns: Vec<String> = vec!["a".into(), "b".into(), "c".into()];
    assert_eq!(step_focus(&ns, &"a".to_string(), false), "b");
    assert_eq!(step_focus(&ns, &"c".to_string(), false), "a");
    assert_eq!(step_focus(&ns, &"a".to_string(), true), "c");
    let there = step_focus(&ns, &"b".to_string(), false);
    assert_eq!(step_focus(&ns, &there, true), "b");
}

#[test]
fn the_charter_window_text_and_clicks() {
    assert_eq!(charter_title("demo"), "Charter \u{2014} your writ in demo \u{b7} HOT");
    assert_eq!(cell_token("get", Mark::Yes), "get \u{2713}");
    assert_eq!(cell_token("delete", Mark::No), "delete \u{2717}");
    assert_eq!(cell_token("list", Mark::Maybe), "list ?");
    assert_eq!(charter_click(3, true, true, false, false, false, true), CharterClick::Step(true));
    assert_eq!(charter_click(3, true, false, true, false, false, true), CharterClick::Step(false));
    assert_eq!(charter_click(1, true, true, false, false, false, true), CharterClick::Nothing, "one namespace has no arrows");
    assert_eq!(charter_click(3, true, false, false, false, false, false), CharterClick::Close);
    assert_eq!(charter_click(3, true, false, false, false, true, true), CharterClick::Close);
    assert_eq!(charter_click(3, false, true, false, true, true, false), CharterClick::Nothing);
}

#[test]
fn the_rows_of_a_band_hold_every_probed_cell_once() {
    let cells = probes(|_| Access::Allowed);
    let lines = charter_lines(&cells);
    let total: usize = lines.iter().map(|l| l.cells.len()).sum();
    assert_eq!(total, cells.len());
    assert_eq!(lines.len(), 4);
}
