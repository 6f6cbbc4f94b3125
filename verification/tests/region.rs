use kubernation::region::{region_lines, CityInfo, CoastKind, NodeHealth, RegionInfo, Tone};
use kubernation::reports::Severity;
use kubernation::screens::ClusterId;

fn city() -> CityInfo {
    CityInfo {
        name: "web".into(),
        kind: "Deployment".into(),
        namespace: "demo".into(),
        ready: 2,
        desired: 3,
        severity: Some(Severity::Critical),
        storage: Some((2, 1)),
        pair: Some(("in sync with warm".into(), Tone::Struct)),
    }
}

#[test]
fn a_city_tooltip_names_pop_attention_storage_and_pair() {
    let lines = region_lines(false, ClusterId::Hot, "prod", &RegionInfo::City(city()));
    assert_eq!(
        lines,
        vec![
            ("web".to_string(), Tone::Ink),
            ("Deployment demo . pop 2/3".to_string(), Tone::Warn),
            ("needs attention".to_string(), Tone::Crit),
            ("2 PVCs . 1 pending".to_string(), Tone::Warn),
            ("in sync with warm".to_string(), Tone::Struct),
        ]
    );
}

#[test]
fn a_full_city_without_extras_is_two_quiet_lines() {
    let c = CityInfo { ready: 3, severity: None, storage: Some((1, 0)), pair: None, ..city() };
    let lines = region_lines(false, ClusterId::Hot, "prod", &RegionInfo::City(c));
    assert_eq!(lines[1].1, Tone::InkDim);
    assert_eq!(lines[2], ("1 PVCs".to_string(), Tone::Struct));
    assert_eq!(lines.len(), 3);
}

#[test]
fn a_paired_session_tags_the_world_first() {
    let lines = region_lines(true, ClusterId::Warm, "dr-site", &RegionInfo::Island { label: "kube-system".into() });
    assert_eq!(lines[0], ("WARM dr-site".to_string(), Tone::Warm));
    assert_eq!(lines[1], ("isle of kube-system".to_string(), Tone::Ink));
    let hot = region_lines(true, ClusterId::Hot, "prod", &RegionInfo::Ocean);
    assert_eq!(hot, vec![("HOT prod".to_string(), Tone::Hot), ("open sea".to_string(), Tone::InkDim)]);
}

#[test]
fn open_sea_alone_says_nothing() {
    assert!(region_lines(false, ClusterId::Hot, "prod", &RegionInfo::Ocean).is_empty());
}

#[test]
fn coast_province_and_structure_lines() {
    let harbor = RegionInfo::Coast { coast: CoastKind::Harbor, name: "web".into(), detail: "ClusterIP".into(), workload: "web".into() };
    assert_eq!(
        region_lines(false, ClusterId::Hot, "p", &harbor),
        vec![
            ("harbor".to_string(), Tone::Struct),
            ("service web . ClusterIP".to_string(), Tone::Ink),
            ("-> web".to_string(), Tone::InkDim),
        ]
    );
    let gate = RegionInfo::Coast { coast: CoastKind::Gate, name: "web".into(), detail: "web.example".into(), workload: "web".into() };
    assert_eq!(region_lines(false, ClusterId::Hot, "p", &gate)[1].0, "ingress web . web.example");
    let node = RegionInfo::Province { name: "n1".into(), health: NodeHealth::NotReady, pods: 4 };
    assert_eq!(region_lines(false, ClusterId::Hot, "p", &node)[1], ("NotReady . 4 pods".to_string(), Tone::Crit));
    let camp = RegionInfo::Structure { kind: "job".into(), name: "migrate".into(), encampment: true };
    assert_eq!(region_lines(false, ClusterId::Hot, "p", &camp)[1].1, Tone::Warn);
}
