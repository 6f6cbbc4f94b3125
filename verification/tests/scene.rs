use kubernation::advisor::WorkloadRef;
use kubernation::scene::{focus_concern, ConcernTarget, locate_world, panel_for, scene_size, Panel, Placed, Selected};
use kubernation::screens::ClusterId;

fn wr(n: &str) -> WorkloadRef {
    WorkloadRef { kind: "Deployment".into(), namespace: "demo".into(), name: n.into() }
}

#[test]
fn the_scene_spans_both_worlds() {
    let ws = vec![Placed { off: 0, width: 40, height: 30 }, Placed { off: 44, width: 20, height: 35 }];
    assert_eq!(scene_size(&ws), (64, 35));
    assert_eq!(scene_size(&vec![]), (1, 1));
    assert_eq!(scene_size(&vec![Placed { off: 0, width: 0, height: 0 }]), (1, 1));
}

#[test]
fn a_cell_falls_in_the_world_that_spans_it() {
    let ws = vec![Placed { off: 0, width: 40, height: 30 }, Placed { off: 44, width: 20, height: 35 }];
    assert_eq!(locate_world(&ws, (10, 3)), Some((0, (10, 3))));
    assert_eq!(locate_world(&ws, (50, 7)), Some((1, (6, 7))));
    assert_eq!(locate_world(&ws, (42, 7)), None, "the strait between the worlds");
    assert_eq!(locate_world(&ws, (64, 7)), None);
}

#[test]
fn a_selection_opens_its_panel() {
    assert_eq!(panel_for(ClusterId::Warm, Selected::Coast(wr("web"))), Some(Panel::City(ClusterId::Warm, wr("web"))));
    assert_eq!(panel_for(ClusterId::Hot, Selected::Province("n1".into())), Some(Panel::Node(ClusterId::Hot, "n1".into())));
    assert_eq!(panel_for(ClusterId::Hot, Selected::Structure(None)), None);
    assert_eq!(panel_for(ClusterId::Hot, Selected::Structure(Some(wr("job")))), Some(Panel::City(ClusterId::Hot, wr("job"))));
    assert_eq!(panel_for(ClusterId::Hot, Selected::Nothing), None);
}

#[test]
fn focusing_a_concern_selects_its_cell_and_opens_its_panel() {

    let f = focus_concern(1, 3, 0, ClusterId::Warm, ConcernTarget::Workload(wr("web")), Some((5, 6)), 44);
    assert_eq!(f.concern_idx, 1);
    assert_eq!(f.select, Some((49, 6)));
    assert_eq!(f.panel, Some(Panel::City(ClusterId::Warm, wr("web"))));
    let list = focus_concern(2, 3, 0, ClusterId::Hot, ConcernTarget::WorkloadList, None, 0);
    assert_eq!((list.concern_idx, list.select, list.panel), (2, None, None));
    let past = focus_concern(5, 3, 1, ClusterId::Hot, ConcernTarget::Node("n".into()), Some((1, 1)), 0);
    assert_eq!((past.concern_idx, past.select, past.panel), (1, None, None));
}
