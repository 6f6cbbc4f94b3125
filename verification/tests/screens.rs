use kubernation::screens::{
    banner_text, commit_confirm_text, evict_confirm_text, refined_platform, sidebar_fits, plan_change_text, plan_click, plan_header, plan_overflow, PlanChange, PlanClick, acting_cluster, commit_gate, committing_flash, evict_gate, planning_gate, switch_refusal,
    EvictGate, committed_flash, confirm_reply, evicted_flash, focus_after_edge, logs_current, route_key,
    view_cluster, ClusterId, ConfirmReply, Edge, GlobalKey, Key, Modes, PlanKey, Route, Screen,
    ScreenStack,
};

fn modes() -> Modes {
    Modes {
        pending_evict: false,
        pending_commit: false,
        help_open: false,
        picker_open: false,
        ns_picker_open: false,
        attention_focused: false,
        attention_expanded: false,
        log_filtering: false,
        image_editing: false,
        screen: Screen::WorldMap,
    }
}

#[test]
fn push_then_pop_returns_to_where_one_was() {
    let mut s = ScreenStack::new();
    assert_eq!(s.top(), Screen::WorldMap);
    s.push(Screen::City);
    assert_eq!(s.top(), Screen::City);
    assert_eq!(s.pop(), Some(Screen::City));
    assert_eq!(s.top(), Screen::WorldMap);
    assert_eq!(s.pop(), None, "the last screen is never popped");
}

#[test]
fn pushing_the_top_screen_again_changes_nothing() {
    let mut s = ScreenStack::new();
    s.push(Screen::WorldMap);
    assert_eq!(s.screens, vec![Screen::WorldMap]);
}

#[test]
fn the_back_stack_drops_its_oldest_entry_past_eight() {
    let mut s = ScreenStack::new();
    let cycle = [Screen::City, Screen::Node, Screen::Logs, Screen::Workloads];
    for i in 0..10 {
        s.push(cycle[i % 4]);
    }
    assert_eq!(s.screens.len(), 8);
    assert_eq!(s.top(), Screen::Node);
    s.go_home(Screen::Workloads);
    assert_eq!(s.screens, vec![Screen::Workloads]);
}

#[test]
fn detail_screens_remember_their_world() {
    let w = ClusterId::Warm;
    let h = ClusterId::Hot;
    assert_eq!(view_cluster(Screen::City, w, h, h, h, true), w);
    assert_eq!(view_cluster(Screen::Node, h, w, h, h, true), w);
    assert_eq!(view_cluster(Screen::Logs, h, h, w, h, true), w);
    assert_eq!(view_cluster(Screen::WorldMap, h, h, h, w, true), w);
    assert_eq!(view_cluster(Screen::City, w, w, w, w, false), h);
}

#[test]
fn the_map_edges_cross_between_worlds() {
    assert_eq!(focus_after_edge(Edge::Right, ClusterId::Hot, true), ClusterId::Warm);
    assert_eq!(focus_after_edge(Edge::Left, ClusterId::Warm, true), ClusterId::Hot);
    assert_eq!(focus_after_edge(Edge::Right, ClusterId::Hot, false), ClusterId::Hot);
    assert_eq!(focus_after_edge(Edge::Top, ClusterId::Warm, true), ClusterId::Warm);
}

#[test]
fn a_pending_confirm_swallows_every_key() {
    let m = Modes { pending_evict: true, help_open: true, ..modes() };
    assert_eq!(route_key(&m, Key::Char('y')), Route::EvictConfirm(ConfirmReply::Accept));
    assert_eq!(route_key(&m, Key::Char('q')), Route::EvictConfirm(ConfirmReply::Reject));
    assert_eq!(route_key(&m, Key::Char('m')), Route::EvictConfirm(ConfirmReply::Ignore));
    let c = Modes { pending_commit: true, ..modes() };
    assert_eq!(route_key(&c, Key::Enter), Route::CommitConfirm(ConfirmReply::Accept));
    assert_eq!(route_key(&c, Key::Esc), Route::CommitConfirm(ConfirmReply::Reject));
    assert_eq!(confirm_reply(Key::Tab), ConfirmReply::Ignore);
}

#[test]
fn ctrl_c_quits_from_anywhere() {
    let m = Modes { pending_evict: true, picker_open: true, screen: Screen::Plan, ..modes() };
    assert_eq!(route_key(&m, Key::Ctrl('c')), Route::Quit);
    assert_eq!(route_key(&modes(), Key::Ctrl('c')), Route::Quit);
}

#[test]
fn editors_and_overlays_claim_keys_in_order() {
    assert_eq!(route_key(&Modes { help_open: true, ..modes() }, Key::Char('?')), Route::Help(true));
    assert_eq!(route_key(&Modes { help_open: true, ..modes() }, Key::Char('x')), Route::Help(false));
    assert_eq!(route_key(&Modes { picker_open: true, ..modes() }, Key::Char('q')), Route::Picker);
    assert_eq!(route_key(&Modes { attention_focused: true, ..modes() }, Key::Tab), Route::Attention(true));
    let logs = Modes { screen: Screen::Logs, log_filtering: true, ..modes() };
    assert_eq!(route_key(&logs, Key::Char('q')), Route::LogFilter);
    let not_logs = Modes { log_filtering: true, ..modes() };
    assert_eq!(route_key(&not_logs, Key::Char('q')), Route::Global(GlobalKey::Quit));
}

#[test]
fn the_plan_and_global_maps_route_their_keys() {
    let plan = Modes { screen: Screen::Plan, ..modes() };
    assert_eq!(route_key(&plan, Key::Char('t')), Route::Plan(PlanKey::Back));
    assert_eq!(route_key(&plan, Key::Char('w')), Route::Plan(PlanKey::Home(Screen::Workloads)));
    assert_eq!(route_key(&plan, Key::Char('j')), Route::Plan(PlanKey::Review));
    assert_eq!(route_key(&modes(), Key::Char('t')), Route::Global(GlobalKey::OpenPlan));
    assert_eq!(route_key(&modes(), Key::Char('2')), Route::Global(GlobalKey::Overlay(2)));
    assert_eq!(route_key(&modes(), Key::Tab), Route::Global(GlobalKey::View));
    let expanded = Modes { attention_expanded: true, ..modes() };
    assert_eq!(route_key(&expanded, Key::Tab), Route::Global(GlobalKey::FocusAttention));
    assert_eq!(route_key(&modes(), Key::Backspace), Route::Global(GlobalKey::Back));
}

#[test]
fn flashes_report_outcomes() {
    assert_eq!(evicted_flash(Ok("evicted demo/web-1".into())), "evicted demo/web-1");
    assert_eq!(evicted_flash(Err("forbidden".into())), "evict failed: forbidden");
    assert_eq!(committed_flash(true, &vec![true, false, true]), "committed 2/3 change(s)");
    assert_eq!(committed_flash(false, &vec![true, false]), "commit blocked \u{2014} 2 change(s) failed dry-run");
    assert!(logs_current(4, 4));
    assert!(!logs_current(3, 4));
}

#[test]
fn requests_act_on_their_world_only_when_it_is_watched() {
    assert_eq!(acting_cluster(ClusterId::Warm, true), ClusterId::Warm);
    assert_eq!(acting_cluster(ClusterId::Warm, false), ClusterId::Hot);
}

#[test]
fn eviction_asks_for_confirmation_only_when_permitted() {
    assert_eq!(evict_gate("demo", Ok(true)), EvictGate::Confirm);
    assert_eq!(evict_gate("demo", Ok(false)), EvictGate::Refuse("no permission to evict pods in demo".into()));
    assert_eq!(evict_gate("demo", Err("timeout".into())), EvictGate::Refuse("permission check failed: timeout".into()));
}

#[test]
fn planning_and_switching_have_their_refusals() {
    assert!(planning_gate(ClusterId::Hot).is_ok());
    assert_eq!(planning_gate(ClusterId::Warm), Err("planning applies to the hot cluster only".to_string()));
    assert_eq!(switch_refusal("dr", Some("dr")), Some("that context is already the warm cluster".to_string()));
    assert_eq!(switch_refusal("prod", Some("dr")), None);
    assert_eq!(switch_refusal("prod", None), None);
}

#[test]
fn a_commit_needs_something_that_changes() {
    assert!(commit_gate(&vec![true, false]).is_ok());
    assert_eq!(commit_gate(&vec![true, true]), Err("nothing to commit".to_string()));
    assert_eq!(commit_gate(&vec![]), Err("nothing to commit".to_string()));
    assert_eq!(committing_flash(2), Some("committing 2 change(s) \u{2026}".to_string()));
    assert_eq!(committing_flash(0), None);
}

#[test]
fn the_review_lists_changes_and_dims_no_ops() {
    assert_eq!(plan_header(0), ("Nothing staged. Open a city or province and use its plan controls.".to_string(), true));
    assert_eq!(plan_header(2), ("2 staged change(s) \u{2014} review before committing:".to_string(), false));
    let c = PlanChange { target: "demo/web".into(), field: "replicas".into(), from: "3".into(), to: "5".into(), noop: false };
    assert_eq!(plan_change_text(&c), ("replicas  3 -> 5".to_string(), false, None));
    let n = PlanChange { noop: true, ..c };
    assert_eq!(plan_change_text(&n).2, Some("(no change)"));
    assert_eq!(plan_overflow(9, 7), Some("+2 more".to_string()));
    assert_eq!(plan_overflow(3, 7), None);
}

#[test]
fn review_clicks_unstage_discard_or_close() {
    assert_eq!(plan_click(true, Some(1), true, Some(0), false), PlanClick::Unstage(1));
    assert_eq!(plan_click(true, None, true, None, true), PlanClick::Close);
    assert_eq!(plan_click(true, None, false, Some(0), true), PlanClick::DiscardAll);
    assert_eq!(plan_click(true, None, false, Some(1), true), PlanClick::Close);
    assert_eq!(plan_click(true, None, false, None, false), PlanClick::Close);
    assert_eq!(plan_click(true, None, false, None, true), PlanClick::Nothing);
    assert_eq!(plan_click(false, Some(1), true, Some(0), false), PlanClick::Nothing);
}

#[test]
fn evict_confirm_renders() {
    let (title, lines) = evict_confirm_text("demo", "web-7d4b-2");
    let text = format!("{title}\n{}", lines.join("\n"));
    assert!(text.contains("Evict pod?"), "title missing:\n{text}");
    assert!(text.contains("demo/web-7d4b-2"), "pod missing:\n{text}");
    assert!(text.contains("[y] evict"), "prompt missing:\n{text}");
}

#[test]
fn the_commit_confirm_counts_the_changes() {
    let (title, lines) = commit_confirm_text(3);
    assert_eq!(title, " Commit planning turn? ");
    assert_eq!(lines[1], "  Commit 3 staged change(s) to the cluster?");
    assert_eq!(lines.len(), 7);
}

#[test]
fn the_terminal_layout_and_banners() {
    assert!(sidebar_fits(150, true));
    assert!(!sidebar_fits(149, true));
    assert!(sidebar_fits(110, false));
    assert!(!sidebar_fits(109, false));
    assert_eq!(banner_text("HOT", true, "prod"), " \u{25b6} HOT \u{2014} prod");
    assert_eq!(banner_text("WARM", false, "dr"), "   WARM \u{2014} dr");
    assert_eq!(refined_platform(Some(1u8), &vec![Some(2)]), Some(1));
    assert_eq!(refined_platform(None::<u8>, &vec![None, Some(2), Some(3)]), Some(2));
    assert_eq!(refined_platform(None::<u8>, &vec![None]), None);
}
