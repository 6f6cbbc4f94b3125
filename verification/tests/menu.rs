use kubernation::menu::{fresh_choices, menu_step, menus, MapStyle, Menu, MenuAction, MenuCtx, Overlay};

fn ctx(fresh_minutes: u64) -> MenuCtx {
    MenuCtx {
        overlay: Overlay::Terrain,
        style: MapStyle::Plain,
        staged: 0,
        ns_active: false,
        fresh_minutes,
        graticule: false,
        colorblind: false,
        version: "1.0.0".into(),
    }
}

fn view_of(ctx: &MenuCtx) -> Vec<(String, bool)> {
    menus(ctx)
        .into_iter()
        .find(|m| m.title == "View")
        .expect("a View menu")
        .items
        .into_iter()
        .filter(|i| matches!(i.action, Some(MenuAction::SetFreshMinutes(_))))
        .map(|i| (i.label, i.checked))
        .collect()
}

fn titles(ms: &[Menu]) -> Vec<&str> {
    ms.iter().map(|m| m.title.as_str()).collect()
}

#[test]
fn the_ageing_radio_marks_the_active_window() {
    for (mins, label) in fresh_choices() {
        let rows = view_of(&ctx(mins));
        let checked: Vec<_> = rows.iter().filter(|(_, c)| *c).collect();
        assert_eq!(checked.len(), 1, "exactly one row marked for {mins}m");
        assert_eq!(checked[0].0, label);
    }
}

#[test]
fn an_off_list_window_claims_no_choice() {
    let rows = view_of(&ctx(7));
    assert!(!rows.is_empty(), "the radio is still offered");
    assert!(rows.iter().all(|(_, checked)| !checked), "no row may claim a window it doesn't set");
}

#[test]
fn the_bar_lists_its_menus_in_order() {
    let ms = menus(&ctx(0));
    assert_eq!(titles(&ms), ["Game", "View", "Orders", "Game Day", "Advisors", "Wonders", "World", "Help"]);
    let help = &ms[7];
    assert_eq!(help.items.last().unwrap().label, "KuberNation v1.0.0");
}

#[test]
fn orders_are_live_only_when_something_is_staged() {
    let idle = menus(&ctx(0));
    assert_eq!(idle[2].title, "Orders");
    assert!(idle[2].items.iter().all(|i| !i.is_live()));
    let busy = menus(&MenuCtx { staged: 3, ..ctx(0) });
    assert_eq!(busy[2].title, "Orders (3)");
    assert_eq!(busy[2].items[0].label, "End of turn (3)\u{2026}");
    assert!(busy[2].items.iter().all(|i| i.is_live()));
}

#[test]
fn the_overlay_and_style_radios_follow_the_state() {
    let ms = menus(&MenuCtx { overlay: Overlay::Cost, style: MapStyle::Relief, graticule: true, ..ctx(0) });
    let view = &ms[1];
    let checked: Vec<&str> = view.items.iter().filter(|i| i.checked).map(|i| i.label.as_str()).collect();
    assert_eq!(checked, ["Upkeep (cost)", "Relief (raised terrain)", "off"]);
    assert!(view.items.iter().any(|i| i.label == "Reference frame: on"));
}

#[test]
fn clicking_a_live_row_picks_it_and_closes_the_menu() {
    let ms = menus(&ctx(0));
    let quit = ms[0].items.iter().position(|i| i.label == "Quit").unwrap();
    let (open, picked) = menu_step(&ms, Some(0), None, Some(quit), true);
    assert_eq!(open, None);
    assert_eq!(picked, Some(MenuAction::Quit));
}

#[test]
fn clicking_a_separator_or_a_dead_row_picks_nothing() {
    let ms = menus(&ctx(0));
    assert_eq!(menu_step(&ms, Some(0), None, Some(3), true), (None, None));
    assert_eq!(menu_step(&ms, Some(2), None, Some(0), true), (None, None));
}

#[test]
fn a_title_click_toggles_and_hover_slides_an_open_menu() {
    let ms = menus(&ctx(0));
    assert_eq!(menu_step(&ms, None, Some(1), None, true), (Some(1), None));
    assert_eq!(menu_step(&ms, Some(1), Some(1), None, true), (None, None));
    assert_eq!(menu_step(&ms, Some(1), Some(4), None, false), (Some(4), None));
    assert_eq!(menu_step(&ms, None, Some(4), None, false), (None, None));
    assert_eq!(menu_step(&ms, Some(1), None, None, false), (Some(1), None));
    assert_eq!(menu_step(&ms, Some(1), None, None, true), (None, None));
}
