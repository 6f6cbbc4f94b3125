use kubernation::advisor::{Advisor, AdvisorTab};
use kubernation::text::{ascii, dec_string};
use kubernation::ui::{
    browse_row, kind_row, list_status, ListState, about_sections, abbrev, almanac_action, charter_focus_ns, tab_window_click, title,
    truncate_str, AdvisorAction, Almanac, AlmanacAction, BrowseMode, Browser, NamespaceFilter,
    Page, WindowClick,
};

#[test]
fn about_carries_the_required_credits_and_disclaimer() {
    let all: String = about_sections()
        .iter()
        .flat_map(|s| std::iter::once(s.heading.to_string()).chain(s.lines.clone()))
        .collect::<Vec<_>>()
        .join("\n");
    assert!(all.contains("Jason Olmsted"), "credits Jason Olmsted");
    assert!(all.contains("Anthropic"), "credits the collaboration");
    assert!(all.contains("SIL Open Font License"), "names the SIL-OFL the bundled fonts require");
    assert!(all.contains("Fira Sans") && all.contains("Liberation"));
    assert!(all.contains("ISC") && all.contains("BSD-3-Clause"));
    assert!(all.contains("THIRD-PARTY-NOTICES"));
    assert!(all.contains("unaffiliated") || all.contains("not\nassociated"), "states it's an unaffiliated homage");
    assert!(all.contains("Take-Two") && all.contains("Firaxis"));
    assert!(all.contains("Civilization"));
}

#[test]
fn a_tabbed_window_click_means_one_thing() {
    assert_eq!(tab_window_click(false, true, Some(0), false, 3), WindowClick::Stay);
    assert_eq!(tab_window_click(true, true, Some(0), true, 3), WindowClick::Close);
    assert_eq!(tab_window_click(true, false, Some(2), true, 3), WindowClick::Tab(2));
    assert_eq!(tab_window_click(true, false, Some(3), true, 3), WindowClick::Close, "the trailing Close button");
    assert_eq!(tab_window_click(true, false, None, false, 3), WindowClick::Close, "a click outside");
    assert_eq!(tab_window_click(true, false, None, true, 3), WindowClick::Stay);
}

#[test]
fn the_advisor_window_switches_tabs_and_closes() {
    let mut a = Advisor::new(AdvisorTab::Health);
    assert_eq!(a.click(WindowClick::Tab(6)), AdvisorAction::Nothing);
    assert_eq!(a.tab, AdvisorTab::Cost);
    assert_eq!(a.click(WindowClick::Tab(8)), AdvisorAction::Close);
    assert_eq!(a.tab, AdvisorTab::Cost);
    assert_eq!(a.click(WindowClick::Close), AdvisorAction::Close);
    assert_eq!(a.click(WindowClick::Stay), AdvisorAction::Nothing);
}

#[test]
fn the_almanac_pages_cycle_and_jump() {
    let mut a = Almanac::new();
    assert_eq!(a.page, Page::Legend);
    a.cycle(-1);
    assert_eq!(a.page, Page::Reading);
    a.cycle(1);
    assert_eq!(a.page, Page::Legend);
    a.go_idx(2);
    assert_eq!(a.page, Page::Controls);
    a.go_idx(9);
    assert_eq!(a.page, Page::Controls);
    assert_eq!(a.page.idx(), 2);
}

#[test]
fn a_live_legend_entry_wins_over_the_window_click() {
    assert_eq!(almanac_action(Some((3, 4)), WindowClick::Close), AlmanacAction::Locate((3, 4)));
    assert_eq!(almanac_action(None, WindowClick::Tab(1)), AlmanacAction::Page(Page::World));
    assert_eq!(almanac_action(None, WindowClick::Tab(4)), AlmanacAction::Close);
    assert_eq!(almanac_action(None, WindowClick::Stay), AlmanacAction::Nothing);
}

#[test]
fn the_browser_goes_back_from_a_table_then_asks_to_close() {
    let mut b = Browser::new();
    assert_eq!(b.mode, BrowseMode::Pick);
    b.force_table("ConfigMap".into());
    assert_eq!(b.mode, BrowseMode::Table);
    assert_eq!(b.kind_label, "ConfigMap");
    assert!(b.back());
    assert_eq!(b.mode, BrowseMode::Pick);
    assert!(!b.back());
}

#[test]
fn titles_and_truncation() {
    assert_eq!(title("Pod", "demo", "web"), "Pod demo/web");
    assert_eq!(title("Node", "", "n1"), "Node n1");
    assert_eq!(truncate_str("abcdef", 4), "abc~");
    assert_eq!(truncate_str("abc", 4), "abc");
    assert_eq!(abbrev("abcdef", 3), "ab\u{2026}");
    assert_eq!(abbrev("abcdef", 0), "\u{2026}");
}

#[test]
fn the_charter_opens_on_the_single_filtered_namespace_else_default() {
    let observed: Vec<String> = vec!["kube-system".into(), "default".into()];
    assert_eq!(charter_focus_ns(&NamespaceFilter::Only(vec!["demo".into()]), &observed), "demo");
    assert_eq!(charter_focus_ns(&NamespaceFilter::All, &observed), "default");
    assert_eq!(charter_focus_ns(&NamespaceFilter::Only(vec!["a".into(), "b".into()]), &vec!["x".into()]), "x");
    assert_eq!(charter_focus_ns(&NamespaceFilter::All, &vec![]), "default");
}

#[test]
fn counts_render_in_decimal() {
    assert_eq!(dec_string(0), "0");
    assert_eq!(dec_string(7), "7");
    assert_eq!(dec_string(1200), "1200");
    assert_eq!(dec_string(u64::MAX), "18446744073709551615");
}

#[test]
fn ascii_swaps_undrawable_glyphs_one_for_one() {
    assert_eq!(ascii("\u{25b8} go \u{203c}"), "> go !");
    assert_eq!(ascii("a \u{2014} b \u{b7} c"), "a \u{2014} b \u{b7} c");
    assert_eq!(ascii("\u{2192}\u{2298}\u{2263}"), "?o=");
    assert_eq!(ascii(""), "");
}

#[test]
fn browse_rows_align_names_and_ages() {
    let r = browse_row("demo", "web", "5m");
    assert_eq!(r.chars().count(), 58 + 2);
    assert!(r.starts_with("demo/web "));
    assert!(r.ends_with(" 5m"));
    let long = "n".repeat(70);
    let clipped = browse_row("", &long, "1d");
    assert_eq!(clipped, format!("{}\u{2026}  1d", "n".repeat(55)));
    assert_eq!(browse_row("", "node-1", "2h"), format!("{:<58}2h", "node-1"));
}

#[test]
fn kind_rows_and_list_status() {
    assert_eq!(kind_row("Pod", true), "Pod");
    assert_eq!(kind_row("Node", false), "Node  \u{b7}  cluster");
    assert_eq!(list_status(&ListState::Listing), Some("listing\u{2026}".to_string()));
    assert_eq!(list_status(&ListState::Failed("403".into())), Some("could not list: 403".to_string()));
    assert_eq!(list_status(&ListState::Empty), Some("(no objects)".to_string()));
    assert_eq!(list_status(&ListState::Rows { count: 500, truncated: true }), Some("\u{2026} showing first 500 (more on the server)".to_string()));
    assert_eq!(list_status(&ListState::Rows { count: 5, truncated: false }), None);
}
