//! The 4X-style menu bar: the menus and their items (with radio marks and
//! enablement drawn from live state), and the open/close/pick state machine
//! a frame's hover and click drive. Geometry (which title or row is under
//! the mouse) is measured by the caller.

use vstd::prelude::*;
use crate::text::{dec, push_dec, push_str};
use crate::advisor::AdvisorTab;

verus! {

/// The map overlay (what the terrain colours encode).
#[derive(Debug, Clone, Copy, PartialEq, Eq, Structural)]
pub enum Overlay {
    Terrain,
    Pressure,
    Replicas,
    Namespace,
    Coverage,
    Saturation,
    Cost,
    Substrate,
}

/// The map rendering style.
#[derive(Debug, Clone, Copy, PartialEq, Eq, Structural)]
pub enum MapStyle {
    Plain,
    Relief,
}

/// A command issued by picking a menu item.
#[derive(Debug, Clone, Copy, PartialEq, Eq, Structural)]
pub enum MenuAction {
    /// Reclaim every slot whose node departed (explicit and confirmed).
    Compact,
    SwitchContext,
    Fit,
    ExportPostmortem,
    Quit,
    SetOverlay(Overlay),
    SetMapStyle(MapStyle),
    EndTurn,
    DiscardTurn,
    ChaosOpen,
    NamespaceFilter,
    Advisor(AdvisorTab),
    Charter,
    OracleConsult,
    Almanac,
    About,
    Annals,
    Workloads,
    ToggleColorblind,
    /// Set the ageing window in minutes (0 disables the marking).
    SetFreshMinutes(u64),
    /// Show or hide the reference frame.
    ToggleGraticule,
}

/// The live state the bar reflects.
#[derive(Debug, Clone)]
pub struct MenuCtx {
    pub overlay: Overlay,
    pub style: MapStyle,
    /// Staged interventions awaiting End of Turn.
    pub staged: usize,
    /// A namespace filter is active.
    pub ns_active: bool,
    /// The ageing window in whole minutes (0 = never marked).
    pub fresh_minutes: u64,
    /// The reference frame is drawn.
    pub graticule: bool,
    /// The colour-blind palette is on.
    pub colorblind: bool,
    /// The version shown in the Help menu.
    pub version: String,
}

/// One dropdown row. No action with a non-empty label is a section
/// header; an empty label is a separator rule.
#[derive(Debug, Clone)]
pub struct Item {
    pub label: String,
    pub action: Option<MenuAction>,
    pub checked: bool,
    pub enabled: bool,
}

/// One menu: a title and its rows.
#[derive(Debug, Clone)]
pub struct Menu {
    pub title: String,
    pub items: Vec<Item>,
}

/// An item as (label, action, checked, enabled).
pub type ItemV = (Seq<char>, Option<MenuAction>, bool, bool);

/// The view of an item.
pub open spec fn item_view(i: Item) -> ItemV {
    (i.label@, i.action, i.checked, i.enabled)
}

/// The view of a menu: its title and its rows.
pub open spec fn menu_view(m: Menu) -> (Seq<char>, Seq<ItemV>) {
    (m.title@, m.items@.map_values(|i: Item| item_view(i)))
}

/// A clickable row.
pub open spec fn act_v(label: Seq<char>, a: MenuAction) -> ItemV {
    (label, Some(a), false, true)
}

/// A clickable row with a radio mark.
pub open spec fn check_v(label: Seq<char>, a: MenuAction, on: bool) -> ItemV {
    (label, Some(a), on, true)
}

/// A non-clickable header or footnote (a separator when empty).
pub open spec fn header_v(label: Seq<char>) -> ItemV {
    (label, None, false, false)
}

/// The ageing windows the View menu offers, with their labels.
pub open spec fn fresh_choices_spec() -> Seq<(u64, Seq<char>)> {
    seq![(0u64, "off"@), (5u64, "5 minutes"@), (15u64, "15 minutes"@), (60u64, "1 hour"@), (240u64, "4 hours"@)]
}

/// The Game menu.
pub open spec fn game_menu() -> (Seq<char>, Seq<ItemV>) {
    (
        "Game"@,
        seq![
            act_v("Switch context\u{2026}"@, MenuAction::SwitchContext),
            act_v("Fit view"@, MenuAction::Fit),
            act_v("Reclaim empty ground\u{2026}"@, MenuAction::Compact),
            header_v(Seq::empty()),
            act_v("Export after-action report\u{2026}"@, MenuAction::ExportPostmortem),
            header_v(Seq::empty()),
            act_v("Quit"@, MenuAction::Quit),
        ],
    )
}

/// The View menu: the overlay radio, the map-style radio, the ageing
/// window radio (marked only when the current window is one it offers),
/// then the toggles, each naming its current state.
pub open spec fn view_menu(ctx: MenuCtx) -> (Seq<char>, Seq<ItemV>) {
    (
        "View"@,
        seq![
            header_v("MAP OVERLAY"@),
            check_v("Terrain (health)"@, MenuAction::SetOverlay(Overlay::Terrain), ctx.overlay == Overlay::Terrain),
            check_v("Pressure (cpu/mem)"@, MenuAction::SetOverlay(Overlay::Pressure), ctx.overlay == Overlay::Pressure),
            check_v("Replicas (health)"@, MenuAction::SetOverlay(Overlay::Replicas), ctx.overlay == Overlay::Replicas),
            check_v("Namespace (territory)"@, MenuAction::SetOverlay(Overlay::Namespace), ctx.overlay == Overlay::Namespace),
            check_v("Walls (segmentation)"@, MenuAction::SetOverlay(Overlay::Coverage), ctx.overlay == Overlay::Coverage),
            check_v("Saturation (strain)"@, MenuAction::SetOverlay(Overlay::Saturation), ctx.overlay == Overlay::Saturation),
            check_v("Upkeep (cost)"@, MenuAction::SetOverlay(Overlay::Cost), ctx.overlay == Overlay::Cost),
            check_v("Substrate (daemonsets)"@, MenuAction::SetOverlay(Overlay::Substrate), ctx.overlay == Overlay::Substrate),
            header_v(Seq::empty()),
            header_v("MAP STYLE"@),
            check_v("Plain (flat chart)"@, MenuAction::SetMapStyle(MapStyle::Plain), ctx.style == MapStyle::Plain),
            check_v("Relief (raised terrain)"@, MenuAction::SetMapStyle(MapStyle::Relief), ctx.style == MapStyle::Relief),
            header_v(Seq::empty()),
            header_v("AGEING WINDOW"@),
        ] + fresh_choices_spec().map_values(
            |c: (u64, Seq<char>)| check_v(c.1, MenuAction::SetFreshMinutes(c.0), ctx.fresh_minutes == c.0),
        ) + seq![
            header_v(Seq::empty()),
            act_v("Annals (what changed) \u{2014} H"@, MenuAction::Annals),
            act_v("Workloads (table) \u{2014} O"@, MenuAction::Workloads),
            act_v(
                if ctx.graticule {
                    "Reference frame: on"@
                } else {
                    "Reference frame: off"@
                },
                MenuAction::ToggleGraticule,
            ),
            act_v(
                if ctx.colorblind {
                    "Colour-blind palette: on"@
                } else {
                    "Colour-blind palette: off"@
                },
                MenuAction::ToggleColorblind,
            ),
        ],
    )
}

/// The Orders menu: its title and End of Turn carry the staged count, and
/// both rows are live only when something is staged.
pub open spec fn orders_menu(ctx: MenuCtx) -> (Seq<char>, Seq<ItemV>) {
    let staged = ctx.staged > 0;
    (
        if staged {
            "Orders ("@ + dec(ctx.staged as nat) + ")"@
        } else {
            "Orders"@
        },
        seq![
            (
                if staged {
                    "End of turn ("@ + dec(ctx.staged as nat) + ")\u{2026}"@
                } else {
                    "End of turn\u{2026}"@
                },
                Some(MenuAction::EndTurn),
                false,
                staged,
            ),
            ("Discard staged changes"@, Some(MenuAction::DiscardTurn), false, staged),
        ],
    )
}

/// The remaining menus: Game Day, Advisors, Wonders, World and Help.
pub open spec fn tail_menus(ctx: MenuCtx) -> Seq<(Seq<char>, Seq<ItemV>)> {
    seq![
        ("Game Day"@, seq![act_v("Chaos drill\u{2026}"@, MenuAction::ChaosOpen)]),
        (
            "Advisors"@,
            seq![
                act_v("Health (state of the realm)"@, MenuAction::Advisor(AdvisorTab::Health)),
                act_v("Storage (granaries)"@, MenuAction::Advisor(AdvisorTab::Storage)),
                act_v("Network (harbors & gates)"@, MenuAction::Advisor(AdvisorTab::Network)),
                act_v("Right-sizing (requests vs usage)"@, MenuAction::Advisor(AdvisorTab::RightSizing)),
                act_v("Hardening (pod security)"@, MenuAction::Advisor(AdvisorTab::Hardening)),
                act_v("Posture (realm defense score)"@, MenuAction::Advisor(AdvisorTab::Posture)),
                act_v("Cost (upkeep)"@, MenuAction::Advisor(AdvisorTab::Cost)),
            ],
        ),
        ("Wonders"@, seq![act_v("Oracle (consult a model)\u{2026}"@, MenuAction::OracleConsult)]),
        (
            "World"@,
            seq![check_v("Namespace filter\u{2026}"@, MenuAction::NamespaceFilter, ctx.ns_active)],
        ),
        (
            "Help"@,
            seq![
                act_v("Charter (your access)"@, MenuAction::Charter),
                act_v("Field guide (almanac)"@, MenuAction::Almanac),
                act_v("About KuberNation\u{2026}"@, MenuAction::About),
                header_v(Seq::empty()),
                header_v("KuberNation v"@ + ctx.version@),
            ],
        ),
    ]
}

/// The whole bar, left to right.
pub open spec fn menus_spec(ctx: MenuCtx) -> Seq<(Seq<char>, Seq<ItemV>)> {
    seq![game_menu(), view_menu(ctx), orders_menu(ctx)] + tail_menus(ctx)
}

fn act(label: &str, a: MenuAction) -> (r: Item)
    ensures
        item_view(r) == act_v(label@, a),
{
    Item { label: String::from_str(label), action: Some(a), checked: false, enabled: true }
}

fn check(label: &str, a: MenuAction, on: bool) -> (r: Item)
    ensures
        item_view(r) == check_v(label@, a, on),
{
    Item { label: String::from_str(label), action: Some(a), checked: on, enabled: true }
}

fn header(label: &str) -> (r: Item)
    ensures
        item_view(r) == header_v(label@),
{
    Item { label: String::from_str(label), action: None, checked: false, enabled: false }
}

fn sep() -> (r: Item)
    ensures
        item_view(r) == header_v(Seq::empty()),
{
    Item { label: String::new(), action: None, checked: false, enabled: false }
}

spec fn views(v: Seq<Item>) -> Seq<ItemV> {
    v.map_values(|i: Item| item_view(i))
}

/// The ageing windows the View menu offers.
pub fn fresh_choices() -> (r: Vec<(u64, &'static str)>)
    ensures
        r@.map_values(|c: (u64, &'static str)| (c.0, c.1@)) == fresh_choices_spec(),
{
    let r = vec![(0u64, "off"), (5u64, "5 minutes"), (15u64, "15 minutes"), (60u64, "1 hour"), (240u64, "4 hours")];
    assert(r@.map_values(|c: (u64, &'static str)| (c.0, c.1@)) =~= fresh_choices_spec());
    r
}

fn game() -> (r: Menu)
    ensures
        menu_view(r) == game_menu(),
{
    let items = vec![
        act("Switch context\u{2026}", MenuAction::SwitchContext),
        act("Fit view", MenuAction::Fit),
        act("Reclaim empty ground\u{2026}", MenuAction::Compact),
        sep(),
        act("Export after-action report\u{2026}", MenuAction::ExportPostmortem),
        sep(),
        act("Quit", MenuAction::Quit),
    ];
    let r = Menu { title: String::from_str("Game"), items };
    assert(menu_view(r).1 =~= game_menu().1);
    r
}

fn view(ctx: &MenuCtx) -> (r: Menu)
    ensures
        menu_view(r) == view_menu(*ctx),
{
    let mut items = vec![
        header("MAP OVERLAY"),
        check("Terrain (health)", MenuAction::SetOverlay(Overlay::Terrain), ctx.overlay == Overlay::Terrain),
        check("Pressure (cpu/mem)", MenuAction::SetOverlay(Overlay::Pressure), ctx.overlay == Overlay::Pressure),
        check("Replicas (health)", MenuAction::SetOverlay(Overlay::Replicas), ctx.overlay == Overlay::Replicas),
        check("Namespace (territory)", MenuAction::SetOverlay(Overlay::Namespace), ctx.overlay == Overlay::Namespace),
        check("Walls (segmentation)", MenuAction::SetOverlay(Overlay::Coverage), ctx.overlay == Overlay::Coverage),
        check("Saturation (strain)", MenuAction::SetOverlay(Overlay::Saturation), ctx.overlay == Overlay::Saturation),
        check("Upkeep (cost)", MenuAction::SetOverlay(Overlay::Cost), ctx.overlay == Overlay::Cost),
        check("Substrate (daemonsets)", MenuAction::SetOverlay(Overlay::Substrate), ctx.overlay == Overlay::Substrate),
        sep(),
        header("MAP STYLE"),
        check("Plain (flat chart)", MenuAction::SetMapStyle(MapStyle::Plain), ctx.style == MapStyle::Plain),
        check("Relief (raised terrain)", MenuAction::SetMapStyle(MapStyle::Relief), ctx.style == MapStyle::Relief),
        sep(),
        header("AGEING WINDOW"),
    ];
    let ghost head = views(items@);
    assert(head =~= view_menu(*ctx).1.take(15));
    let choices = fresh_choices();
    let ghost cs = fresh_choices_spec();
    let mut i: usize = 0;
    while i < choices.len()
        invariant
            choices@.map_values(|c: (u64, &'static str)| (c.0, c.1@)) == cs,
            cs == fresh_choices_spec(),
            i <= choices@.len(),
            views(items@) == head + cs.take(i as int).map_values(
                |c: (u64, Seq<char>)| check_v(c.1, MenuAction::SetFreshMinutes(c.0), ctx.fresh_minutes == c.0),
            ),
        decreases choices.len() - i,
    {
        let (mins, label) = choices[i];
        assert(cs[i as int] == (mins, label@));
        let ghost before = items@;
        items.push(check(label, MenuAction::SetFreshMinutes(mins), ctx.fresh_minutes == mins));
        assert(views(items@) == views(before).push(item_view(items@[items@.len() - 1])));
        assert(cs.take(i + 1) == cs.take(i as int).push(cs[i as int]));
        i = i + 1;
    }
    assert(cs.take(cs.len() as int) == cs);
    let ghost mid = views(items@);
    assert(mid =~= view_menu(*ctx).1.take(20));
    let i0 = sep();
    let i1 = act("Annals (what changed) \u{2014} H", MenuAction::Annals);
    let i2 = act("Workloads (table) \u{2014} O", MenuAction::Workloads);
    let i3 = act(
        if ctx.graticule {
            "Reference frame: on"
        } else {
            "Reference frame: off"
        },
        MenuAction::ToggleGraticule,
    );
    let i4 = act(
        if ctx.colorblind {
            "Colour-blind palette: on"
        } else {
            "Colour-blind palette: off"
        },
        MenuAction::ToggleColorblind,
    );
    let ghost tail_v = seq![item_view(i0), item_view(i1), item_view(i2), item_view(i3), item_view(i4)];
    assert(tail_v =~= view_menu(*ctx).1.subrange(20, 25));
    let ghost n0 = items@;
    items.push(i0);
    items.push(i1);
    items.push(i2);
    items.push(i3);
    items.push(i4);
    assert(items@ =~= n0 + seq![i0, i1, i2, i3, i4]);
    assert(views(items@).len() == 25);
    assert(forall|k: int| 0 <= k < 20 ==> views(items@)[k] == mid[k]);
    assert(forall|k: int| 20 <= k < 25 ==> views(items@)[k] == tail_v[k - 20]);
    let ghost spec_items = view_menu(*ctx).1;
    assert(spec_items.len() == 25);
    assert forall|k: int| 0 <= k < 25 implies views(items@)[k] == spec_items[k] by {
        if k < 20 {
            assert(mid[k] == spec_items.take(20)[k]);
        } else {
            assert(tail_v[k - 20] == spec_items.subrange(20, 25)[k - 20]);
        }
    }
    assert(views(items@) =~= view_menu(*ctx).1);
    let r = Menu { title: String::from_str("View"), items };
    assert(menu_view(r).1 =~= view_menu(*ctx).1);
    r
}

fn orders(ctx: &MenuCtx) -> (r: Menu)
    ensures
        menu_view(r) == orders_menu(*ctx),
{
    let staged = ctx.staged > 0;
    let mut title = String::new();
    push_str(&mut title, "Orders");
    let mut end = String::new();
    push_str(&mut end, "End of turn");
    if staged {
        push_str(&mut title, " (");
        push_dec(&mut title, ctx.staged as u64);
        push_str(&mut title, ")");
        push_str(&mut end, " (");
        push_dec(&mut end, ctx.staged as u64);
        push_str(&mut end, ")");
    }
    push_str(&mut end, "\u{2026}");
    proof {
        reveal_strlit("Orders");
        reveal_strlit("Orders (");
        reveal_strlit(" (");
        reveal_strlit("End of turn");
        reveal_strlit("End of turn (");
        reveal_strlit("End of turn\u{2026}");
        reveal_strlit("\u{2026}");
        reveal_strlit(")\u{2026}");
        reveal_strlit(")");
        if staged {
            assert(title@ =~= "Orders ("@ + dec(ctx.staged as nat) + ")"@);
            assert(end@ =~= "End of turn ("@ + dec(ctx.staged as nat) + ")\u{2026}"@);
        } else {
            assert(end@ =~= "End of turn\u{2026}"@);
        }
    }
    let items = vec![
        Item { label: end, action: Some(MenuAction::EndTurn), checked: false, enabled: staged },
        Item {
            label: String::from_str("Discard staged changes"),
            action: Some(MenuAction::DiscardTurn),
            checked: false,
            enabled: staged,
        },
    ];
    let r = Menu { title, items };
    assert(menu_view(r).1 =~= orders_menu(*ctx).1);
    r
}

fn tail(ctx: &MenuCtx) -> (r: Vec<Menu>)
    ensures
        r@.map_values(|m: Menu| menu_view(m)) == tail_menus(*ctx),
{
    let gd = Menu {
        title: String::from_str("Game Day"),
        items: vec![act("Chaos drill\u{2026}", MenuAction::ChaosOpen)],
    };
    let adv = Menu {
        title: String::from_str("Advisors"),
        items: vec![
            act("Health (state of the realm)", MenuAction::Advisor(AdvisorTab::Health)),
            act("Storage (granaries)", MenuAction::Advisor(AdvisorTab::Storage)),
            act("Network (harbors & gates)", MenuAction::Advisor(AdvisorTab::Network)),
            act("Right-sizing (requests vs usage)", MenuAction::Advisor(AdvisorTab::RightSizing)),
            act("Hardening (pod security)", MenuAction::Advisor(AdvisorTab::Hardening)),
            act("Posture (realm defense score)", MenuAction::Advisor(AdvisorTab::Posture)),
            act("Cost (upkeep)", MenuAction::Advisor(AdvisorTab::Cost)),
        ],
    };
    let won = Menu {
        title: String::from_str("Wonders"),
        items: vec![act("Oracle (consult a model)\u{2026}", MenuAction::OracleConsult)],
    };
    let world = Menu {
        title: String::from_str("World"),
        items: vec![check("Namespace filter\u{2026}", MenuAction::NamespaceFilter, ctx.ns_active)],
    };
    let mut ver = String::new();
    push_str(&mut ver, "KuberNation v");
    push_str(&mut ver, ctx.version.as_str());
    let help = Menu {
        title: String::from_str("Help"),
        items: vec![
            act("Charter (your access)", MenuAction::Charter),
            act("Field guide (almanac)", MenuAction::Almanac),
            act("About KuberNation\u{2026}", MenuAction::About),
            sep(),
            Item { label: ver, action: None, checked: false, enabled: false },
        ],
    };
    assert(menu_view(gd).1 =~= tail_menus(*ctx)[0].1);
    assert(menu_view(adv).1 =~= tail_menus(*ctx)[1].1);
    assert(menu_view(won).1 =~= tail_menus(*ctx)[2].1);
    assert(menu_view(world).1 =~= tail_menus(*ctx)[3].1);
    assert(menu_view(help).1 =~= tail_menus(*ctx)[4].1);
    let r = vec![gd, adv, won, world, help];
    assert(r@.map_values(|m: Menu| menu_view(m)) =~= tail_menus(*ctx));
    r
}

/// Builds the menu bar for the current state.
pub fn menus(ctx: &MenuCtx) -> (r: Vec<Menu>)
    ensures
        r@.map_values(|m: Menu| menu_view(m)) == menus_spec(*ctx),
{
    let mut r = vec![game(), view(ctx), orders(ctx)];
    let ghost head = r@.map_values(|m: Menu| menu_view(m));
    let mut t = tail(ctx);
    r.append(&mut t);
    assert(r@.map_values(|m: Menu| menu_view(m)) =~= menus_spec(*ctx));
    r
}


/// The View menu's ageing-window rows.
pub open spec fn ageing_rows(ctx: MenuCtx) -> Seq<ItemV> {
    view_menu(ctx).1.subrange(15, 20)
}

/// The ageing radio marks at most one row, the row whose window is the
/// current one; a window the menu does not offer marks nothing.
pub proof fn lemma_ageing_radio_marks_the_active_window(ctx: MenuCtx)
    ensures
        forall|k: int|
            0 <= k < 5 ==> (#[trigger] ageing_rows(ctx)[k]).2 == (ctx.fresh_minutes
                == fresh_choices_spec()[k].0),
        forall|a: int, b: int|
            0 <= a < 5 && 0 <= b < 5 && (#[trigger] ageing_rows(ctx)[a]).2 && (
            #[trigger] ageing_rows(ctx)[b]).2 ==> a == b,
        (exists|k: int| 0 <= k < 5 && (#[trigger] ageing_rows(ctx)[k]).2) <==> (ctx.fresh_minutes
            == 0 || ctx.fresh_minutes == 5 || ctx.fresh_minutes == 15 || ctx.fresh_minutes == 60
            || ctx.fresh_minutes == 240),
{
    let rows = ageing_rows(ctx);
    assert(forall|k: int| 0 <= k < 5 ==> rows[k] == view_menu(ctx).1[15 + k]);
    if ctx.fresh_minutes == 0 {
        assert(rows[0].2);
    } else if ctx.fresh_minutes == 5 {
        assert(rows[1].2);
    } else if ctx.fresh_minutes == 15 {
        assert(rows[2].2);
    } else if ctx.fresh_minutes == 60 {
        assert(rows[3].2);
    } else if ctx.fresh_minutes == 240 {
        assert(rows[4].2);
    }
}

/// End of turn and Discard are live exactly when something is staged.
pub proof fn lemma_orders_live_only_when_staged(ctx: MenuCtx)
    ensures
        orders_menu(ctx).1[0].3 == (ctx.staged > 0),
        orders_menu(ctx).1[1].3 == (ctx.staged > 0),
{
}

/// Whether a row can be picked: it has an action and is enabled.
pub open spec fn is_live(i: ItemV) -> bool {
    i.1 is Some && i.3
}

impl Item {
    /// A clickable row whose action is live this frame.
    pub fn is_live(&self) -> (r: bool)
        ensures
            r == is_live(item_view(*self)),
    {
        self.action.is_some() && self.enabled
    }
}

/// One frame of the bar: the menu open after it and the action picked.
///
/// With a title under the mouse: an open menu slides to it, and a click
/// toggles it against the menu that was open coming in (the same title
/// closes, another opens). Otherwise: a click on a live row of the open
/// menu picks its action and closes the menu; any other click closes it;
/// without a click nothing changes.
pub open spec fn menu_step_spec(
    menus: Seq<(Seq<char>, Seq<ItemV>)>,
    open: Option<usize>,
    hovered_title: Option<usize>,
    hovered_row: Option<usize>,
    click: bool,
) -> (Option<usize>, Option<MenuAction>) {
    match hovered_title {
        Some(t) => if click {
            (
                if open == Some(t) {
                    None
                } else {
                    Some(t)
                },
                None,
            )
        } else {
            (
                if open is Some {
                    Some(t)
                } else {
                    None
                },
                None,
            )
        },
        None => if !click {
            (open, None)
        } else {
            match (open, hovered_row) {
                (Some(m), Some(k)) => if is_live(menus[m as int].1[k as int]) {
                    (None, menus[m as int].1[k as int].1)
                } else {
                    (None, None)
                },
                _ => (None, None),
            }
        },
    }
}

/// Advances the bar by one frame. `hovered_title` is the title under the
/// mouse; `hovered_row` the row of the open menu under the mouse (rows sit
/// below the titles, so at most one of the two is set).
pub fn menu_step(
    menus: &Vec<Menu>,
    open: Option<usize>,
    hovered_title: Option<usize>,
    hovered_row: Option<usize>,
    click: bool,
) -> (r: (Option<usize>, Option<MenuAction>))
    requires
        match open {
            Some(m) => m < menus@.len() && match hovered_row {
                Some(k) => k < menus@[m as int].items@.len(),
                None => true,
            },
            None => true,
        },
    ensures
        r == menu_step_spec(menus@.map_values(|m: Menu| menu_view(m)), open, hovered_title, hovered_row, click),
{
    let ghost mv = menus@.map_values(|m: Menu| menu_view(m));
    match hovered_title {
        Some(t) => if click {
            (
                if open == Some(t) {
                    None
                } else {
                    Some(t)
                },
                None,
            )
        } else {
            (
                if open.is_some() {
                    Some(t)
                } else {
                    None
                },
                None,
            )
        },
        None => if !click {
            (open, None)
        } else {
            match (open, hovered_row) {
                (Some(m), Some(k)) => {
                    let it = &menus[m].items[k];
                    assert(mv[m as int].1[k as int] == item_view(*it));
                    if it.is_live() {
                        (None, it.action)
                    } else {
                        (None, None)
                    }
                },
                _ => (None, None),
            }
        },
    }
}

/// Clicking the title of the open menu closes it; clicking any other
/// title opens that one.
pub proof fn lemma_title_click_toggles(
    menus: Seq<(Seq<char>, Seq<ItemV>)>,
    open: Option<usize>,
    t: usize,
    row: Option<usize>,
)
    ensures
        open == Some(t) ==> menu_step_spec(menus, open, Some(t), row, true).0 is None,
        open != Some(t) ==> menu_step_spec(menus, open, Some(t), row, true).0 == Some(t),
        menu_step_spec(menus, open, Some(t), row, true).1 is None,
{
}

/// A click anywhere but on a title leaves every menu closed, and an action
/// comes back only from a live row of the menu that was open.
pub proof fn lemma_click_off_title_closes(
    menus: Seq<(Seq<char>, Seq<ItemV>)>,
    open: Option<usize>,
    row: Option<usize>,
)
    ensures
        menu_step_spec(menus, open, None, row, true).0 is None,
        menu_step_spec(menus, open, None, row, true).1 is Some ==> open is Some && row is Some
            && is_live(menus[open->0 as int].1[row->0 as int])
            && menu_step_spec(menus, open, None, row, true).1 == menus[open->0 as int].1[row->0 as int].1,
{
}

/// Without a click nothing is picked, a closed bar stays closed, and an
/// open menu only follows the mouse across the titles.
pub proof fn lemma_hover_never_picks_or_opens(
    menus: Seq<(Seq<char>, Seq<ItemV>)>,
    open: Option<usize>,
    title: Option<usize>,
    row: Option<usize>,
)
    ensures
        menu_step_spec(menus, open, title, row, false).1 is None,
        open is None ==> menu_step_spec(menus, open, title, row, false).0 is None,
        open is Some ==> menu_step_spec(menus, open, title, row, false).0 is Some,
{
}

} // verus!
