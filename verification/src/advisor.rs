//! The advisor screens' pure halves: the tab strip, and the line builders
//! for the substrate (DaemonSet coverage), walls (segmentation), hardening,
//! posture and right-sizing tabs. Each line carries an [`RsRole`] that the
//! renderer maps to a colour.

use vstd::prelude::*;
use crate::text::{dec, push_dec, push_str, push_char};
use crate::order::{lex_le, lex_le_exec, lemma_lex_total, lemma_lex_trans};

verus! {

/// The advisor tabs, in strip order.
#[derive(Debug, Clone, Copy, PartialEq, Eq, Structural)]
pub enum AdvisorTab {
    Health,
    Storage,
    Network,
    RightSizing,
    Hardening,
    Posture,
    Cost,
    Substrate,
}

/// The number of advisor tabs.
pub const TAB_COUNT: usize = 8;

/// A tab's position in the strip.
pub open spec fn tab_idx(t: AdvisorTab) -> int {
    match t {
        AdvisorTab::Health => 0,
        AdvisorTab::Storage => 1,
        AdvisorTab::Network => 2,
        AdvisorTab::RightSizing => 3,
        AdvisorTab::Hardening => 4,
        AdvisorTab::Posture => 5,
        AdvisorTab::Cost => 6,
        AdvisorTab::Substrate => 7,
    }
}

/// The tab at a strip position (`0 <= i < 8`).
pub open spec fn tab_at(i: int) -> AdvisorTab {
    if i == 0 {
        AdvisorTab::Health
    } else if i == 1 {
        AdvisorTab::Storage
    } else if i == 2 {
        AdvisorTab::Network
    } else if i == 3 {
        AdvisorTab::RightSizing
    } else if i == 4 {
        AdvisorTab::Hardening
    } else if i == 5 {
        AdvisorTab::Posture
    } else if i == 6 {
        AdvisorTab::Cost
    } else {
        AdvisorTab::Substrate
    }
}

/// The label the strip shows for a tab.
pub open spec fn tab_label(t: AdvisorTab) -> Seq<char> {
    match t {
        AdvisorTab::Health => "Health"@,
        AdvisorTab::Storage => "Storage"@,
        AdvisorTab::Network => "Network"@,
        AdvisorTab::RightSizing => "Right-sizing"@,
        AdvisorTab::Hardening => "Hardening"@,
        AdvisorTab::Posture => "Posture"@,
        AdvisorTab::Cost => "Cost"@,
        AdvisorTab::Substrate => "Substrate"@,
    }
}

impl AdvisorTab {
    /// Every tab, in strip order.
    pub fn all() -> (r: Vec<AdvisorTab>)
        ensures
            r@.len() == TAB_COUNT,
            forall|i: int| 0 <= i < TAB_COUNT ==> #[trigger] r@[i] == tab_at(i),
    {
        let r = vec![
            AdvisorTab::Health,
            AdvisorTab::Storage,
            AdvisorTab::Network,
            AdvisorTab::RightSizing,
            AdvisorTab::Hardening,
            AdvisorTab::Posture,
            AdvisorTab::Cost,
            AdvisorTab::Substrate,
        ];
        assert(forall|i: int| 0 <= i < TAB_COUNT ==> #[trigger] r@[i] == tab_at(i));
        r
    }

    /// The strip's labels, in the same order as [`AdvisorTab::all`].
    pub fn labels() -> (r: Vec<&'static str>)
        ensures
            r@.len() == TAB_COUNT,
            forall|i: int| 0 <= i < TAB_COUNT ==> (#[trigger] r@[i])@ == tab_label(tab_at(i)),
    {
        let r = vec![
            "Health",
            "Storage",
            "Network",
            "Right-sizing",
            "Hardening",
            "Posture",
            "Cost",
            "Substrate",
        ];
        assert(forall|i: int| 0 <= i < TAB_COUNT ==> (#[trigger] r@[i])@ == tab_label(tab_at(i)));
        r
    }

    /// This tab's position in the strip.
    pub fn idx(self) -> (r: usize)
        ensures
            r == tab_idx(self),
            r < TAB_COUNT,
    {
        match self {
            AdvisorTab::Health => 0,
            AdvisorTab::Storage => 1,
            AdvisorTab::Network => 2,
            AdvisorTab::RightSizing => 3,
            AdvisorTab::Hardening => 4,
            AdvisorTab::Posture => 5,
            AdvisorTab::Cost => 6,
            AdvisorTab::Substrate => 7,
        }
    }

    /// The tab at a strip position, if there is one.
    pub fn at(i: usize) -> (r: Option<AdvisorTab>)
        ensures
            i < TAB_COUNT ==> r == Some(tab_at(i as int)),
            i >= TAB_COUNT ==> r is None,
    {
        if i == 0 {
            Some(AdvisorTab::Health)
        } else if i == 1 {
            Some(AdvisorTab::Storage)
        } else if i == 2 {
            Some(AdvisorTab::Network)
        } else if i == 3 {
            Some(AdvisorTab::RightSizing)
        } else if i == 4 {
            Some(AdvisorTab::Hardening)
        } else if i == 5 {
            Some(AdvisorTab::Posture)
        } else if i == 6 {
            Some(AdvisorTab::Cost)
        } else if i == 7 {
            Some(AdvisorTab::Substrate)
        } else {
            None
        }
    }
}

/// Every tab sits at its own index, and the label list names each one.
pub proof fn lemma_every_tab_has_a_label_at_its_index(t: AdvisorTab)
    ensures
        0 <= tab_idx(t) < TAB_COUNT,
        tab_at(tab_idx(t)) == t,
        tab_label(tab_at(tab_idx(t))) == tab_label(t),
{
}

/// The strip position `delta` steps from `i`, wrapping at both ends.
pub open spec fn cycled(i: int, delta: int) -> int {
    (i + delta) % (TAB_COUNT as int)
}

/// Which advisor tab is open. The scroll offset belongs to the window that
/// draws it; every tab change starts that window back at the top.
#[derive(Debug, Clone, Copy)]
pub struct Advisor {
    pub tab: AdvisorTab,
}

impl Advisor {
    /// An advisor open on `tab`.
    pub fn new(tab: AdvisorTab) -> (r: Advisor)
        ensures
            r.tab == tab,
    {
        Advisor { tab }
    }

    /// Switch to `tab`.
    pub fn go(&mut self, tab: AdvisorTab)
        ensures
            final(self).tab == tab,
    {
        self.tab = tab;
    }

    /// Step `delta` tabs along the strip, wrapping at both ends.
    pub fn cycle(&mut self, delta: i32)
        ensures
            tab_idx(final(self).tab) == cycled(tab_idx(old(self).tab), delta as int),
    {
        let start = self.tab.idx();
        let shifted: i64 = start as i64 + delta as i64 + 2147483648;
        let m: u64 = (shifted as u64) % 8;
        assert(m == (start + delta as int) % 8) by (nonlinear_arith)
            requires
                shifted == start + delta as int + 2147483648,
                shifted >= 0,
                m == (shifted as u64) % 8,
        ;
        let t = AdvisorTab::at(m as usize);
        self.tab = t.unwrap();
    }
}

/// Cycling forward and then back by the same amount lands on the tab one
/// started from.
pub proof fn lemma_cycle_round_trip(i: int, delta: int)
    requires
        0 <= i < TAB_COUNT,
    ensures
        cycled(cycled(i, delta), -delta) == i,
{
    assert(cycled(cycled(i, delta), -delta) == i) by (nonlinear_arith)
        requires
            0 <= i < 8,
    ;
}


/// The severity role of an advisor line, mapped to a theme colour when it
/// is drawn.
#[derive(Debug, Clone, Copy, PartialEq, Eq, Structural)]
pub enum RsRole {
    Headline,
    Heading,
    Good,
    Warn,
    Crit,
    Dim,
}

/// The view of a list of (text, role) lines.
pub open spec fn rs_view(v: Seq<(String, RsRole)>) -> Seq<(Seq<char>, RsRole)> {
    v.map_values(|t: (String, RsRole)| (t.0@, t.1))
}

/// Why a DaemonSet gap may be about the node rather than the DaemonSet.
/// The two facts are kept apart: a NotReady node may come back on its own,
/// a node publishing no capacity stays empty until something is fixed.
#[derive(Debug, Clone, Copy, PartialEq, Eq, Structural, Default)]
pub struct NodeTrouble {
    /// The kubelet is not reporting Ready.
    pub not_ready: bool,
    /// The node publishes no allocatable capacity.
    pub no_capacity: bool,
}

/// The parenthetical shown after a troubled node's name.
pub open spec fn trouble_note_spec(t: NodeTrouble) -> Option<Seq<char>> {
    if !t.not_ready && !t.no_capacity {
        None
    } else {
        let why = if t.not_ready && t.no_capacity {
            "NotReady, reports no capacity"@
        } else if t.not_ready {
            "NotReady"@
        } else {
            "reports no capacity"@
        };
        Some("("@ + why + " \u{2014} the node is the story)"@)
    }
}

impl NodeTrouble {
    /// Whether the node itself is the story.
    pub fn any(&self) -> (r: bool)
        ensures
            r == (self.not_ready || self.no_capacity),
    {
        self.not_ready || self.no_capacity
    }

    /// The parenthetical shown after the node name, or `None` when the node
    /// is ordinary and the gap really is the DaemonSet's. A node with both
    /// troubles names both.
    pub fn note(&self) -> (r: Option<String>)
        ensures
            match trouble_note_spec(*self) {
                Some(t) => r is Some && r->0@ == t,
                None => r is None,
            },
    {
        if !self.any() {
            return None;
        }
        let mut s = String::new();
        push_str(&mut s, "(");
        if self.not_ready {
            push_str(&mut s, "NotReady");
        }
        if self.not_ready && self.no_capacity {
            push_str(&mut s, ", ");
        }
        if self.no_capacity {
            push_str(&mut s, "reports no capacity");
        }
        push_str(&mut s, " \u{2014} the node is the story)");
        proof {
            reveal_strlit("NotReady");
            reveal_strlit(", ");
            reveal_strlit("reports no capacity");
            reveal_strlit("NotReady, reports no capacity");
            if self.not_ready && self.no_capacity {
                assert("NotReady"@ + ", "@ + "reports no capacity"@ =~= "NotReady, reports no capacity"@);
            }
        }
        Some(s)
    }
}

/// One node tile of the map, with the facts the substrate tab reads.
#[derive(Debug, Clone)]
pub struct NodeTile {
    pub name: String,
    /// The kubelet reports Ready.
    pub ready: bool,
    /// The node publishes no allocatable capacity.
    pub capacity_unreported: bool,
}

/// One zone (continent) of the map.
#[derive(Debug, Clone)]
pub struct MapZone {
    pub nodes: Vec<NodeTile>,
}

/// The map's node layout, zone by zone.
#[derive(Debug, Clone)]
pub struct MapModel {
    pub zones: Vec<MapZone>,
}

/// Every node tile of the map, zone by zone.
pub open spec fn map_tiles(zones: Seq<MapZone>) -> Seq<NodeTile>
    decreases zones.len(),
{
    if zones.len() == 0 {
        Seq::empty()
    } else {
        map_tiles(zones.drop_last()) + zones.last().nodes@
    }
}

/// A tile's trouble.
pub open spec fn tile_trouble(t: NodeTile) -> NodeTrouble {
    NodeTrouble { not_ready: !t.ready, no_capacity: t.capacity_unreported }
}

/// The (node, trouble) entries for the troubled tiles, in map order.
pub open spec fn troubled(tiles: Seq<NodeTile>) -> Seq<(Seq<char>, NodeTrouble)>
    decreases tiles.len(),
{
    if tiles.len() == 0 {
        Seq::empty()
    } else {
        let rest = troubled(tiles.drop_last());
        let t = tiles.last();
        if !t.ready || t.capacity_unreported {
            rest.push((t.name@, tile_trouble(t)))
        } else {
            rest
        }
    }
}

/// The view of a trouble table.
pub open spec fn trouble_view(v: Seq<(String, NodeTrouble)>) -> Seq<(Seq<char>, NodeTrouble)> {
    v.map_values(|e: (String, NodeTrouble)| (e.0@, e.1))
}

/// The per-node facts the substrate tab joins onto coverage: one entry per
/// troubled node, in map order; an ordinary node has none.
pub fn node_trouble(map: &MapModel) -> (r: Vec<(String, NodeTrouble)>)
    ensures
        trouble_view(r@) == troubled(map_tiles(map.zones@)),
{
    let mut out: Vec<(String, NodeTrouble)> = Vec::new();
    let mut z: usize = 0;
    while z < map.zones.len()
        invariant
            z <= map.zones@.len(),
            trouble_view(out@) == troubled(map_tiles(map.zones@.take(z as int))),
        decreases map.zones.len() - z,
    {
        let zone = &map.zones[z];
        let ghost before = map_tiles(map.zones@.take(z as int));
        let mut t: usize = 0;
        assert(before + zone.nodes@.take(0) == before);
        while t < zone.nodes.len()
            invariant
                t <= zone.nodes@.len(),
                trouble_view(out@) == troubled(before + zone.nodes@.take(t as int)),
            decreases zone.nodes.len() - t,
        {
            let tile = &zone.nodes[t];
            let ghost pre = before + zone.nodes@.take(t as int);
            assert((before + zone.nodes@.take(t + 1)).drop_last() == pre);
            assert((before + zone.nodes@.take(t + 1)).last() == zone.nodes@[t as int]);
            if !tile.ready || tile.capacity_unreported {
                let ghost o = out@;
                out.push((
                    tile.name.clone(),
                    NodeTrouble { not_ready: !tile.ready, no_capacity: tile.capacity_unreported },
                ));
                assert(trouble_view(out@) == trouble_view(o).push((tile.name@, tile_trouble(*tile))));
            }
            t = t + 1;
        }
        assert(zone.nodes@.take(zone.nodes@.len() as int) == zone.nodes@);
        assert(map.zones@.take(z + 1).drop_last() == map.zones@.take(z as int));
        assert(map.zones@.take(z + 1).last() == map.zones@[z as int]);
        z = z + 1;
    }
    assert(map.zones@.take(map.zones@.len() as int) == map.zones@);
    out
}

/// The trouble table holds exactly the troubled nodes: each entry is a
/// map tile that is NotReady or reports no capacity, carrying that tile's
/// own two facts, and every such tile has an entry; an ordinary node has
/// none.
pub proof fn lemma_trouble_table_is_the_troubled_tiles(tiles: Seq<NodeTile>)
    ensures
        forall|i: int|
            0 <= i < troubled(tiles).len() ==> exists|j: int|
                0 <= j < tiles.len() && (!tiles[j].ready || tiles[j].capacity_unreported)
                    && #[trigger] troubled(tiles)[i] == (
                    tiles[j].name@,
                    NodeTrouble { not_ready: !tiles[j].ready, no_capacity: tiles[j].capacity_unreported },
                ),
        forall|j: int|
            0 <= j < tiles.len() && (!(#[trigger] tiles[j]).ready || tiles[j].capacity_unreported)
                ==> exists|i: int|
                0 <= i < troubled(tiles).len() && troubled(tiles)[i] == (
                    tiles[j].name@,
                    NodeTrouble { not_ready: !tiles[j].ready, no_capacity: tiles[j].capacity_unreported },
                ),
        troubled(tiles).len() <= tiles.len(),
    decreases tiles.len(),
{
    if tiles.len() > 0 {
        let init = tiles.drop_last();
        lemma_trouble_table_is_the_troubled_tiles(init);
        let rest = troubled(init);
        let k = tiles.len() - 1;
        let t = tiles[k];
        let e = (t.name@, NodeTrouble { not_ready: !t.ready, no_capacity: t.capacity_unreported });
        assert forall|i: int| 0 <= i < troubled(tiles).len() implies exists|j: int|
            0 <= j < tiles.len() && (!tiles[j].ready || tiles[j].capacity_unreported)
                && #[trigger] troubled(tiles)[i] == (
                tiles[j].name@,
                NodeTrouble { not_ready: !tiles[j].ready, no_capacity: tiles[j].capacity_unreported },
            ) by {
            if i < rest.len() {
                assert(troubled(tiles)[i] == rest[i]);
                let j = choose|j: int|
                    0 <= j < init.len() && (!init[j].ready || init[j].capacity_unreported)
                        && #[trigger] rest[i] == (
                        init[j].name@,
                        NodeTrouble { not_ready: !init[j].ready, no_capacity: init[j].capacity_unreported },
                    );
                assert(tiles[j] == init[j]);
            } else {
                assert(troubled(tiles)[i] == e);
                assert(tiles[k] == t);
            }
        }
        assert forall|j: int|
            0 <= j < tiles.len() && (!(#[trigger] tiles[j]).ready || tiles[j].capacity_unreported)
                implies exists|i: int|
                0 <= i < troubled(tiles).len() && troubled(tiles)[i] == (
                    tiles[j].name@,
                    NodeTrouble { not_ready: !tiles[j].ready, no_capacity: tiles[j].capacity_unreported },
                ) by {
            if j < k {
                assert(tiles[j] == init[j]);
                let i = choose|i: int|
                    0 <= i < rest.len() && rest[i] == (
                        init[j].name@,
                        NodeTrouble { not_ready: !init[j].ready, no_capacity: init[j].capacity_unreported },
                    );
                assert(troubled(tiles)[i] == rest[i]);
            } else {
                assert(troubled(tiles)[rest.len() as int] == e);
            }
        }
    }
}

/// The trouble recorded for `node` (the last entry for it wins, as when
/// the table is collected into a map), or none.
pub open spec fn trouble_for(table: Seq<(Seq<char>, NodeTrouble)>, node: Seq<char>) -> NodeTrouble
    decreases table.len(),
{
    if table.len() == 0 {
        NodeTrouble { not_ready: false, no_capacity: false }
    } else if table.last().0 == node {
        table.last().1
    } else {
        trouble_for(table.drop_last(), node)
    }
}

fn lookup_trouble(table: &Vec<(String, NodeTrouble)>, node: &String) -> (r: NodeTrouble)
    ensures
        r == trouble_for(trouble_view(table@), node@),
{
    let mut i: usize = table.len();
    assert(table@.take(table@.len() as int) == table@);
    while i > 0
        invariant
            i <= table@.len(),
            trouble_for(trouble_view(table@), node@) == trouble_for(
                trouble_view(table@.take(i as int)),
                node@,
            ),
        decreases i,
    {
        let ghost pre = trouble_view(table@.take(i as int));
        assert(pre.drop_last() == trouble_view(table@.take(i - 1)));
        assert(pre.last() == (table@[i - 1].0@, table@[i - 1].1));
        if table[i - 1].0 == *node {
            return table[i - 1].1;
        }
        i = i - 1;
    }
    NodeTrouble { not_ready: false, no_capacity: false }
}

/// A node a DaemonSet is missing from, with whatever makes the node itself
/// the story.
#[derive(Debug, Clone, PartialEq, Eq)]
pub struct MissingNode {
    pub node: String,
    pub trouble: NodeTrouble,
}

/// One expected DaemonSet and where it is missing.
#[derive(Debug, Clone, PartialEq, Eq)]
pub struct SubstrateRow {
    /// `namespace/name`.
    pub daemonset: String,
    /// Nodes it is present on: all nodes less those it is missing from. A
    /// troubled node is counted like any other.
    pub on: usize,
    /// The nodes it is expected on and absent from, sorted by name, each
    /// with its trouble.
    pub missing: Vec<MissingNode>,
}

/// DaemonSet coverage across the fleet.
#[derive(Debug, Clone)]
pub struct SubstrateReport {
    pub nodes_total: usize,
    pub nodes_with_gaps: usize,
    /// The fleet-wide DaemonSets (`namespace/name`), sorted.
    pub expected: Vec<String>,
    /// Per node, the expected DaemonSets it lacks; each node is listed at
    /// most once (see [`SubstrateReport::nodes_listed_once`]).
    pub missing_by_node: Vec<(String, Vec<String>)>,
    /// The fleet size at or below which no gap is representable.
    pub floor_nodes: usize,
    /// The share of nodes (percent) that makes a DaemonSet fleet-wide.
    pub prevalence_pct: u64,
    /// The caveat that "expected" is inferred from prevalence.
    pub prevalence_note: String,
}

impl SubstrateReport {
    /// The report's invariant: `missing_by_node` is keyed by node, so no
    /// node name appears in it twice.
    pub open spec fn nodes_listed_once(&self) -> bool {
        forall|i: int, j: int|
            0 <= i < j < self.missing_by_node@.len() ==> (#[trigger] self.missing_by_node@[i]).0@
                != (#[trigger] self.missing_by_node@[j]).0@
    }
}

/// The view of a list of names.
pub open spec fn names(v: Seq<String>) -> Seq<Seq<char>> {
    v.map_values(|s: String| s@)
}

/// The view of a missing-node list.
pub open spec fn missing_view(v: Seq<MissingNode>) -> Seq<(Seq<char>, NodeTrouble)> {
    v.map_values(|m: MissingNode| (m.node@, m.trouble))
}

/// The nodes missing `ds`, in report order, each with its trouble.
pub open spec fn missing_for(
    gaps: Seq<(String, Vec<String>)>,
    table: Seq<(Seq<char>, NodeTrouble)>,
    ds: Seq<char>,
) -> Seq<(Seq<char>, NodeTrouble)>
    decreases gaps.len(),
{
    if gaps.len() == 0 {
        Seq::empty()
    } else {
        let rest = missing_for(gaps.drop_last(), table, ds);
        let (node, lacks) = gaps.last();
        if names(lacks@).contains(ds) {
            rest.push((node@, trouble_for(table, node@)))
        } else {
            rest
        }
    }
}

/// Sorted by node name.
pub open spec fn sorted_by_node(v: Seq<(Seq<char>, NodeTrouble)>) -> bool {
    forall|i: int, j: int| 0 <= i < j < v.len() ==> lex_le(v[i].0, v[j].0)
}

/// `a - b`, floored at zero.
pub open spec fn sat_sub(a: int, b: int) -> int {
    if a >= b {
        a - b
    } else {
        0
    }
}

/// `row` is the substrate row for `ds`: it names `ds`, lists exactly the
/// nodes missing it (sorted by name, each with its trouble) and counts the
/// rest as covered.
pub open spec fn row_for(
    row: SubstrateRow,
    r: SubstrateReport,
    table: Seq<(Seq<char>, NodeTrouble)>,
    ds: Seq<char>,
) -> bool {
    &&& row.daemonset@ == ds
    &&& sorted_by_node(missing_view(row.missing@))
    &&& missing_view(row.missing@).to_multiset() == missing_for(r.missing_by_node@, table, ds).to_multiset()
    &&& row.on == sat_sub(r.nodes_total as int, row.missing@.len() as int)
}

/// A DaemonSet is missing from exactly the nodes whose lack-list names
/// it, in report order, each carrying that node's recorded trouble.
pub proof fn lemma_missing_nodes_are_those_lacking_it(
    gaps: Seq<(String, Vec<String>)>,
    table: Seq<(Seq<char>, NodeTrouble)>,
    ds: Seq<char>,
)
    ensures
        missing_for(gaps, table, ds).map_values(|e: (Seq<char>, NodeTrouble)| e.0) == gaps.filter(
            |g: (String, Vec<String>)| names(g.1@).contains(ds),
        ).map_values(|g: (String, Vec<String>)| g.0@),
        forall|i: int|
            0 <= i < missing_for(gaps, table, ds).len() ==> (#[trigger] missing_for(gaps, table, ds)[i]).1
                == trouble_for(table, missing_for(gaps, table, ds)[i].0),
    decreases gaps.len(),
{
    reveal(Seq::filter);
    if gaps.len() > 0 {
        let init = gaps.drop_last();
        lemma_missing_nodes_are_those_lacking_it(init, table, ds);
        let rest = missing_for(init, table, ds);
        let f0 = init.filter(|g: (String, Vec<String>)| names(g.1@).contains(ds));
        let g = gaps.last();
        if names(g.1@).contains(ds) {
            let e = (g.0@, trouble_for(table, g.0@));
            assert(rest.push(e).map_values(|e: (Seq<char>, NodeTrouble)| e.0) =~= rest.map_values(
                |e: (Seq<char>, NodeTrouble)| e.0,
            ).push(g.0@));
            assert(f0.push(g).map_values(|g: (String, Vec<String>)| g.0@) =~= f0.map_values(
                |g: (String, Vec<String>)| g.0@,
            ).push(g.0@));
        }
    }
}

/// A row counts every node once: the nodes it is on and the nodes it is
/// missing from add up to the fleet (when it is missing from no more nodes
/// than the fleet has).
pub proof fn lemma_on_and_missing_add_up(
    row: SubstrateRow,
    r: SubstrateReport,
    table: Seq<(Seq<char>, NodeTrouble)>,
    ds: Seq<char>,
)
    requires
        row_for(row, r, table, ds),
        row.missing@.len() <= r.nodes_total,
    ensures
        row.on + row.missing@.len() == r.nodes_total,
        row.daemonset@ == ds,
{
}

/// A troubled node's note names its own troubles: NotReady when the
/// kubelet is not Ready, "reports no capacity" when it publishes none,
/// both when both; an ordinary node has no note.
pub proof fn lemma_trouble_note_names_each_trouble(t: NodeTrouble)
    ensures
        trouble_note_spec(t) is None <==> (!t.not_ready && !t.no_capacity),
        t.not_ready && !t.no_capacity ==> trouble_note_spec(t) == Some(
            "(NotReady \u{2014} the node is the story)"@,
        ),
        !t.not_ready && t.no_capacity ==> trouble_note_spec(t) == Some(
            "(reports no capacity \u{2014} the node is the story)"@,
        ),
        t.not_ready && t.no_capacity ==> trouble_note_spec(t) == Some(
            "(NotReady, reports no capacity \u{2014} the node is the story)"@,
        ),
{
    reveal_strlit("(");
    reveal_strlit("NotReady");
    reveal_strlit("reports no capacity");
    reveal_strlit("NotReady, reports no capacity");
    reveal_strlit(" \u{2014} the node is the story)");
    reveal_strlit("(NotReady \u{2014} the node is the story)");
    reveal_strlit("(reports no capacity \u{2014} the node is the story)");
    reveal_strlit("(NotReady, reports no capacity \u{2014} the node is the story)");
    if t.not_ready || t.no_capacity {
        let why = if t.not_ready && t.no_capacity {
            "NotReady, reports no capacity"@
        } else if t.not_ready {
            "NotReady"@
        } else {
            "reports no capacity"@
        };
        let n = "("@ + why + " \u{2014} the node is the story)"@;
        if t.not_ready && !t.no_capacity {
            assert(n =~= "(NotReady \u{2014} the node is the story)"@);
        } else if !t.not_ready {
            assert(n =~= "(reports no capacity \u{2014} the node is the story)"@);
        } else {
            assert(n =~= "(NotReady, reports no capacity \u{2014} the node is the story)"@);
        }
    }
}

fn contains_name(v: &Vec<String>, s: &String) -> (r: bool)
    ensures
        r == names(v@).contains(s@),
{
    let mut i: usize = 0;
    while i < v.len()
        invariant
            i <= v@.len(),
            forall|j: int| 0 <= j < i ==> v@[j]@ != s@,
        decreases v.len() - i,
    {
        if v[i] == *s {
            assert(names(v@)[i as int] == s@);
            return true;
        }
        i = i + 1;
    }
    assert(!names(v@).contains(s@)) by {
        if names(v@).contains(s@) {
            let j = choose|j: int| 0 <= j < names(v@).len() && names(v@)[j] == s@;
            assert(v@[j]@ == s@);
        }
    }
    false
}

proof fn lemma_insert_multiset<A>(s: Seq<A>, p: int, x: A)
    requires
        0 <= p <= s.len(),
    ensures
        s.insert(p, x).to_multiset() =~= s.to_multiset().insert(x),
{
    broadcast use vstd::seq_lib::group_to_multiset_ensures;
    let t = s.insert(p, x);
    assert(t.remove(p) =~= s);
    assert(t[p] == x);
    assert(t.contains(x));
    assert(s.to_multiset() =~= t.to_multiset().remove(x));
}

/// Inserts `m` into the name-sorted list `v`, after any equal names.
fn insert_sorted(v: &mut Vec<MissingNode>, m: MissingNode)
    requires
        sorted_by_node(missing_view(old(v)@)),
    ensures
        sorted_by_node(missing_view(final(v)@)),
        missing_view(final(v)@).to_multiset() =~= missing_view(old(v)@).to_multiset().insert(
            (m.node@, m.trouble),
        ),
{
    let ghost before = missing_view(v@);
    let mut p: usize = 0;
    while p < v.len() && lex_le_exec(&v[p].node, &m.node)
        invariant
            p <= v@.len(),
            missing_view(v@) == before,
            forall|i: int| 0 <= i < p ==> lex_le(before[i].0, m.node@),
        decreases v.len() - p,
    {
        p = p + 1;
    }
    let ghost x = (m.node@, m.trouble);
    v.insert(p, m);
    proof {
        let after = missing_view(v@);
        assert(after =~= before.insert(p as int, x));
        before.insert_ensures(p as int, x);
        if p < before.len() {
            lemma_lex_total(before[p as int].0, x.0);
        }
        assert forall|i: int, j: int| 0 <= i < j < after.len() implies lex_le(after[i].0, after[j].0) by {
            if j < p {
            } else if j == p {
            } else if i < p {
                // after[j] == before[j - 1], and x <= before[p] <= before[j - 1]
                lemma_lex_trans(before[i].0, x.0, before[p as int].0);
                if j - 1 > p {
                    lemma_lex_trans(before[i].0, before[p as int].0, before[j - 1].0);
                }
            } else if i == p {
                if j - 1 > p {
                    lemma_lex_trans(x.0, before[p as int].0, before[j - 1].0);
                }
            } else {
            }
        }
        lemma_insert_multiset(before, p as int, x);
    }
}

/// The substrate row for one expected DaemonSet.
fn substrate_row(
    r: &SubstrateReport,
    table: &Vec<(String, NodeTrouble)>,
    ds: &String,
) -> (row: SubstrateRow)
    ensures
        row_for(row, *r, trouble_view(table@), ds@),
{
    let ghost tv = trouble_view(table@);
    let mut missing: Vec<MissingNode> = Vec::new();
    let mut i: usize = 0;
    assert(missing_view(missing@) =~= missing_for(r.missing_by_node@.take(0), tv, ds@));
    while i < r.missing_by_node.len()
        invariant
            i <= r.missing_by_node@.len(),
            tv == trouble_view(table@),
            sorted_by_node(missing_view(missing@)),
            missing_view(missing@).to_multiset() == missing_for(
                r.missing_by_node@.take(i as int),
                tv,
                ds@,
            ).to_multiset(),
        decreases r.missing_by_node.len() - i,
    {
        broadcast use vstd::seq_lib::group_to_multiset_ensures;
        let entry = &r.missing_by_node[i];
        assert(r.missing_by_node@.take(i + 1).drop_last() == r.missing_by_node@.take(i as int));
        assert(r.missing_by_node@.take(i + 1).last() == r.missing_by_node@[i as int]);
        if contains_name(&entry.1, ds) {
            let trouble = lookup_trouble(table, &entry.0);
            insert_sorted(&mut missing, MissingNode { node: entry.0.clone(), trouble });
        }
        i = i + 1;
    }
    assert(r.missing_by_node@.take(r.missing_by_node@.len() as int) == r.missing_by_node@);
    let n = missing.len();
    let on = if r.nodes_total >= n {
        r.nodes_total - n
    } else {
        0
    };
    SubstrateRow { daemonset: ds.clone(), on, missing }
}

/// Inverts the per-node gaps into one row per expected DaemonSet, in the
/// report's order; a node missing two DaemonSets appears in both rows, and
/// a troubled node is tagged, never dropped and never uncounted.
pub fn substrate_rows(r: &SubstrateReport, trouble: &Vec<(String, NodeTrouble)>) -> (rows: Vec<SubstrateRow>)
    requires
        r.nodes_listed_once(),
    ensures
        rows@.len() == r.expected@.len(),
        forall|k: int|
            0 <= k < rows@.len() ==> row_for(
                #[trigger] rows@[k],
                *r,
                trouble_view(trouble@),
                r.expected@[k]@,
            ),
{
    let mut rows: Vec<SubstrateRow> = Vec::new();
    let mut k: usize = 0;
    while k < r.expected.len()
        invariant
            k <= r.expected@.len(),
            rows@.len() == k,
            forall|j: int|
                0 <= j < k ==> row_for(#[trigger] rows@[j], *r, trouble_view(trouble@), r.expected@[j]@),
        decreases r.expected.len() - k,
    {
        let row = substrate_row(r, trouble, &r.expected[k]);
        rows.push(row);
        k = k + 1;
    }
    rows
}


/// The line role for a DaemonSet row missing from `n` nodes.
pub open spec fn gap_role(n: nat) -> RsRole {
    if n == 0 {
        RsRole::Good
    } else if n == 1 {
        RsRole::Warn
    } else {
        RsRole::Crit
    }
}

/// The lines a missing node contributes under its DaemonSet's row: the
/// indented name, with the node's trouble after it (dimmed) when it has one.
pub open spec fn missing_line(m: (Seq<char>, NodeTrouble), role: RsRole) -> (Seq<char>, RsRole) {
    match trouble_note_spec(m.1) {
        Some(n) => ("    "@ + m.0 + "   "@ + n, RsRole::Dim),
        None => ("    "@ + m.0, role),
    }
}

/// The indented node lines under a row.
pub open spec fn missing_lines(ms: Seq<(Seq<char>, NodeTrouble)>, role: RsRole) -> Seq<(Seq<char>, RsRole)>
    decreases ms.len(),
{
    if ms.len() == 0 {
        Seq::empty()
    } else {
        missing_lines(ms.drop_last(), role).push(missing_line(ms.last(), role))
    }
}

/// A DaemonSet's block: its summary row, then its missing nodes.
pub open spec fn row_block(row: SubstrateRow, total: nat) -> Seq<(Seq<char>, RsRole)> {
    let role = gap_role(row.missing@.len());
    seq![
        (
            row.daemonset@ + "   on "@ + dec(row.on as nat) + " / "@ + dec(total) + "   missing from "@
                + dec(row.missing@.len()),
            role,
        ),
    ] + missing_lines(missing_view(row.missing@), role)
}

/// Every row's block, in row order.
pub open spec fn row_blocks(rows: Seq<SubstrateRow>, total: nat) -> Seq<(Seq<char>, RsRole)>
    decreases rows.len(),
{
    if rows.len() == 0 {
        Seq::empty()
    } else {
        row_blocks(rows.drop_last(), total) + row_block(rows.last(), total)
    }
}

/// The Substrate tab's text, given its rows. Three empty states are named
/// (no nodes yet; a fleet too small for any gap to be representable; no
/// DaemonSet fleet-wide) rather than shown as an empty table; otherwise a
/// headline (Good only when no node has a gap), the prevalence caveat, the
/// rows and the presence-not-health caveat.
pub open spec fn substrate_lines_spec(r: SubstrateReport, rows: Seq<SubstrateRow>) -> Seq<(Seq<char>, RsRole)> {
    let n = r.nodes_total as nat;
    if n == 0 {
        seq![("no nodes observed yet"@, RsRole::Dim)]
    } else if n <= r.floor_nodes {
        seq![
            (dec(n) + " nodes: no gap is representable at this size"@, RsRole::Headline),
            (
                "a daemonset is fleet-wide once it is on "@ + dec(r.prevalence_pct as nat)
                    + "% of nodes, and a gap needs it on fewer than all of them; at "@ + dec(
                    r.floor_nodes as nat,
                ) + " nodes or fewer those cannot both hold, so an empty table here means nothing about the fleet. "@
                    + dec((r.floor_nodes + 1) as nat)
                    + " nodes is the smallest fleet where a gap can exist to find."@,
                RsRole::Dim,
            ),
            (r.prevalence_note@, RsRole::Dim),
        ]
    } else if r.expected@.len() == 0 {
        seq![
            (dec(n) + " nodes: no daemonset reaches the fleet bar"@, RsRole::Headline),
            (
                "nothing is fleet-wide, so there is nothing to be missing from \u{2014} this is not 'all covered', it is 'no expectation to measure against'"@,
                RsRole::Dim,
            ),
            (r.prevalence_note@, RsRole::Dim),
        ]
    } else {
        seq![
            (
                dec(r.expected@.len()) + " fleet-wide daemonsets \u{b7} "@ + dec(
                    r.nodes_with_gaps as nat,
                ) + " of "@ + dec(n) + " nodes with gaps"@,
                if r.nodes_with_gaps == 0 {
                    RsRole::Good
                } else {
                    RsRole::Headline
                },
            ),
            (r.prevalence_note@, RsRole::Dim),
            (Seq::empty(), RsRole::Dim),
        ] + row_blocks(rows, n) + seq![
            (Seq::empty(), RsRole::Dim),
            (
                "coverage is presence, not health: a crash-looping daemonset pod still counts as covered. a node added moments ago shows gaps until its pods land."@,
                RsRole::Dim,
            ),
        ]
    }
}

pub(crate) fn push_line(out: &mut Vec<(String, RsRole)>, text: &str, role: RsRole)
    ensures
        rs_view(final(out)@) == rs_view(old(out)@).push((text@, role)),
{
    let mut s = String::new();
    push_str(&mut s, text);
    let ghost o = out@;
    out.push((s, role));
    assert(rs_view(out@) =~= rs_view(o).push((text@, role)));
}

pub(crate) fn push_owned(out: &mut Vec<(String, RsRole)>, text: String, role: RsRole)
    ensures
        rs_view(final(out)@) == rs_view(old(out)@).push((text@, role)),
{
    let ghost o = out@;
    out.push((text, role));
    assert(rs_view(out@) =~= rs_view(o).push((text@, role)));
}

fn push_row_block(out: &mut Vec<(String, RsRole)>, row: &SubstrateRow, total: usize)
    ensures
        rs_view(final(out)@) == rs_view(old(out)@) + row_block(*row, total as nat),
{
    let n = row.missing.len();
    let role = if n == 0 {
        RsRole::Good
    } else if n == 1 {
        RsRole::Warn
    } else {
        RsRole::Crit
    };
    let mut s = row.daemonset.clone();
    push_str(&mut s, "   on ");
    push_dec(&mut s, row.on as u64);
    push_str(&mut s, " / ");
    push_dec(&mut s, total as u64);
    push_str(&mut s, "   missing from ");
    push_dec(&mut s, n as u64);
    let ghost start = rs_view(out@);
    push_owned(out, s, role);
    let ghost mv = missing_view(row.missing@);
    let mut i: usize = 0;
    while i < n
        invariant
            n == row.missing@.len(),
            mv == missing_view(row.missing@),
            role == gap_role(n as nat),
            i <= n,
            rs_view(out@) == start + row_block(*row, total as nat).take(1 + i),
        decreases n - i,
    {
        let m = &row.missing[i];
        let mut line = String::new();
        push_str(&mut line, "    ");
        push_str(&mut line, m.node.as_str());
        let note = m.trouble.note();
        let r = match note {
            Some(t) => {
                push_str(&mut line, "   ");
                push_str(&mut line, t.as_str());
                RsRole::Dim
            },
            None => role,
        };
        proof {
            let blk = row_block(*row, total as nat);
            let ml = missing_lines(mv, role);
            assert(mv.take(i + 1).drop_last() == mv.take(i as int));
            assert(blk.take(1 + i + 1) == blk.take(1 + i).push(missing_line(mv[i as int], role))) by {
                lemma_missing_lines_index(mv, role, i as int);
            }
        }
        push_owned(out, line, r);
        i = i + 1;
    }
    assert(row_block(*row, total as nat).take(1 + n) == row_block(*row, total as nat)) by {
        lemma_missing_lines_len(missing_view(row.missing@), role);
    }
}

proof fn lemma_missing_lines_len(ms: Seq<(Seq<char>, NodeTrouble)>, role: RsRole)
    ensures
        missing_lines(ms, role).len() == ms.len(),
    decreases ms.len(),
{
    if ms.len() > 0 {
        lemma_missing_lines_len(ms.drop_last(), role);
    }
}

proof fn lemma_missing_lines_index(ms: Seq<(Seq<char>, NodeTrouble)>, role: RsRole, i: int)
    requires
        0 <= i < ms.len(),
    ensures
        missing_lines(ms, role)[i] == missing_line(ms[i], role),
        missing_lines(ms, role).len() == ms.len(),
    decreases ms.len(),
{
    lemma_missing_lines_len(ms, role);
    if i < ms.len() - 1 {
        lemma_missing_lines_index(ms.drop_last(), role, i);
    }
}

/// A DaemonSet's block reads as its gap count: the summary row names the
/// DaemonSet, the nodes it is on out of the fleet, and a "missing from"
/// figure equal to the number of node lines under it; it is Good
/// with no missing node, Warn with one and Crit with more; then one line per
/// missing node, in order, each starting with the indented node name, dimmed
/// exactly when that node has trouble (it is the story) and otherwise in the
/// row's own role.
pub proof fn lemma_row_block_roles(row: SubstrateRow, total: nat)
    ensures
        row_block(row, total).len() == 1 + row.missing@.len(),
        row_block(row, total)[0].0 == row.daemonset@ + "   on "@ + dec(row.on as nat) + " / "@
            + dec(total) + "   missing from "@ + dec((row_block(row, total).len() - 1) as nat),
        row_block(row, total)[0].1 == gap_role(row.missing@.len()),
        row.missing@.len() == 0 ==> row_block(row, total)[0].1 == RsRole::Good,
        row.missing@.len() == 1 ==> row_block(row, total)[0].1 == RsRole::Warn,
        row.missing@.len() >= 2 ==> row_block(row, total)[0].1 == RsRole::Crit,
        forall|i: int|
            0 <= i < row.missing@.len() ==> {
                let line = #[trigger] row_block(row, total)[1 + i];
                let m = row.missing@[i];
                &&& line.0.take(4 + m.node@.len() as int) == "    "@ + m.node@
                &&& (line.1 == RsRole::Dim <==> (m.trouble.not_ready || m.trouble.no_capacity))
                &&& (!(m.trouble.not_ready || m.trouble.no_capacity) ==> line.1 == gap_role(
                    row.missing@.len(),
                ))
            },
{
    let role = gap_role(row.missing@.len());
    let mv = missing_view(row.missing@);
    lemma_missing_lines_len(mv, role);
    reveal_strlit("    ");
    assert forall|i: int| 0 <= i < row.missing@.len() implies {
        let line = #[trigger] row_block(row, total)[1 + i];
        let m = row.missing@[i];
        &&& line.0.take(4 + m.node@.len() as int) == "    "@ + m.node@
        &&& (line.1 == RsRole::Dim <==> (m.trouble.not_ready || m.trouble.no_capacity))
        &&& (!(m.trouble.not_ready || m.trouble.no_capacity) ==> line.1 == role)
    } by {
        lemma_missing_lines_index(mv, role, i);
        let m = row.missing@[i];
        assert(mv[i] == (m.node@, m.trouble));
        let line = row_block(row, total)[1 + i];
        assert(line == missing_line(mv[i], role));
        match trouble_note_spec(m.trouble) {
            Some(n) => {
                assert(("    "@ + m.node@ + "   "@ + n).take(4 + m.node@.len() as int) =~= "    "@ + m.node@);
            },
            None => {
                assert(("    "@ + m.node@).take(4 + m.node@.len() as int) =~= "    "@ + m.node@);
            },
        }
    }
}

/// Past the empty states, the Substrate tab opens with its tally: the
/// number of fleet-wide DaemonSets and how many of the fleet's nodes have
/// a gap, Good exactly when none does; the summary rows that follow are
/// one per expected DaemonSet.
pub proof fn lemma_substrate_headline_tallies(r: SubstrateReport, rows: Seq<SubstrateRow>)
    requires
        r.nodes_total as nat > r.floor_nodes as nat,
        r.expected@.len() > 0,
    ensures
        substrate_lines_spec(r, rows)[0] == (
            dec(r.expected@.len()) + " fleet-wide daemonsets \u{b7} "@ + dec(r.nodes_with_gaps as nat)
                + " of "@ + dec(r.nodes_total as nat) + " nodes with gaps"@,
            if r.nodes_with_gaps == 0 {
                RsRole::Good
            } else {
                RsRole::Headline
            },
        ),
        substrate_lines_spec(r, rows)[1] == (r.prevalence_note@, RsRole::Dim),
{
}

/// The Substrate tab's lines: the named empty states, or the headline,
/// the caveats and one block per expected DaemonSet (see
/// [`substrate_lines_spec`]), built over rows from [`substrate_rows`].
pub fn substrate_lines(r: &SubstrateReport, trouble: &Vec<(String, NodeTrouble)>) -> (out: Vec<(String, RsRole)>)
    requires
        r.nodes_listed_once(),
        r.floor_nodes < usize::MAX,
    ensures
        exists|rows: Seq<SubstrateRow>|
            {
                &&& rows.len() == r.expected@.len()
                &&& forall|k: int|
                    0 <= k < rows.len() ==> row_for(
                        #[trigger] rows[k],
                        *r,
                        trouble_view(trouble@),
                        r.expected@[k]@,
                    )
                &&& rs_view(out@) == substrate_lines_spec(*r, rows)
            },
{
    let mut out: Vec<(String, RsRole)> = Vec::new();
    let n = r.nodes_total;
    let rows = substrate_rows(r, trouble);
    if n == 0 {
        push_line(&mut out, "no nodes observed yet", RsRole::Dim);
        assert(rs_view(out@) =~= substrate_lines_spec(*r, rows@));
        return out;
    }
    if n <= r.floor_nodes {
        let mut s1 = String::new();
        push_dec(&mut s1, n as u64);
        push_str(&mut s1, " nodes: no gap is representable at this size");
        push_owned(&mut out, s1, RsRole::Headline);
        let mut s2 = String::new();
        push_str(&mut s2, "a daemonset is fleet-wide once it is on ");
        push_dec(&mut s2, r.prevalence_pct);
        push_str(&mut s2, "% of nodes, and a gap needs it on fewer than all of them; at ");
        push_dec(&mut s2, r.floor_nodes as u64);
        push_str(&mut s2, " nodes or fewer those cannot both hold, so an empty table here means nothing about the fleet. ");
        push_dec(&mut s2, (r.floor_nodes + 1) as u64);
        push_str(&mut s2, " nodes is the smallest fleet where a gap can exist to find.");
        push_owned(&mut out, s2, RsRole::Dim);
        push_owned(&mut out, r.prevalence_note.clone(), RsRole::Dim);
        assert(rs_view(out@) =~= substrate_lines_spec(*r, rows@));
        return out;
    }
    if r.expected.len() == 0 {
        let mut s1 = String::new();
        push_dec(&mut s1, n as u64);
        push_str(&mut s1, " nodes: no daemonset reaches the fleet bar");
        push_owned(&mut out, s1, RsRole::Headline);
        push_line(
            &mut out,
            "nothing is fleet-wide, so there is nothing to be missing from \u{2014} this is not 'all covered', it is 'no expectation to measure against'",
            RsRole::Dim,
        );
        push_owned(&mut out, r.prevalence_note.clone(), RsRole::Dim);
        assert(rs_view(out@) =~= substrate_lines_spec(*r, rows@));
        return out;
    }
    let mut s1 = String::new();
    push_dec(&mut s1, r.expected.len() as u64);
    push_str(&mut s1, " fleet-wide daemonsets \u{b7} ");
    push_dec(&mut s1, r.nodes_with_gaps as u64);
    push_str(&mut s1, " of ");
    push_dec(&mut s1, n as u64);
    push_str(&mut s1, " nodes with gaps");
    push_owned(&mut out, s1, if r.nodes_with_gaps == 0 { RsRole::Good } else { RsRole::Headline });
    push_owned(&mut out, r.prevalence_note.clone(), RsRole::Dim);
    push_owned(&mut out, String::new(), RsRole::Dim);
    let ghost head = rs_view(out@);
    let mut k: usize = 0;
    while k < rows.len()
        invariant
            k <= rows@.len(),
            rs_view(out@) == head + row_blocks(rows@.take(k as int), n as nat),
        decreases rows.len() - k,
    {
        proof {
            assert(rows@.take(k + 1).drop_last() == rows@.take(k as int));
            assert(rows@.take(k + 1).last() == rows@[k as int]);
        }
        push_row_block(&mut out, &rows[k], n);
        proof {
            assert(head + row_blocks(rows@.take(k + 1), n as nat) == head + row_blocks(rows@.take(k as int), n as nat) + row_block(rows@[k as int], n as nat));
        }
        k = k + 1;
    }
    assert(rows@.take(rows@.len() as int) == rows@);
    push_owned(&mut out, String::new(), RsRole::Dim);
    push_line(
        &mut out,
        "coverage is presence, not health: a crash-looping daemonset pod still counts as covered. a node added moments ago shows gaps until its pods land.",
        RsRole::Dim,
    );
    assert(rs_view(out@) =~= substrate_lines_spec(*r, rows@));
    out
}


/// Prose wraps, a table row truncates: a line is prose when it is dimmed
/// and not indented (an indented line is a row under its heading).
pub open spec fn is_prose_spec(line: Seq<char>, role: RsRole) -> bool {
    role == RsRole::Dim && !(line.len() > 0 && line[0] == ' ')
}

/// Whether a line wraps (prose) or truncates (a table row).
pub fn is_prose(line: &str, role: RsRole) -> (r: bool)
    ensures
        r == is_prose_spec(line@, role),
{
    match role {
        RsRole::Dim => !(line.unicode_len() > 0 && line.get_char(0) == ' '),
        _ => false,
    }
}

/// A dimmed node row (a troubled node) still truncates like a row: node
/// lines are indented, so they are never taken for prose.
pub proof fn lemma_node_rows_are_not_prose(m: (Seq<char>, NodeTrouble), role: RsRole)
    ensures
        !is_prose_spec(missing_line(m, role).0, missing_line(m, role).1),
{
    reveal_strlit("    ");
    reveal_strlit("   ");
    let l = missing_line(m, role).0;
    match trouble_note_spec(m.1) {
        Some(n) => {
            assert(l == "    "@ + m.0 + "   "@ + n);
            assert(l[0] == ' ');
        },
        None => {
            assert(l == "    "@ + m.0);
            assert(l[0] == ' ');
        },
    }
}

proof fn lemma_missing_for_len(
    gaps: Seq<(String, Vec<String>)>,
    t1: Seq<(Seq<char>, NodeTrouble)>,
    t2: Seq<(Seq<char>, NodeTrouble)>,
    ds: Seq<char>,
)
    ensures
        missing_for(gaps, t1, ds).len() == missing_for(gaps, t2, ds).len(),
    decreases gaps.len(),
{
    if gaps.len() > 0 {
        lemma_missing_for_len(gaps.drop_last(), t1, t2, ds);
    }
}

/// The trouble tags explain a gap count but never alter it: whatever node
/// facts are joined on, a DaemonSet's row lists the same number of missing
/// nodes and counts the same number covered.
pub proof fn lemma_trouble_never_changes_the_count(
    row1: SubstrateRow,
    row2: SubstrateRow,
    r: SubstrateReport,
    t1: Seq<(Seq<char>, NodeTrouble)>,
    t2: Seq<(Seq<char>, NodeTrouble)>,
    ds: Seq<char>,
)
    requires
        row_for(row1, r, t1, ds),
        row_for(row2, r, t2, ds),
    ensures
        row1.missing@.len() == row2.missing@.len(),
        row1.on == row2.on,
{
    broadcast use vstd::seq_lib::group_to_multiset_ensures;
    lemma_missing_for_len(r.missing_by_node@, t1, t2, ds);
    assert(missing_view(row1.missing@).len() == missing_view(row1.missing@).to_multiset().len());
    assert(missing_for(r.missing_by_node@, t1, ds).len() == missing_for(r.missing_by_node@, t1, ds).to_multiset().len());
    assert(missing_view(row2.missing@).len() == missing_view(row2.missing@).to_multiset().len());
    assert(missing_for(r.missing_by_node@, t2, ds).len() == missing_for(r.missing_by_node@, t2, ds).to_multiset().len());
}

/// A row's covered and missing counts always add up to the fleet (when
/// the gaps do not outnumber the nodes).
pub proof fn lemma_row_counts_add_up(row: SubstrateRow, r: SubstrateReport, t: Seq<(Seq<char>, NodeTrouble)>, ds: Seq<char>)
    requires
        row_for(row, r, t, ds),
        row.missing@.len() <= r.nodes_total,
    ensures
        row.on + row.missing@.len() == r.nodes_total,
{
}


/// How many rows a section shows before it says "+N more".
pub const RS_CAP: usize = 12;

/// The "+N more" overflow line.
pub open spec fn more_line(n: nat) -> (Seq<char>, RsRole) {
    ("+"@ + dec(n) + " more"@, RsRole::Dim)
}

pub(crate) fn push_more(out: &mut Vec<(String, RsRole)>, n: usize)
    ensures
        rs_view(final(out)@) == rs_view(old(out)@).push(more_line(n as nat)),
{
    let mut s = String::new();
    push_str(&mut s, "+");
    push_dec(&mut s, n as u64);
    push_str(&mut s, " more");
    push_owned(out, s, RsRole::Dim);
}

/// A reference to a workload: kind, namespace, name.
#[derive(Debug, Clone, PartialEq, Eq)]
pub struct WorkloadRef {
    pub kind: String,
    pub namespace: String,
    pub name: String,
}

/// `kind namespace/name`.
pub open spec fn wref_text(w: WorkloadRef) -> Seq<char> {
    w.kind@ + " "@ + w.namespace@ + "/"@ + w.name@
}

pub(crate) fn push_wref(s: &mut String, w: &WorkloadRef)
    ensures
        final(s)@ == old(s)@ + wref_text(*w),
{
    push_str(s, w.kind.as_str());
    push_str(s, " ");
    push_str(s, w.namespace.as_str());
    push_str(s, "/");
    push_str(s, w.name.as_str());
}

/// A namespace with workloads and no NetworkPolicy at all.
#[derive(Debug, Clone)]
pub struct OpenNamespace {
    pub namespace: String,
    pub workloads: usize,
}

/// NetworkPolicy segmentation coverage (the walls).
#[derive(Debug, Clone)]
pub struct NetpolReport {
    pub workloads: usize,
    pub walled_ingress: usize,
    pub policies: usize,
    /// Unwalled workloads reachable through a Service or Ingress.
    pub unwalled_exposed: Vec<WorkloadRef>,
    pub unwalled_unexposed: usize,
    pub open_namespaces: Vec<OpenNamespace>,
    pub egress_isolated: usize,
}

/// The line for an unwalled, exposed workload.
pub open spec fn exposed_line(w: WorkloadRef) -> (Seq<char>, RsRole) {
    (wref_text(w) + " \u{2014} no ingress NetworkPolicy"@, RsRole::Crit)
}

/// The line for a wide-open namespace.
pub open spec fn open_ns_line(o: OpenNamespace) -> (Seq<char>, RsRole) {
    (o.namespace@ + " \u{2014} "@ + dec(o.workloads as nat) + " workload(s), 0 policies"@, RsRole::Warn)
}

/// The walls headline: the separate axes, never one misleading fraction.
pub open spec fn walls_head(r: NetpolReport) -> Seq<(Seq<char>, RsRole)> {
    seq![
        (
            dec(r.walled_ingress as nat) + "/"@ + dec(r.workloads as nat) + " cities walled \u{b7} "@
                + dec(r.unwalled_exposed@.len()) + " unwalled & exposed \u{b7} "@ + dec(
                r.policies as nat,
            ) + " policies"@,
            RsRole::Headline,
        ),
        ("OPEN TO LATERAL MOVEMENT (unwalled & reachable)"@, RsRole::Heading),
    ]
}

/// `min(len, RS_CAP)`.
pub open spec fn capped(len: nat) -> int {
    if len > RS_CAP {
        RS_CAP as int
    } else {
        len as int
    }
}

/// The unwalled-and-exposed section: never a green all-clear on an empty
/// cluster; otherwise the first rows and an overflow count.
pub open spec fn walls_exposed(r: NetpolReport) -> Seq<(Seq<char>, RsRole)> {
    let ex = r.unwalled_exposed@;
    if ex.len() == 0 {
        if r.workloads == 0 {
            seq![("no workloads to evaluate"@, RsRole::Dim)]
        } else {
            seq![("no exposed city is unwalled"@, RsRole::Good)]
        }
    } else {
        let shown = ex.take(capped(ex.len())).map_values(|w: WorkloadRef| exposed_line(w));
        if ex.len() > RS_CAP {
            shown.push(more_line((ex.len() - RS_CAP) as nat))
        } else {
            shown
        }
    }
}

/// The unwalled-but-unreachable count, with a warning when non-zero.
pub open spec fn walls_unexposed(r: NetpolReport) -> Seq<(Seq<char>, RsRole)> {
    seq![("UNWALLED, NOT REACHABLE: "@ + dec(r.unwalled_unexposed as nat), RsRole::Heading)]
        + if r.unwalled_unexposed > 0 {
        seq![("no inbound wall, but not Service/Ingress-fronted (lower risk)"@, RsRole::Warn)]
    } else {
        Seq::empty()
    }
}

/// The wide-open namespaces, when there are any.
pub open spec fn walls_open(r: NetpolReport) -> Seq<(Seq<char>, RsRole)> {
    let ons = r.open_namespaces@;
    if ons.len() == 0 {
        Seq::empty()
    } else {
        seq![("WIDE-OPEN NAMESPACES (no policies at all)"@, RsRole::Heading)] + ons.take(
            capped(ons.len()),
        ).map_values(|o: OpenNamespace| open_ns_line(o))
    }
}

/// The egress count and the honesty footer.
pub open spec fn walls_tail(r: NetpolReport) -> Seq<(Seq<char>, RsRole)> {
    seq![
        ("egress-isolated cities: "@ + dec(r.egress_isolated as nat), RsRole::Dim),
        (
            "coverage = an isolating policy EXISTS (matched on pod-template labels) \u{2014} enforcement not verified (CNI); namespaceSelector / ipBlock / port rules not analyzed."@,
            RsRole::Dim,
        ),
    ]
}

/// The WALLS lines: the headline axes, the unwalled-and-exposed finding
/// first, the unreachable unwalled count, the wide-open namespaces, the
/// egress count and the honesty footer.
pub open spec fn walls_lines_spec(r: NetpolReport) -> Seq<(Seq<char>, RsRole)> {
    walls_head(r) + walls_exposed(r) + walls_unexposed(r) + walls_open(r) + walls_tail(r)
}

fn push_walls_head(out: &mut Vec<(String, RsRole)>, r: &NetpolReport)
    ensures
        rs_view(final(out)@) == rs_view(old(out)@) + walls_head(*r),
{
    let ghost o = rs_view(out@);
    let mut s = String::new();
    push_dec(&mut s, r.walled_ingress as u64);
    push_str(&mut s, "/");
    push_dec(&mut s, r.workloads as u64);
    push_str(&mut s, " cities walled \u{b7} ");
    push_dec(&mut s, r.unwalled_exposed.len() as u64);
    push_str(&mut s, " unwalled & exposed \u{b7} ");
    push_dec(&mut s, r.policies as u64);
    push_str(&mut s, " policies");
    push_owned(out, s, RsRole::Headline);
    push_line(out, "OPEN TO LATERAL MOVEMENT (unwalled & reachable)", RsRole::Heading);
    assert(rs_view(out@) =~= o + walls_head(*r));
}

fn push_walls_exposed(out: &mut Vec<(String, RsRole)>, r: &NetpolReport)
    ensures
        rs_view(final(out)@) == rs_view(old(out)@) + walls_exposed(*r),
{
    let ghost a = rs_view(out@);
    let ex_len = r.unwalled_exposed.len();
    if ex_len == 0 {
        if r.workloads == 0 {
            push_line(out, "no workloads to evaluate", RsRole::Dim);
        } else {
            push_line(out, "no exposed city is unwalled", RsRole::Good);
        }
        assert(rs_view(out@) =~= a + walls_exposed(*r));
        return;
    }
    let shown = if ex_len > RS_CAP { RS_CAP } else { ex_len };
    let mut i: usize = 0;
    while i < shown
        invariant
            shown <= r.unwalled_exposed@.len(),
            i <= shown,
            rs_view(out@) == a + r.unwalled_exposed@.take(i as int).map_values(
                |w: WorkloadRef| exposed_line(w),
            ),
        decreases shown - i,
    {
        let mut line = String::new();
        push_wref(&mut line, &r.unwalled_exposed[i]);
        push_str(&mut line, " \u{2014} no ingress NetworkPolicy");
        push_owned(out, line, RsRole::Crit);
        proof {
            assert(r.unwalled_exposed@.take(i + 1).map_values(|w: WorkloadRef| exposed_line(w))
                == r.unwalled_exposed@.take(i as int).map_values(|w: WorkloadRef| exposed_line(w)).push(
                exposed_line(r.unwalled_exposed@[i as int]),
            ));
        }
        i = i + 1;
    }
    if ex_len > RS_CAP {
        push_more(out, ex_len - RS_CAP);
    }
    assert(rs_view(out@) =~= a + walls_exposed(*r));
}

fn push_walls_rest(out: &mut Vec<(String, RsRole)>, r: &NetpolReport)
    ensures
        rs_view(final(out)@) == rs_view(old(out)@) + walls_unexposed(*r) + walls_open(*r) + walls_tail(*r),
{
    let ghost b = rs_view(out@);
    let mut s2 = String::new();
    push_str(&mut s2, "UNWALLED, NOT REACHABLE: ");
    push_dec(&mut s2, r.unwalled_unexposed as u64);
    push_owned(out, s2, RsRole::Heading);
    if r.unwalled_unexposed > 0 {
        push_line(out, "no inbound wall, but not Service/Ingress-fronted (lower risk)", RsRole::Warn);
    }
    assert(rs_view(out@) =~= b + walls_unexposed(*r));
    let ghost c = rs_view(out@);
    let on_len = r.open_namespaces.len();
    if on_len > 0 {
        push_line(out, "WIDE-OPEN NAMESPACES (no policies at all)", RsRole::Heading);
        let ghost h = rs_view(out@);
        let shown = if on_len > RS_CAP { RS_CAP } else { on_len };
        let mut i: usize = 0;
        while i < shown
            invariant
                shown <= r.open_namespaces@.len(),
                i <= shown,
                rs_view(out@) == h + r.open_namespaces@.take(i as int).map_values(
                    |o: OpenNamespace| open_ns_line(o),
                ),
            decreases shown - i,
        {
            let o = &r.open_namespaces[i];
            let mut line = o.namespace.clone();
            push_str(&mut line, " \u{2014} ");
            push_dec(&mut line, o.workloads as u64);
            push_str(&mut line, " workload(s), 0 policies");
            push_owned(out, line, RsRole::Warn);
            proof {
                assert(r.open_namespaces@.take(i + 1).map_values(|o: OpenNamespace| open_ns_line(o))
                    == r.open_namespaces@.take(i as int).map_values(|o: OpenNamespace| open_ns_line(o)).push(
                    open_ns_line(r.open_namespaces@[i as int]),
                ));
            }
            i = i + 1;
        }
    }
    assert(rs_view(out@) =~= c + walls_open(*r));
    let ghost d = rs_view(out@);
    let mut s3 = String::new();
    push_str(&mut s3, "egress-isolated cities: ");
    push_dec(&mut s3, r.egress_isolated as u64);
    push_owned(out, s3, RsRole::Dim);
    push_line(
        out,
        "coverage = an isolating policy EXISTS (matched on pod-template labels) \u{2014} enforcement not verified (CNI); namespaceSelector / ipBlock / port rules not analyzed.",
        RsRole::Dim,
    );
    assert(rs_view(out@) =~= d + walls_tail(*r));
}

/// The WALLS (segmentation) lines for the Network tab.
pub fn walls_lines(r: &NetpolReport) -> (out: Vec<(String, RsRole)>)
    ensures
        rs_view(out@) == walls_lines_spec(*r),
{
    let mut out: Vec<(String, RsRole)> = Vec::new();
    push_walls_head(&mut out, r);
    push_walls_exposed(&mut out, r);
    push_walls_rest(&mut out, r);
    assert(rs_view(out@) =~= walls_lines_spec(*r));
    out
}

} // verus!
