//! The text of the almanac's prose pages: what the world is, the
//! controls, and how to read the map. Each page is a list of headings,
//! paragraphs and key rows; the window lays them out.

use vstd::prelude::*;

verus! {

/// One line of a prose page.
#[derive(Debug, Clone, Copy, PartialEq, Eq)]
pub enum PageLine {
    Heading(&'static str),
    Para(&'static str),
    /// A key (or gesture) and what it does.
    Key(&'static str, &'static str),
}

/// The view of a page line.
pub enum PageLineV {
    Heading(Seq<char>),
    Para(Seq<char>),
    Key(Seq<char>, Seq<char>),
}

/// The view of a page line.
pub open spec fn page_line_view(l: PageLine) -> PageLineV {
    match l {
        PageLine::Heading(h) => PageLineV::Heading(h@),
        PageLine::Para(p) => PageLineV::Para(p@),
        PageLine::Key(k, v) => PageLineV::Key(k@, v@),
    }
}

/// The World page: how the cluster maps onto the world.
pub open spec fn world_page_spec() -> Seq<PageLineV> {
    seq![
        PageLineV::Heading("The world is your cluster"@),
        PageLineV::Para("Kubernation renders the cluster as a living world you explore, in the grammar of classic 4X strategy games \u{2014} but the nouns stay kubectl-greppable."@),
        PageLineV::Para("Zones are continents of solid land, separated by ocean."@),
        PageLineV::Para("Nodes are provinces \u{2014} patches of health-textured terrain. A zone's nodes stack into one landmass with an irregular, noise-carved coastline."@),
        PageLineV::Para("Workloads are cities, sited on the province hosting the plurality of their pods. DaemonSets are roads instead of cities."@),
        PageLineV::Para("A city's network exposure is moored on its east coast (Service harbors, Ingress gates); its persistent storage sits inland (PVC granaries)."@),
        PageLineV::Para("Things with no place on the land \u{2014} custom resources, zero-pod workloads, Jobs and CronJobs \u{2014} live on namespace islands in the southern sea."@),
        PageLineV::Para("An attention queue surfaces what needs focus and parks your cursor on it: 4X's \"next unit needing orders\", not a wall of dashboards."@),
        PageLineV::Heading("Observe-only"@),
        PageLineV::Para("Kubernation only watches. There are no mutation paths anywhere \u{2014} exploring the world never changes the cluster."@),
    ]
}

/// The World page: how the cluster maps onto the world.
pub fn world_page() -> (r: Vec<PageLine>)
    ensures
        r@.map_values(|l: PageLine| page_line_view(l)) == world_page_spec(),
{
    let r = vec![
        PageLine::Heading("The world is your cluster"),
        PageLine::Para("Kubernation renders the cluster as a living world you explore, in the grammar of classic 4X strategy games \u{2014} but the nouns stay kubectl-greppable."),
        PageLine::Para("Zones are continents of solid land, separated by ocean."),
        PageLine::Para("Nodes are provinces \u{2014} patches of health-textured terrain. A zone's nodes stack into one landmass with an irregular, noise-carved coastline."),
        PageLine::Para("Workloads are cities, sited on the province hosting the plurality of their pods. DaemonSets are roads instead of cities."),
        PageLine::Para("A city's network exposure is moored on its east coast (Service harbors, Ingress gates); its persistent storage sits inland (PVC granaries)."),
        PageLine::Para("Things with no place on the land \u{2014} custom resources, zero-pod workloads, Jobs and CronJobs \u{2014} live on namespace islands in the southern sea."),
        PageLine::Para("An attention queue surfaces what needs focus and parks your cursor on it: 4X's \"next unit needing orders\", not a wall of dashboards."),
        PageLine::Heading("Observe-only"),
        PageLine::Para("Kubernation only watches. There are no mutation paths anywhere \u{2014} exploring the world never changes the cluster."),
    ];
    assert(r@.map_values(|l: PageLine| page_line_view(l)) =~= world_page_spec());
    r
}

/// The Controls page: every key and gesture.
pub open spec fn controls_page_spec() -> Seq<PageLineV> {
    seq![
        PageLineV::Heading("Explore"@),
        PageLineV::Key("Drag / WASD / arrows"@, "pan the map"@),
        PageLineV::Key("Mouse wheel"@, "zoom (anchored at the cursor)"@),
        PageLineV::Key("F"@, "fit the whole world on screen"@),
        PageLineV::Key("] / ["@, "sail to the next / previous city"@),
        PageLineV::Key("N"@, "fly to the next concern"@),
        PageLineV::Key("L"@, "tail the focused concern's offending pod"@),
        PageLineV::Key("B"@, "blast radius \u{2014} highlight what a selected node/city (or focused concern) affects"@),
        PageLineV::Heading("Inspect"@),
        PageLineV::Key("Click land / city"@, "open the node or city panel"@),
        PageLineV::Key("Click a harbor / gate"@, "open the city it serves"@),
        PageLineV::Key("Click a pod row"@, "tail that pod's logs (lines tinted by severity)"@),
        PageLineV::Key("in logs: / p T s"@, "filter (AND \u{b7} !excl) \u{b7} previous \u{b7} timestamps \u{b7} window"@),
        PageLineV::Key("Hover a pod row"@, "reveal fwd (port-forward) \u{b7} yaml \u{b7} evict \u{2014} RBAC-gated"@),
        PageLineV::Key("fwd \u{b7} FORWARDS column"@, "tunnel 127.0.0.1 \u{2192} the pod; x stops it"@),
        PageLineV::Key("y \u{b7} pod row yaml"@, "inspect YAML \u{2014} workload/node, or a pod"@),
        PageLineV::Key("c \u{b7} w (logs / yaml)"@, "copy to clipboard \u{b7} export to a file"@),
        PageLineV::Key(": (resource browser)"@, "any kind \u{2014} pick, then click a row's YAML"@),
        PageLineV::Key("Hover"@, "tooltip for whatever is under the cursor"@),
        PageLineV::Heading("Plan & cluster"@),
        PageLineV::Key("t"@, "open the End-of-Turn review (staged changes)"@),
        PageLineV::Key("C"@, "switch kube context"@),
        PageLineV::Key("? / F1"@, "this Almanac"@),
        PageLineV::Key("Esc"@, "close the open panel / window"@),
        PageLineV::Key("Q"@, "quit"@),
        PageLineV::Heading("Menu bar"@),
        PageLineV::Para("The top bar holds the menus: Game (context, fit, quit), View (the map overlay \u{2014} terrain health, cpu/mem pressure, replica health, or namespace territory), Orders (end of turn, discard), Advisors (Health / Storage / Network summaries), World (namespace filter), Help. Click a title to open it."@),
    ]
}

/// The Controls page: every key and gesture.
pub fn controls_page() -> (r: Vec<PageLine>)
    ensures
        r@.map_values(|l: PageLine| page_line_view(l)) == controls_page_spec(),
{
    let r = vec![
        PageLine::Heading("Explore"),
        PageLine::Key("Drag / WASD / arrows", "pan the map"),
        PageLine::Key("Mouse wheel", "zoom (anchored at the cursor)"),
        PageLine::Key("F", "fit the whole world on screen"),
        PageLine::Key("] / [", "sail to the next / previous city"),
        PageLine::Key("N", "fly to the next concern"),
        PageLine::Key("L", "tail the focused concern's offending pod"),
        PageLine::Key("B", "blast radius \u{2014} highlight what a selected node/city (or focused concern) affects"),
        PageLine::Heading("Inspect"),
        PageLine::Key("Click land / city", "open the node or city panel"),
        PageLine::Key("Click a harbor / gate", "open the city it serves"),
        PageLine::Key("Click a pod row", "tail that pod's logs (lines tinted by severity)"),
        PageLine::Key("in logs: / p T s", "filter (AND \u{b7} !excl) \u{b7} previous \u{b7} timestamps \u{b7} window"),
        PageLine::Key("Hover a pod row", "reveal fwd (port-forward) \u{b7} yaml \u{b7} evict \u{2014} RBAC-gated"),
        PageLine::Key("fwd \u{b7} FORWARDS column", "tunnel 127.0.0.1 \u{2192} the pod; x stops it"),
        PageLine::Key("y \u{b7} pod row yaml", "inspect YAML \u{2014} workload/node, or a pod"),
        PageLine::Key("c \u{b7} w (logs / yaml)", "copy to clipboard \u{b7} export to a file"),
        PageLine::Key(": (resource browser)", "any kind \u{2014} pick, then click a row's YAML"),
        PageLine::Key("Hover", "tooltip for whatever is under the cursor"),
        PageLine::Heading("Plan & cluster"),
        PageLine::Key("t", "open the End-of-Turn review (staged changes)"),
        PageLine::Key("C", "switch kube context"),
        PageLine::Key("? / F1", "this Almanac"),
        PageLine::Key("Esc", "close the open panel / window"),
        PageLine::Key("Q", "quit"),
        PageLine::Heading("Menu bar"),
        PageLine::Para("The top bar holds the menus: Game (context, fit, quit), View (the map overlay \u{2014} terrain health, cpu/mem pressure, replica health, or namespace territory), Orders (end of turn, discard), Advisors (Health / Storage / Network summaries), World (namespace filter), Help. Click a title to open it."),
    ];
    assert(r@.map_values(|l: PageLine| page_line_view(l)) =~= controls_page_spec());
    r
}

/// The Reading page: scale, gauges, the treasury, drills, attention and the pair.
pub open spec fn reading_page_spec() -> Seq<PageLineV> {
    seq![
        PageLineV::Heading("Cartographic scale"@),
        PageLineV::Para("What the map shows thins as you zoom out (after Monmonier's generalization-by-scale):"@),
        PageLineV::Key("Local (zoom in)"@, "everything \u{2014} full names, every settlement"@),
        PageLineV::Key("Regional"@, "towns + chips; names selected when crowded"@),
        PageLineV::Key("World (zoom out)"@, "each province aggregates to one badge"@),
        PageLineV::Heading("Gauges"@),
        PageLineV::Para("Node cpu / mem read live usage when metrics-server is installed, otherwise scheduling pressure (pod requests / allocatable). Calm below 70%, elevated 70-90% (yellow), high above 90% (red). With metrics-server, a trend sparkline under each gauge shows the last ~15 minutes (and the STATUS column shows the cluster trend)."@),
        PageLineV::Heading("Treasury (error budget)"@),
        PageLineV::Para("Each city window shows an availability SLO and the error budget it spends down \u{2014} full when the workload stays up, draining when it flaps, exhausted when availability falls below the target (default 99%). Availability is derived from pod readiness (at least one replica up) over a recent window \u{2014} no metrics-server needed. Set a per-workload target with the city's SLO stepper or a `kubernation.io/slo-target` annotation (e.g. \"99.9\"). A burning or exhausted budget also raises a queue concern."@),
        PageLineV::Heading("Game Day (chaos)"@),
        PageLineV::Para("The Game Day menu opens a chaos drill: pick a target, choose an experiment, preview its blast radius + budget cost, then run it \u{2014} a real, confirmed failure. Workload experiments: outage (scale to 0), kill one pod, kill all pods, broken image (roll onto an unresolvable ref), and partition (a deny-all NetworkPolicy). Node failure cordons a node and drains its pods. A scorecard shows the cluster's response (recovery time, budget spent); reversible drills offer Restore. Control-plane / system namespaces and control-plane nodes are never targetable."@),
        PageLineV::Heading("Attention"@),
        PageLineV::Para("Pod-level failures aggregate per owning workload \u{2014} one \"city in trouble\", not forty pod alarms. The right column's ATTENTION section lists the worst few; N walks them, and clicking a concern flies there and opens its drill-down."@),
        PageLineV::Heading("The pair (with --warm)"@),
        PageLineV::Para("A warm standby appears as a second archipelago east of the hot one. Cities carry a sync chip: = in sync, \u{2260}r replica drift, \u{2260}i image drift, \u{2212}w missing on warm, +w only on warm."@),
    ]
}

/// The Reading page: scale, gauges, the treasury, drills, attention and the pair.
pub fn reading_page() -> (r: Vec<PageLine>)
    ensures
        r@.map_values(|l: PageLine| page_line_view(l)) == reading_page_spec(),
{
    let r = vec![
        PageLine::Heading("Cartographic scale"),
        PageLine::Para("What the map shows thins as you zoom out (after Monmonier's generalization-by-scale):"),
        PageLine::Key("Local (zoom in)", "everything \u{2014} full names, every settlement"),
        PageLine::Key("Regional", "towns + chips; names selected when crowded"),
        PageLine::Key("World (zoom out)", "each province aggregates to one badge"),
        PageLine::Heading("Gauges"),
        PageLine::Para("Node cpu / mem read live usage when metrics-server is installed, otherwise scheduling pressure (pod requests / allocatable). Calm below 70%, elevated 70-90% (yellow), high above 90% (red). With metrics-server, a trend sparkline under each gauge shows the last ~15 minutes (and the STATUS column shows the cluster trend)."),
        PageLine::Heading("Treasury (error budget)"),
        PageLine::Para("Each city window shows an availability SLO and the error budget it spends down \u{2014} full when the workload stays up, draining when it flaps, exhausted when availability falls below the target (default 99%). Availability is derived from pod readiness (at least one replica up) over a recent window \u{2014} no metrics-server needed. Set a per-workload target with the city's SLO stepper or a `kubernation.io/slo-target` annotation (e.g. \"99.9\"). A burning or exhausted budget also raises a queue concern."),
        PageLine::Heading("Game Day (chaos)"),
        PageLine::Para("The Game Day menu opens a chaos drill: pick a target, choose an experiment, preview its blast radius + budget cost, then run it \u{2014} a real, confirmed failure. Workload experiments: outage (scale to 0), kill one pod, kill all pods, broken image (roll onto an unresolvable ref), and partition (a deny-all NetworkPolicy). Node failure cordons a node and drains its pods. A scorecard shows the cluster's response (recovery time, budget spent); reversible drills offer Restore. Control-plane / system namespaces and control-plane nodes are never targetable."),
        PageLine::Heading("Attention"),
        PageLine::Para("Pod-level failures aggregate per owning workload \u{2014} one \"city in trouble\", not forty pod alarms. The right column's ATTENTION section lists the worst few; N walks them, and clicking a concern flies there and opens its drill-down."),
        PageLine::Heading("The pair (with --warm)"),
        PageLine::Para("A warm standby appears as a second archipelago east of the hot one. Cities carry a sync chip: = in sync, \u{2260}r replica drift, \u{2260}i image drift, \u{2212}w missing on warm, +w only on warm."),
    ];
    assert(r@.map_values(|l: PageLine| page_line_view(l)) =~= reading_page_spec());
    r
}

} // verus!
