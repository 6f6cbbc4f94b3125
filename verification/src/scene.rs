//! The scene's cell geometry: the worlds laid side by side (the hot one at
//! offset zero, a warm one to its east), the scene's size, which world a
//! scene cell falls in, and which drill-down panel a selected cell opens.

use vstd::prelude::*;
use crate::screens::ClusterId;
use crate::advisor::WorkloadRef;

verus! {

/// A world's place in the scene, in cells.
#[derive(Debug, Clone, Copy, PartialEq, Eq, Structural)]
pub struct Placed {
    /// The world's first column in the scene.
    pub off: u16,
    pub width: u16,
    pub height: u16,
}

/// The worlds stay within the cell range: each one's right edge is a
/// valid column.
pub open spec fn placed_ok(ws: Seq<Placed>) -> bool {
    forall|i: int| 0 <= i < ws.len() ==> (#[trigger] ws[i]).off + ws[i].width <= u16::MAX
}

/// The tallest world's height, or zero for no worlds.
pub open spec fn max_height(ws: Seq<Placed>) -> int
    decreases ws.len(),
{
    if ws.len() == 0 {
        0
    } else {
        let h = max_height(ws.drop_last());
        if ws.last().height as int > h {
            ws.last().height as int
        } else {
            h
        }
    }
}

/// At least one cell.
pub open spec fn at_least_one(n: int) -> int {
    if n < 1 {
        1
    } else {
        n
    }
}

/// The scene's size: from the first column to the last world's right edge,
/// as tall as the tallest world, never less than one cell either way.
pub fn scene_size(ws: &Vec<Placed>) -> (r: (u16, u16))
    requires
        placed_ok(ws@),
    ensures
        r.0 == at_least_one(if ws@.len() == 0 { 1 } else { ws@.last().off + ws@.last().width }),
        r.1 == at_least_one(if ws@.len() == 0 { 1 } else { max_height(ws@) }),
{
    let n = ws.len();
    let w: u16 = if n == 0 {
        1
    } else {
        let l = ws[n - 1];
        l.off + l.width
    };
    let mut h: u16 = 0;
    let mut i: usize = 0;
    while i < n
        invariant
            n == ws@.len(),
            i <= n,
            h == max_height(ws@.take(i as int)),
        decreases n - i,
    {
        assert(ws@.take(i + 1).drop_last() == ws@.take(i as int));
        assert(ws@.take(i + 1).last() == ws@[i as int]);
        if ws[i].height > h {
            h = ws[i].height;
        }
        i = i + 1;
    }
    assert(ws@.take(n as int) == ws@);
    let hh: u16 = if n == 0 {
        1
    } else {
        h
    };
    (if w < 1 { 1 } else { w }, if hh < 1 { 1 } else { hh })
}

/// The world a column falls in: the last (eastmost) world whose span holds
/// it.
pub open spec fn holds(p: Placed, x: u16) -> bool {
    p.off <= x && x < p.off + p.width
}

/// Which world a scene cell falls in, and the cell within that world.
pub fn locate_world(ws: &Vec<Placed>, cell: (u16, u16)) -> (r: Option<(usize, (u16, u16))>)
    requires
        placed_ok(ws@),
    ensures
        match r {
            Some((i, local)) => {
                &&& i < ws@.len()
                &&& holds(ws@[i as int], cell.0)
                &&& forall|j: int| i < j < ws@.len() ==> !holds(#[trigger] ws@[j], cell.0)
                &&& local == ((cell.0 - ws@[i as int].off) as u16, cell.1)
            },
            None => forall|j: int| 0 <= j < ws@.len() ==> !holds(#[trigger] ws@[j], cell.0),
        },
{
    let mut i = ws.len();
    while i > 0
        invariant
            i <= ws@.len(),
            placed_ok(ws@),
            forall|j: int| i <= j < ws@.len() ==> !holds(#[trigger] ws@[j], cell.0),
        decreases i,
    {
        let p = ws[i - 1];
        assert(p.off + p.width <= u16::MAX);
        if cell.0 >= p.off && cell.0 < p.off + p.width {
            return Some((i - 1, (cell.0 - p.off, cell.1)));
        }
        i = i - 1;
    }
    None
}

/// What is selected on the map, as far as a drill-down cares.
#[derive(Debug, Clone)]
pub enum Selected {
    /// A harbor or gate, serving this workload.
    Coast(WorkloadRef),
    City(WorkloadRef),
    Province(String),
    /// A structure, and the workload it stands for (an encampment).
    Structure(Option<WorkloadRef>),
    /// An island or open sea.
    Nothing,
}

/// A drill-down panel.
#[derive(Debug, Clone, PartialEq, Eq)]
pub enum Panel {
    City(ClusterId, WorkloadRef),
    Node(ClusterId, String),
}

/// The panel a selection opens: a coast marker opens the city it serves,
/// a city its own, a province its node, an encampment its workload.
pub fn panel_for(cluster: ClusterId, sel: Selected) -> (r: Option<Panel>)
    ensures
        r == match sel {
            Selected::Coast(w) => Some(Panel::City(cluster, w)),
            Selected::City(w) => Some(Panel::City(cluster, w)),
            Selected::Province(n) => Some(Panel::Node(cluster, n)),
            Selected::Structure(Some(w)) => Some(Panel::City(cluster, w)),
            _ => None::<Panel>,
        },
{
    match sel {
        Selected::Coast(w) => Some(Panel::City(cluster, w)),
        Selected::City(w) => Some(Panel::City(cluster, w)),
        Selected::Province(n) => Some(Panel::Node(cluster, n)),
        Selected::Structure(Some(w)) => Some(Panel::City(cluster, w)),
        _ => None,
    }
}

/// What a concern points at.
#[derive(Debug, Clone)]
pub enum ConcernTarget {
    Workload(WorkloadRef),
    Node(String),
    /// A list of workloads (no single map cell).
    WorkloadList,
}

/// Where focusing a concern leaves the map: the concern cursor, the cell
/// selected (and flown to), and the drill-down opened.
#[derive(Debug, Clone)]
pub struct Focus {
    pub concern_idx: usize,
    pub select: Option<(u16, u16)>,
    pub panel: Option<Panel>,
}

/// Focuses concern `idx` of `count`: an index past the list changes
/// nothing; otherwise the cursor moves to it and, when its target has a
/// cell (`local`, in its world at offset `off`), that scene cell is
/// selected and the target's drill-down opens.
pub fn focus_concern(
    idx: usize,
    count: usize,
    current: usize,
    cluster: ClusterId,
    target: ConcernTarget,
    local: Option<(u16, u16)>,
    off: u16,
) -> (r: Focus)
    requires
        match local {
            Some(p) => p.0 + off <= u16::MAX,
            None => true,
        },
    ensures
        idx >= count ==> r.concern_idx == current && r.select is None && r.panel is None,
        idx < count ==> r.concern_idx == idx && match local {
            Some(p) => r.select == Some(((p.0 + off) as u16, p.1)) && r.panel == match target {
                ConcernTarget::Workload(w) => Some(Panel::City(cluster, w)),
                ConcernTarget::Node(n) => Some(Panel::Node(cluster, n)),
                ConcernTarget::WorkloadList => None::<Panel>,
            },
            None => r.select is None && r.panel is None,
        },
{
    if idx >= count {
        return Focus { concern_idx: current, select: None, panel: None };
    }
    match local {
        Some(p) => {
            let panel = match target {
                ConcernTarget::Workload(w) => Some(Panel::City(cluster, w)),
                ConcernTarget::Node(n) => Some(Panel::Node(cluster, n)),
                ConcernTarget::WorkloadList => None,
            };
            Focus { concern_idx: idx, select: Some((p.0 + off, p.1)), panel }
        },
        None => Focus { concern_idx: idx, select: None, panel: None },
    }
}

} // verus!
