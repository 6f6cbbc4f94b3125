//! The field guide's cross-references: which live map feature a legend mark
//! points at, and where the hot world's first instance of it stands, so a
//! click on a lit legend entry can fly there.

use vstd::prelude::*;
use crate::region::NodeHealth;
use crate::city::PodState;
use crate::reports::Severity;

verus! {

/// A mark the legend draws beside its definition.
#[derive(Debug, Clone, Copy, PartialEq, Eq, Structural)]
pub enum Mark {
    Harbor,
    Gate,
    Granary,
    Job,
    CronJob,
    City,
    Road,
    Custom,
    Camp,
    Terrain(NodeHealth),
    Pod(PodState),
    Sev(Severity),
    Gauge,
}

/// A live map feature a legend entry can jump to.
#[derive(Debug, Clone, Copy, PartialEq, Eq, Structural)]
pub enum Locator {
    City,
    Node,
    Road,
    Harbor,
    Gate,
    Granary,
    Custom,
    Encampment,
    Job,
    CronJob,
}

/// The feature a mark points at; pod, severity and gauge marks point at
/// nothing in particular.
pub open spec fn mark_locator_spec(m: Mark) -> Option<Locator> {
    match m {
        Mark::City => Some(Locator::City),
        Mark::Road => Some(Locator::Road),
        Mark::Terrain(_) => Some(Locator::Node),
        Mark::Harbor => Some(Locator::Harbor),
        Mark::Gate => Some(Locator::Gate),
        Mark::Granary => Some(Locator::Granary),
        Mark::Custom => Some(Locator::Custom),
        Mark::Camp => Some(Locator::Encampment),
        Mark::Job => Some(Locator::Job),
        Mark::CronJob => Some(Locator::CronJob),
        Mark::Pod(_) | Mark::Sev(_) | Mark::Gauge => None,
    }
}

/// The feature a legend mark points at.
pub fn mark_locator(m: Mark) -> (r: Option<Locator>)
    ensures
        r == mark_locator_spec(m),
{
    match m {
        Mark::City => Some(Locator::City),
        Mark::Road => Some(Locator::Road),
        Mark::Terrain(_) => Some(Locator::Node),
        Mark::Harbor => Some(Locator::Harbor),
        Mark::Gate => Some(Locator::Gate),
        Mark::Granary => Some(Locator::Granary),
        Mark::Custom => Some(Locator::Custom),
        Mark::Camp => Some(Locator::Encampment),
        Mark::Job => Some(Locator::Job),
        Mark::CronJob => Some(Locator::CronJob),
        Mark::Pod(_) | Mark::Sev(_) | Mark::Gauge => None,
    }
}

/// A structure mark on an island (a custom resource, an encampment, a Job
/// or a CronJob), by its glyph.
#[derive(Debug, Clone, Copy)]
pub struct StructureMark {
    pub glyph: char,
    pub y: u16,
}

/// An island and its structure marks.
#[derive(Debug, Clone)]
pub struct Island {
    pub x: u16,
    pub structures: Vec<StructureMark>,
}

/// A city on the map.
#[derive(Debug, Clone, Copy)]
pub struct CityMark {
    pub x: u16,
    pub y: u16,
    pub has_storage: bool,
}

/// A province (node) on the map.
#[derive(Debug, Clone, Copy)]
pub struct Province {
    pub x: u16,
    pub y: u16,
    /// How much infrastructure (roads) it carries.
    pub infra: u32,
}

/// A coast marker: a harbor (Service) or a gate (Ingress).
#[derive(Debug, Clone, Copy)]
pub struct CoastMark {
    pub harbor: bool,
    pub x: u16,
    pub y: u16,
}

/// A continent's provinces and coast.
#[derive(Debug, Clone)]
pub struct Continent {
    pub provinces: Vec<Province>,
    pub coast: Vec<CoastMark>,
}

/// What the cross-references read of the hot world, in map order.
#[derive(Debug, Clone)]
pub struct LegendWorld {
    pub cities: Vec<CityMark>,
    pub continents: Vec<Continent>,
    pub islands: Vec<Island>,
}

/// The islands' structure marks in map order, as (cell x, y, glyph): a
/// structure stands one cell right of its island's edge.
pub open spec fn structure_cells(isl: Seq<Island>) -> Seq<(int, u16, char)>
    decreases isl.len(),
{
    if isl.len() == 0 {
        Seq::empty()
    } else {
        structure_cells(isl.drop_last()) + isl.last().structures@.map_values(
            |s: StructureMark| (isl.last().x + 1, s.y, s.glyph),
        )
    }
}

/// Every province in map order.
pub open spec fn all_provinces(cs: Seq<Continent>) -> Seq<Province>
    decreases cs.len(),
{
    if cs.len() == 0 {
        Seq::empty()
    } else {
        all_provinces(cs.drop_last()) + cs.last().provinces@
    }
}

/// Every coast marker in map order.
pub open spec fn all_coast(cs: Seq<Continent>) -> Seq<CoastMark>
    decreases cs.len(),
{
    if cs.len() == 0 {
        Seq::empty()
    } else {
        all_coast(cs.drop_last()) + cs.last().coast@
    }
}

/// `r` is the first element of `s` that satisfies `p`, mapped by `f`; or
/// none does and `r` is `None`.
pub open spec fn first_of<A, B>(s: Seq<A>, p: spec_fn(A) -> bool, f: spec_fn(A) -> B, r: Option<B>) -> bool {
    match r {
        Some(b) => exists|i: int|
            0 <= i < s.len() && p(s[i]) && b == f(s[i]) && forall|j: int| 0 <= j < i ==> !p(#[trigger] s[j]),
        None => forall|i: int| 0 <= i < s.len() ==> !p(#[trigger] s[i]),
    }
}

/// The glyph a locator's structure carries.
pub open spec fn locator_glyph(l: Locator) -> char {
    match l {
        Locator::Custom => '\u{2726}',
        Locator::Encampment => '\u{25cc}',
        Locator::Job => '\u{25c8}',
        _ => '\u{25f7}',
    }
}

/// Where the hot world's first instance of a feature stands.
pub open spec fn located(w: LegendWorld, l: Locator, r: Option<(u16, u16)>) -> bool {
    match l {
        Locator::City => first_of(w.cities@, |c: CityMark| true, |c: CityMark| (c.x, c.y), r),
        Locator::Granary => first_of(w.cities@, |c: CityMark| c.has_storage, |c: CityMark| (c.x, c.y), r),
        Locator::Node => first_of(
            all_provinces(w.continents@),
            |p: Province| true,
            |p: Province| ((p.x + 2) as u16, p.y),
            r,
        ),
        Locator::Road => first_of(
            all_provinces(w.continents@),
            |p: Province| p.infra > 0,
            |p: Province| ((p.x + 2) as u16, p.y),
            r,
        ),
        Locator::Harbor => first_of(all_coast(w.continents@), |m: CoastMark| m.harbor, |m: CoastMark| (m.x, m.y), r),
        Locator::Gate => first_of(all_coast(w.continents@), |m: CoastMark| !m.harbor, |m: CoastMark| (m.x, m.y), r),
        _ => first_of(
            structure_cells(w.islands@),
            |s: (int, u16, char)| s.2 == locator_glyph(l),
            |s: (int, u16, char)| (s.0 as u16, s.1),
            r,
        ),
    }
}

/// The map stays clear of the coordinate limit: offsetting a province or a
/// structure to its marker cell does not overflow.
pub open spec fn fits(w: LegendWorld) -> bool {
    &&& forall|i: int| 0 <= i < w.islands@.len() ==> (#[trigger] w.islands@[i]).x < u16::MAX
    &&& forall|i: int| 0 <= i < w.continents@.len() ==> forall|j: int|
        0 <= j < (#[trigger] w.continents@[i]).provinces@.len() ==> w.continents@[i].provinces@[j].x
            < u16::MAX - 1
}

fn find_city(cities: &Vec<CityMark>, need_storage: bool) -> (r: Option<(u16, u16)>)
    ensures
        need_storage ==> first_of(cities@, |c: CityMark| c.has_storage, |c: CityMark| (c.x, c.y), r),
        !need_storage ==> first_of(cities@, |c: CityMark| true, |c: CityMark| (c.x, c.y), r),
{
    let mut i: usize = 0;
    while i < cities.len()
        invariant
            i <= cities@.len(),
            forall|j: int| 0 <= j < i ==> need_storage && !(#[trigger] cities@[j]).has_storage,
        decreases cities.len() - i,
    {
        let c = cities[i];
        if !need_storage || c.has_storage {
            return Some((c.x, c.y));
        }
        i = i + 1;
    }
    None
}

fn find_province(cs: &Vec<Continent>, need_infra: bool) -> (r: Option<(u16, u16)>)
    requires
        forall|i: int| 0 <= i < cs@.len() ==> forall|j: int|
            0 <= j < (#[trigger] cs@[i]).provinces@.len() ==> cs@[i].provinces@[j].x < u16::MAX - 1,
    ensures
        need_infra ==> first_of(
            all_provinces(cs@),
            |p: Province| p.infra > 0,
            |p: Province| ((p.x + 2) as u16, p.y),
            r,
        ),
        !need_infra ==> first_of(
            all_provinces(cs@),
            |p: Province| true,
            |p: Province| ((p.x + 2) as u16, p.y),
            r,
        ),
{
    let mut i: usize = 0;
    while i < cs.len()
        invariant
            i <= cs@.len(),
            forall|i: int| 0 <= i < cs@.len() ==> forall|j: int|
                0 <= j < (#[trigger] cs@[i]).provinces@.len() ==> cs@[i].provinces@[j].x < u16::MAX - 1,
            !need_infra ==> all_provinces(cs@.take(i as int)).len() == 0,
            forall|j: int|
                0 <= j < all_provinces(cs@.take(i as int)).len() ==> (#[trigger] all_provinces(
                    cs@.take(i as int),
                )[j]).infra == 0,
        decreases cs.len() - i,
    {
        let ps = &cs[i].provinces;
        let ghost before = all_provinces(cs@.take(i as int));
        assert(cs@.take(i + 1).drop_last() == cs@.take(i as int));
        assert(cs@.take(i + 1).last() == cs@[i as int]);
        assert(all_provinces(cs@.take(i + 1)) == before + ps@);
        let mut k: usize = 0;
        while k < ps.len()
            invariant
                k <= ps@.len(),
                ps@ == cs@[i as int].provinces@,
                i < cs@.len(),
                all_provinces(cs@.take(i + 1)) == before + ps@,
                forall|j: int| 0 <= j < ps@.len() ==> (#[trigger] ps@[j]).x < u16::MAX - 1,
                !need_infra ==> before.len() == 0 && k == 0,
                forall|j: int| 0 <= j < before.len() ==> (#[trigger] before[j]).infra == 0,
                forall|j: int| 0 <= j < k ==> (#[trigger] ps@[j]).infra == 0,
            decreases ps.len() - k,
        {
            let p = ps[k];
            if !need_infra || p.infra > 0 {
                proof {
                    let all = all_provinces(cs@);
                    let pre = before + ps@;
                    lemma_provinces_prefix(cs@, i as int + 1);
                    let at = before.len() + k;
                    assert(pre[at as int] == p);
                    assert(all[at as int] == p);
                    assert forall|j: int| 0 <= j < at implies (#[trigger] all[j]).infra == 0 by {
                        assert(all[j] == pre[j]);
                        if j < before.len() {
                            assert(pre[j] == before[j]);
                        } else {
                            assert(pre[j] == ps@[j - before.len()]);
                        }
                    }
                }
                return Some((p.x + 2, p.y));
            }
            k = k + 1;
        }
        assert forall|j: int| 0 <= j < (before + ps@).len() implies (#[trigger] (before + ps@)[j]).infra == 0 by {
            if j >= before.len() {
                assert((before + ps@)[j] == ps@[j - before.len()]);
            }
        }
        i = i + 1;
    }
    assert(cs@.take(cs@.len() as int) == cs@);
    None
}

proof fn lemma_provinces_prefix(cs: Seq<Continent>, n: int)
    requires
        0 <= n <= cs.len(),
    ensures
        all_provinces(cs.take(n)).len() <= all_provinces(cs).len(),
        forall|j: int|
            0 <= j < all_provinces(cs.take(n)).len() ==> #[trigger] all_provinces(cs)[j] == all_provinces(
                cs.take(n),
            )[j],
    decreases cs.len() - n,
{
    if n < cs.len() {
        lemma_provinces_prefix(cs, n + 1);
        assert(cs.take(n + 1).drop_last() == cs.take(n));
    } else {
        assert(cs.take(n) == cs);
    }
}

proof fn lemma_coast_prefix(cs: Seq<Continent>, n: int)
    requires
        0 <= n <= cs.len(),
    ensures
        all_coast(cs.take(n)).len() <= all_coast(cs).len(),
        forall|j: int|
            0 <= j < all_coast(cs.take(n)).len() ==> #[trigger] all_coast(cs)[j] == all_coast(cs.take(n))[j],
    decreases cs.len() - n,
{
    if n < cs.len() {
        lemma_coast_prefix(cs, n + 1);
        assert(cs.take(n + 1).drop_last() == cs.take(n));
    } else {
        assert(cs.take(n) == cs);
    }
}

proof fn lemma_structures_prefix(isl: Seq<Island>, n: int)
    requires
        0 <= n <= isl.len(),
    ensures
        structure_cells(isl.take(n)).len() <= structure_cells(isl).len(),
        forall|j: int|
            0 <= j < structure_cells(isl.take(n)).len() ==> #[trigger] structure_cells(isl)[j]
                == structure_cells(isl.take(n))[j],
    decreases isl.len() - n,
{
    if n < isl.len() {
        lemma_structures_prefix(isl, n + 1);
        assert(isl.take(n + 1).drop_last() == isl.take(n));
    } else {
        assert(isl.take(n) == isl);
    }
}

fn find_coast(cs: &Vec<Continent>, harbor: bool) -> (r: Option<(u16, u16)>)
    ensures
        first_of(all_coast(cs@), |m: CoastMark| m.harbor == harbor, |m: CoastMark| (m.x, m.y), r),
{
    let mut i: usize = 0;
    while i < cs.len()
        invariant
            i <= cs@.len(),
            forall|j: int|
                0 <= j < all_coast(cs@.take(i as int)).len() ==> (#[trigger] all_coast(cs@.take(i as int))[j]).harbor
                    != harbor,
        decreases cs.len() - i,
    {
        let ms = &cs[i].coast;
        let ghost before = all_coast(cs@.take(i as int));
        assert(cs@.take(i + 1).drop_last() == cs@.take(i as int));
        assert(cs@.take(i + 1).last() == cs@[i as int]);
        assert(all_coast(cs@.take(i + 1)) == before + ms@);
        assert forall|j: int| 0 <= j < before.len() implies (#[trigger] before[j]).harbor != harbor by {
            assert(before[j] == all_coast(cs@.take(i as int))[j]);
        }
        let mut k: usize = 0;
        while k < ms.len()
            invariant
                k <= ms@.len(),
                ms@ == cs@[i as int].coast@,
                i < cs@.len(),
                all_coast(cs@.take(i + 1)) == before + ms@,
                forall|j: int| 0 <= j < before.len() ==> (#[trigger] before[j]).harbor != harbor,
                forall|j: int| 0 <= j < k ==> (#[trigger] ms@[j]).harbor != harbor,
            decreases ms.len() - k,
        {
            let m = ms[k];
            if m.harbor == harbor {
                proof {
                    let all = all_coast(cs@);
                    let pre = before + ms@;
                    lemma_coast_prefix(cs@, i as int + 1);
                    let at = before.len() + k;
                    assert(pre[at as int] == m);
                    assert(all[at as int] == m);
                    assert forall|j: int| 0 <= j < at implies (#[trigger] all[j]).harbor != harbor by {
                        assert(all[j] == pre[j]);
                        if j < before.len() {
                            assert(pre[j] == before[j]);
                        } else {
                            assert(pre[j] == ms@[j - before.len()]);
                        }
                    }
                }
                return Some((m.x, m.y));
            }
            k = k + 1;
        }
        assert forall|j: int| 0 <= j < (before + ms@).len() implies (#[trigger] (before + ms@)[j]).harbor
            != harbor by {
            if j >= before.len() {
                assert((before + ms@)[j] == ms@[j - before.len()]);
            }
        }
        i = i + 1;
    }
    assert(cs@.take(cs@.len() as int) == cs@);
    None
}

fn find_structure(isl: &Vec<Island>, glyph: char) -> (r: Option<(u16, u16)>)
    requires
        forall|i: int| 0 <= i < isl@.len() ==> (#[trigger] isl@[i]).x < u16::MAX,
    ensures
        first_of(
            structure_cells(isl@),
            |s: (int, u16, char)| s.2 == glyph,
            |s: (int, u16, char)| (s.0 as u16, s.1),
            r,
        ),
{
    let mut i: usize = 0;
    while i < isl.len()
        invariant
            i <= isl@.len(),
            forall|i: int| 0 <= i < isl@.len() ==> (#[trigger] isl@[i]).x < u16::MAX,
            forall|j: int|
                0 <= j < structure_cells(isl@.take(i as int)).len() ==> (#[trigger] structure_cells(
                    isl@.take(i as int),
                )[j]).2 != glyph,
        decreases isl.len() - i,
    {
        let island = &isl[i];
        let ss = &island.structures;
        let ghost before = structure_cells(isl@.take(i as int));
        let ghost cells = ss@.map_values(|s: StructureMark| (island.x + 1, s.y, s.glyph));
        assert(isl@.take(i + 1).drop_last() == isl@.take(i as int));
        assert(isl@.take(i + 1).last() == isl@[i as int]);
        assert(structure_cells(isl@.take(i + 1)) == before + cells);
        assert forall|j: int| 0 <= j < before.len() implies (#[trigger] before[j]).2 != glyph by {
            assert(before[j] == structure_cells(isl@.take(i as int))[j]);
        }
        let mut k: usize = 0;
        while k < ss.len()
            invariant
                k <= ss@.len(),
                i < isl@.len(),
                structure_cells(isl@.take(i + 1)) == before + cells,
                *island == isl@[i as int],
                ss@ == island.structures@,
                island.x < u16::MAX,
                cells == ss@.map_values(|s: StructureMark| (island.x + 1, s.y, s.glyph)),
                forall|j: int| 0 <= j < before.len() ==> (#[trigger] before[j]).2 != glyph,
                forall|j: int| 0 <= j < k ==> (#[trigger] cells[j]).2 != glyph,
            decreases ss.len() - k,
        {
            let s = ss[k];
            if s.glyph == glyph {
                proof {
                    let all = structure_cells(isl@);
                    let pre = before + cells;
                    lemma_structures_prefix(isl@, i as int + 1);
                    let at = before.len() + k;
                    assert(pre[at as int] == cells[k as int]);
                    assert(all[at as int] == cells[k as int]);
                    assert forall|j: int| 0 <= j < at implies (#[trigger] all[j]).2 != glyph by {
                        assert(all[j] == pre[j]);
                        if j < before.len() {
                            assert(pre[j] == before[j]);
                        } else {
                            assert(pre[j] == cells[j - before.len()]);
                        }
                    }
                }
                return Some((island.x + 1, s.y));
            }
            k = k + 1;
        }
        assert forall|j: int| 0 <= j < (before + cells).len() implies (#[trigger] (before + cells)[j]).2
            != glyph by {
            if j >= before.len() {
                assert((before + cells)[j] == cells[j - before.len()]);
            }
        }
        i = i + 1;
    }
    assert(isl@.take(isl@.len() as int) == isl@);
    None
}

/// The hot world's first live instance of a feature, as a map cell.
pub fn locate(w: &LegendWorld, l: Locator) -> (r: Option<(u16, u16)>)
    requires
        fits(*w),
    ensures
        located(*w, l, r),
{
    match l {
        Locator::City => find_city(&w.cities, false),
        Locator::Granary => find_city(&w.cities, true),
        Locator::Node => find_province(&w.continents, false),
        Locator::Road => find_province(&w.continents, true),
        Locator::Harbor => find_coast(&w.continents, true),
        Locator::Gate => find_coast(&w.continents, false),
        Locator::Custom => find_structure(&w.islands, '\u{2726}'),
        Locator::Encampment => find_structure(&w.islands, '\u{25cc}'),
        Locator::Job => find_structure(&w.islands, '\u{25c8}'),
        Locator::CronJob => find_structure(&w.islands, '\u{25f7}'),
    }
}

// --- the legend page ----------------------------------------------------

/// One item of the legend page.
#[derive(Debug, Clone, Copy, PartialEq, Eq)]
pub enum LegendItem {
    Para(&'static str),
    Heading(&'static str),
    /// A mark, its name and its description.
    Entry(Mark, &'static str, &'static str),
}

/// The view of a legend item.
pub enum LegendItemV {
    Para(Seq<char>),
    Heading(Seq<char>),
    Entry(Mark, Seq<char>, Seq<char>),
}

/// The view of a legend item.
pub open spec fn legend_item_view(i: LegendItem) -> LegendItemV {
    match i {
        LegendItem::Para(p) => LegendItemV::Para(p@),
        LegendItem::Heading(h) => LegendItemV::Heading(h@),
        LegendItem::Entry(m, n, d) => LegendItemV::Entry(m, n@, d@),
    }
}

/// The legend page: every mark the map draws, grouped, each with its name
/// and what it means.
pub open spec fn legend_spec() -> Seq<LegendItemV> {
    seq![
        LegendItemV::Para("Entries marked  >  have a live example \u{2014} click to fly there."@),
        LegendItemV::Heading("Land & settlements"@),
        LegendItemV::Entry(Mark::City, "City"@, "A workload (Deployment or StatefulSet), sited on the province holding most of its pods. Its size grows with ready replicas; it migrates only when its pods do."@),
        LegendItemV::Entry(Mark::Road, "Road"@, "A DaemonSet \u{2014} paved across every province its pods run on, never a city."@),
        LegendItemV::Entry(Mark::Terrain(NodeHealth::Healthy), "Province"@, "A node. Terrain colour is its health: green healthy, olive cordoned, brown under pressure, dark-red NotReady."@),
        LegendItemV::Heading("The coast \u{2014} how traffic enters"@),
        LegendItemV::Entry(Mark::Harbor, "Harbor (Service)"@, "A Service fronting the city, moored on its east coast \u{2014} the shoreline is the network boundary."@),
        LegendItemV::Entry(Mark::Gate, "Gate (Ingress)"@, "An Ingress routing to the city from outside, beside its harbor."@),
        LegendItemV::Heading("The interior \u{2014} persistent state"@),
        LegendItemV::Entry(Mark::Granary, "Granary (PVC)"@, "Persistent volume claims the city mounts, inland of it. Cyan when every claim is Bound, yellow when one is still pending."@),
        LegendItemV::Heading("The southern islands \u{2014} abstract & transient"@),
        LegendItemV::Entry(Mark::Custom, "Structure (custom resource)"@, "A projected custom-resource instance (via --project), on its namespace island."@),
        LegendItemV::Entry(Mark::Camp, "Encampment"@, "A workload with no pods on any land yet \u{2014} it has nowhere to settle."@),
        LegendItemV::Entry(Mark::Job, "Expedition (Job)"@, "A batch Job \u{2014} one-shot work. Its status rides the label (done, active, or failed in yellow)."@),
        LegendItemV::Entry(Mark::CronJob, "CronJob"@, "A scheduled job; the label shows its cron schedule."@),
        LegendItemV::Heading("Pods"@),
        LegendItemV::Entry(Mark::Pod(PodState::Running), "Running & ready"@, "Healthy."@),
        LegendItemV::Entry(Mark::Pod(PodState::Starting), "Starting"@, "Running, not yet ready."@),
        LegendItemV::Entry(Mark::Pod(PodState::Pending), "Pending"@, "Not scheduled / waiting."@),
        LegendItemV::Entry(Mark::Pod(PodState::Failing), "Failing"@, "Crash, image, or config trouble."@),
        LegendItemV::Entry(Mark::Pod(PodState::Succeeded), "Succeeded"@, "Completed."@),
        LegendItemV::Heading("Attention & gauges"@),
        LegendItemV::Entry(Mark::Sev(Severity::Critical), "Critical"@, "Crashes, image/config failure, stalled rollout."@),
        LegendItemV::Entry(Mark::Sev(Severity::Warning), "Warning"@, "Replica gaps, unschedulable, OOM, flapping, pressure, pending PVC."@),
        LegendItemV::Entry(Mark::Sev(Severity::Info), "Info"@, "Cordons and grouped notes."@),
        LegendItemV::Entry(Mark::Gauge, "Gauge"@, "cpu / mem per node: live usage when metrics-server is present, else scheduling pressure (requests / allocatable)."@),
    ]
}

/// The legend page's items.
pub fn legend_items() -> (r: Vec<LegendItem>)
    ensures
        r@.map_values(|i: LegendItem| legend_item_view(i)) == legend_spec(),
{
    let r = vec![
        LegendItem::Para("Entries marked  >  have a live example \u{2014} click to fly there."),
        LegendItem::Heading("Land & settlements"),
        LegendItem::Entry(Mark::City, "City", "A workload (Deployment or StatefulSet), sited on the province holding most of its pods. Its size grows with ready replicas; it migrates only when its pods do."),
        LegendItem::Entry(Mark::Road, "Road", "A DaemonSet \u{2014} paved across every province its pods run on, never a city."),
        LegendItem::Entry(Mark::Terrain(NodeHealth::Healthy), "Province", "A node. Terrain colour is its health: green healthy, olive cordoned, brown under pressure, dark-red NotReady."),
        LegendItem::Heading("The coast \u{2014} how traffic enters"),
        LegendItem::Entry(Mark::Harbor, "Harbor (Service)", "A Service fronting the city, moored on its east coast \u{2014} the shoreline is the network boundary."),
        LegendItem::Entry(Mark::Gate, "Gate (Ingress)", "An Ingress routing to the city from outside, beside its harbor."),
        LegendItem::Heading("The interior \u{2014} persistent state"),
        LegendItem::Entry(Mark::Granary, "Granary (PVC)", "Persistent volume claims the city mounts, inland of it. Cyan when every claim is Bound, yellow when one is still pending."),
        LegendItem::Heading("The southern islands \u{2014} abstract & transient"),
        LegendItem::Entry(Mark::Custom, "Structure (custom resource)", "A projected custom-resource instance (via --project), on its namespace island."),
        LegendItem::Entry(Mark::Camp, "Encampment", "A workload with no pods on any land yet \u{2014} it has nowhere to settle."),
        LegendItem::Entry(Mark::Job, "Expedition (Job)", "A batch Job \u{2014} one-shot work. Its status rides the label (done, active, or failed in yellow)."),
        LegendItem::Entry(Mark::CronJob, "CronJob", "A scheduled job; the label shows its cron schedule."),
        LegendItem::Heading("Pods"),
        LegendItem::Entry(Mark::Pod(PodState::Running), "Running & ready", "Healthy."),
        LegendItem::Entry(Mark::Pod(PodState::Starting), "Starting", "Running, not yet ready."),
        LegendItem::Entry(Mark::Pod(PodState::Pending), "Pending", "Not scheduled / waiting."),
        LegendItem::Entry(Mark::Pod(PodState::Failing), "Failing", "Crash, image, or config trouble."),
        LegendItem::Entry(Mark::Pod(PodState::Succeeded), "Succeeded", "Completed."),
        LegendItem::Heading("Attention & gauges"),
        LegendItem::Entry(Mark::Sev(Severity::Critical), "Critical", "Crashes, image/config failure, stalled rollout."),
        LegendItem::Entry(Mark::Sev(Severity::Warning), "Warning", "Replica gaps, unschedulable, OOM, flapping, pressure, pending PVC."),
        LegendItem::Entry(Mark::Sev(Severity::Info), "Info", "Cordons and grouped notes."),
        LegendItem::Entry(Mark::Gauge, "Gauge", "cpu / mem per node: live usage when metrics-server is present, else scheduling pressure (requests / allocatable)."),
    ];
    assert(r@.map_values(|i: LegendItem| legend_item_view(i)) =~= legend_spec());
    r
}

/// Where a legend entry's cross-reference flies: the first live instance
/// of the feature its mark points at, once the world is known.
pub fn entry_target(m: Mark, world: Option<&LegendWorld>) -> (r: Option<(u16, u16)>)
    requires
        match world {
            Some(w) => fits(*w),
            None => true,
        },
    ensures
        match (mark_locator_spec(m), world) {
            (Some(l), Some(w)) => located(*w, l, r),
            _ => r is None,
        },
{
    match mark_locator(m) {
        Some(l) => match world {
            Some(w) => locate(w, l),
            None => None,
        },
        None => None,
    }
}

/// A legend entry lights up when it has a live example, is wholly in view
/// and is under the mouse; a click on a lit entry flies to its example.
pub fn entry_click(target: Option<(u16, u16)>, fully_visible: bool, hovered: bool, click: bool) -> (r: (bool, Option<(u16, u16)>))
    ensures
        r.0 == (target is Some && fully_visible && hovered),
        r.1 == if r.0 && click {
            target
        } else {
            None
        },
{
    let hot = target.is_some() && fully_visible && hovered;
    (hot, if hot && click { target } else { None })
}

} // verus!
