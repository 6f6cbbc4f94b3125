//! The Health, Storage and Network advisor tabs as rows (headings, label /
//! value stats and notes, each with its tint), and the per-snapshot cache
//! that builds each tab's report at most once.

use vstd::prelude::*;
use crate::text::{dec, push_dec, push_str};
use crate::city::Tint;

verus! {

/// One row of an advisor page.
#[derive(Debug, Clone, PartialEq, Eq)]
pub enum PageRow {
    Heading(String),
    /// A `label ....... value` row, the value tinted.
    Stat { label: String, value: String, tint: Tint },
    Note(String, Tint),
}

/// The view of a page row.
pub enum RowV {
    Heading(Seq<char>),
    Stat(Seq<char>, Seq<char>, Tint),
    Note(Seq<char>, Tint),
}

/// The view of a page row.
pub open spec fn row_view(r: PageRow) -> RowV {
    match r {
        PageRow::Heading(h) => RowV::Heading(h@),
        PageRow::Stat { label, value, tint } => RowV::Stat(label@, value@, tint),
        PageRow::Note(n, t) => RowV::Note(n@, t),
    }
}

/// The view of a page.
pub open spec fn page_view(v: Seq<PageRow>) -> Seq<RowV> {
    v.map_values(|r: PageRow| row_view(r))
}

/// A count that is bad when non-zero takes `tint`; zero is dim.
pub open spec fn warn_if(n: nat, tint: Tint) -> Tint {
    if n > 0 {
        tint
    } else {
        Tint::Dim
    }
}

/// A count's stat row.
pub open spec fn count_stat(label: Seq<char>, n: nat, tint: Tint) -> RowV {
    RowV::Stat(label, dec(n), tint)
}

fn push_row(out: &mut Vec<PageRow>, r: PageRow)
    ensures
        page_view(final(out)@) == page_view(old(out)@).push(row_view(r)),
{
    let ghost o = out@;
    out.push(r);
    assert(page_view(out@) =~= page_view(o).push(row_view(r)));
}

fn push_heading(out: &mut Vec<PageRow>, h: &str)
    ensures
        page_view(final(out)@) == page_view(old(out)@).push(RowV::Heading(h@)),
{
    push_row(out, PageRow::Heading(String::from_str(h)));
}

fn push_count(out: &mut Vec<PageRow>, label: &str, n: usize, tint: Tint)
    ensures
        page_view(final(out)@) == page_view(old(out)@).push(count_stat(label@, n as nat, tint)),
{
    let mut v = String::new();
    push_dec(&mut v, n as u64);
    push_row(out, PageRow::Stat { label: String::from_str(label), value: v, tint });
}

fn push_note(out: &mut Vec<PageRow>, n: &str, tint: Tint)
    ensures
        page_view(final(out)@) == page_view(old(out)@).push(RowV::Note(n@, tint)),
{
    push_row(out, PageRow::Note(String::from_str(n), tint));
}

fn warn_if_exec(n: usize, tint: Tint) -> (r: Tint)
    ensures
        r == warn_if(n as nat, tint),
{
    if n > 0 {
        tint
    } else {
        Tint::Dim
    }
}

// --- health -------------------------------------------------------------

/// The realm's node, pod and workload counts.
#[derive(Debug, Clone)]
pub struct HealthReport {
    pub nodes_total: usize,
    pub nodes_healthy: usize,
    pub nodes_cordoned: usize,
    pub nodes_pressure: usize,
    pub nodes_notready: usize,
    pub pods_total: usize,
    pub pods_running: usize,
    pub pods_starting: usize,
    pub pods_pending: usize,
    pub pods_terminating: usize,
    pub pods_failing: usize,
    pub pods_succeeded: usize,
    pub workloads_total: usize,
    pub workloads_degraded: usize,
    /// Node gauges show live usage (metrics-server) rather than requests.
    pub metrics_live: bool,
}

/// The Health tab: provinces (nodes), citizens (pods) and cities
/// (workloads), each bad count tinted only when non-zero, and what the node
/// gauges measure.
pub open spec fn health_page_spec(r: HealthReport) -> Seq<RowV> {
    seq![
        RowV::Heading("PROVINCES (NODES)"@),
        count_stat("total"@, r.nodes_total as nat, Tint::Ink),
        count_stat("healthy"@, r.nodes_healthy as nat, Tint::Good),
        count_stat("cordoned"@, r.nodes_cordoned as nat, warn_if(r.nodes_cordoned as nat, Tint::Warn)),
        count_stat(
            "under pressure"@,
            r.nodes_pressure as nat,
            warn_if(r.nodes_pressure as nat, Tint::Warn),
        ),
        count_stat("NotReady"@, r.nodes_notready as nat, warn_if(r.nodes_notready as nat, Tint::Crit)),
        RowV::Heading("CITIZENS (PODS)"@),
        count_stat("total"@, r.pods_total as nat, Tint::Ink),
        count_stat("running"@, r.pods_running as nat, Tint::Good),
        count_stat("starting"@, r.pods_starting as nat, warn_if(r.pods_starting as nat, Tint::Struct)),
        count_stat("pending"@, r.pods_pending as nat, warn_if(r.pods_pending as nat, Tint::Warn)),
        count_stat("terminating"@, r.pods_terminating as nat, Tint::Dim),
        count_stat("failing"@, r.pods_failing as nat, warn_if(r.pods_failing as nat, Tint::Crit)),
        count_stat("succeeded"@, r.pods_succeeded as nat, Tint::Dim),
        RowV::Heading("CITIES (WORKLOADS)"@),
        count_stat("total"@, r.workloads_total as nat, Tint::Ink),
        count_stat(
            "understrength"@,
            r.workloads_degraded as nat,
            warn_if(r.workloads_degraded as nat, Tint::Warn),
        ),
        RowV::Note(
            if r.metrics_live {
                "node gauges: live usage (metrics-server)"@
            } else {
                "node gauges: scheduling pressure (requests)"@
            },
            Tint::Dim,
        ),
    ]
}

/// The Health tab's rows.
pub fn health_page(r: &HealthReport) -> (out: Vec<PageRow>)
    ensures
        page_view(out@) == health_page_spec(*r),
{
    let mut out: Vec<PageRow> = Vec::new();
    push_heading(&mut out, "PROVINCES (NODES)");
    push_count(&mut out, "total", r.nodes_total, Tint::Ink);
    push_count(&mut out, "healthy", r.nodes_healthy, Tint::Good);
    push_count(&mut out, "cordoned", r.nodes_cordoned, warn_if_exec(r.nodes_cordoned, Tint::Warn));
    push_count(&mut out, "under pressure", r.nodes_pressure, warn_if_exec(r.nodes_pressure, Tint::Warn));
    push_count(&mut out, "NotReady", r.nodes_notready, warn_if_exec(r.nodes_notready, Tint::Crit));
    push_heading(&mut out, "CITIZENS (PODS)");
    push_count(&mut out, "total", r.pods_total, Tint::Ink);
    push_count(&mut out, "running", r.pods_running, Tint::Good);
    push_count(&mut out, "starting", r.pods_starting, warn_if_exec(r.pods_starting, Tint::Struct));
    push_count(&mut out, "pending", r.pods_pending, warn_if_exec(r.pods_pending, Tint::Warn));
    push_count(&mut out, "terminating", r.pods_terminating, Tint::Dim);
    push_count(&mut out, "failing", r.pods_failing, warn_if_exec(r.pods_failing, Tint::Crit));
    push_count(&mut out, "succeeded", r.pods_succeeded, Tint::Dim);
    push_heading(&mut out, "CITIES (WORKLOADS)");
    push_count(&mut out, "total", r.workloads_total, Tint::Ink);
    push_count(
        &mut out,
        "understrength",
        r.workloads_degraded,
        warn_if_exec(r.workloads_degraded, Tint::Warn),
    );
    if r.metrics_live {
        push_note(&mut out, "node gauges: live usage (metrics-server)", Tint::Dim);
    } else {
        push_note(&mut out, "node gauges: scheduling pressure (requests)", Tint::Dim);
    }
    assert(page_view(out@) =~= health_page_spec(*r));
    out
}

// --- storage ------------------------------------------------------------

/// A namespaced object with a short status (a pending claim's phase, an
/// orphan gate's or idle harbor's detail).
#[derive(Debug, Clone)]
pub struct NamedDetail {
    pub namespace: String,
    pub name: String,
    pub detail: String,
}

/// The PVC counts and the claims still pending.
#[derive(Debug, Clone)]
pub struct StorageReport {
    pub total: usize,
    pub bound: usize,
    pub pending: usize,
    pub pending_claims: Vec<NamedDetail>,
}

/// A listed object's stat row: `ns/name` with its detail as the value.
pub open spec fn detail_stat(d: NamedDetail, tint: Tint) -> RowV {
    RowV::Stat(d.namespace@ + "/"@ + d.name@, d.detail@, tint)
}

/// A list section: each object as a stat row, or a note when there are
/// none.
pub open spec fn detail_section(v: Seq<NamedDetail>, tint: Tint, empty: Seq<char>) -> Seq<RowV> {
    if v.len() == 0 {
        seq![RowV::Note(empty, Tint::Dim)]
    } else {
        v.map_values(|d: NamedDetail| detail_stat(d, tint))
    }
}

fn push_details(out: &mut Vec<PageRow>, v: &Vec<NamedDetail>, tint: Tint, empty: &str)
    ensures
        page_view(final(out)@) == page_view(old(out)@) + detail_section(v@, tint, empty@),
{
    let ghost o = page_view(out@);
    if v.len() == 0 {
        push_note(out, empty, Tint::Dim);
        assert(page_view(out@) =~= o + detail_section(v@, tint, empty@));
        return;
    }
    let mut i: usize = 0;
    while i < v.len()
        invariant
            i <= v@.len(),
            v@.len() > 0,
            page_view(out@) == o + v@.take(i as int).map_values(|d: NamedDetail| detail_stat(d, tint)),
        decreases v.len() - i,
    {
        let d = &v[i];
        let mut label = String::new();
        push_str(&mut label, d.namespace.as_str());
        push_str(&mut label, "/");
        push_str(&mut label, d.name.as_str());
        push_row(out, PageRow::Stat { label, value: d.detail.clone(), tint });
        assert(v@.take(i + 1).map_values(|d: NamedDetail| detail_stat(d, tint)) == v@.take(
            i as int,
        ).map_values(|d: NamedDetail| detail_stat(d, tint)).push(detail_stat(v@[i as int], tint)));
        i = i + 1;
    }
    assert(v@.take(v@.len() as int) == v@);
}

/// The Storage tab: the granary counts, then each pending claim (or a note
/// that every claim is bound).
pub open spec fn storage_page_spec(r: StorageReport) -> Seq<RowV> {
    seq![
        RowV::Heading("GRANARIES (PVCs)"@),
        count_stat("total"@, r.total as nat, Tint::Ink),
        count_stat("bound"@, r.bound as nat, Tint::Good),
        count_stat("pending"@, r.pending as nat, warn_if(r.pending as nat, Tint::Warn)),
        RowV::Heading("PENDING CLAIMS"@),
    ] + detail_section(r.pending_claims@, Tint::Warn, "all claims bound \u{2014} granaries full"@)
}

/// The Storage tab's rows.
pub fn storage_page(r: &StorageReport) -> (out: Vec<PageRow>)
    ensures
        page_view(out@) == storage_page_spec(*r),
{
    let mut out: Vec<PageRow> = Vec::new();
    push_heading(&mut out, "GRANARIES (PVCs)");
    push_count(&mut out, "total", r.total, Tint::Ink);
    push_count(&mut out, "bound", r.bound, Tint::Good);
    push_count(&mut out, "pending", r.pending, warn_if_exec(r.pending, Tint::Warn));
    push_heading(&mut out, "PENDING CLAIMS");
    push_details(&mut out, &r.pending_claims, Tint::Warn, "all claims bound \u{2014} granaries full");
    assert(page_view(out@) =~= storage_page_spec(*r));
    out
}

// --- network ------------------------------------------------------------

/// The realm's connectivity: harbors (Services), gates (Ingresses), gates
/// that reach no Service and harbors that serve no workload.
#[derive(Debug, Clone)]
pub struct NetworkReport {
    pub services: usize,
    pub ingresses: usize,
    pub orphan_ingresses: Vec<NamedDetail>,
    pub idle_services: Vec<NamedDetail>,
}

/// The Network tab's connectivity part (the walls follow it).
pub open spec fn network_page_spec(r: NetworkReport) -> Seq<RowV> {
    seq![
        RowV::Heading("CONNECTIVITY"@),
        count_stat("services (harbors)"@, r.services as nat, Tint::Ink),
        count_stat("ingresses (gates)"@, r.ingresses as nat, Tint::Ink),
        RowV::Heading("ORPHAN GATES (INGRESS)"@),
    ] + detail_section(r.orphan_ingresses@, Tint::Warn, "every gate reaches a service"@) + seq![
        RowV::Heading("IDLE HARBORS (SERVICE)"@),
    ] + detail_section(r.idle_services@, Tint::Struct, "every harbor serves a city"@) + seq![
        RowV::Heading("WALLS (segmentation)"@),
    ]
}

/// The Network tab's connectivity rows, ending with the walls heading.
pub fn network_page(r: &NetworkReport) -> (out: Vec<PageRow>)
    ensures
        page_view(out@) == network_page_spec(*r),
{
    let mut out: Vec<PageRow> = Vec::new();
    push_heading(&mut out, "CONNECTIVITY");
    push_count(&mut out, "services (harbors)", r.services, Tint::Ink);
    push_count(&mut out, "ingresses (gates)", r.ingresses, Tint::Ink);
    push_heading(&mut out, "ORPHAN GATES (INGRESS)");
    push_details(&mut out, &r.orphan_ingresses, Tint::Warn, "every gate reaches a service");
    push_heading(&mut out, "IDLE HARBORS (SERVICE)");
    push_details(&mut out, &r.idle_services, Tint::Struct, "every harbor serves a city");
    push_heading(&mut out, "WALLS (segmentation)");
    assert(page_view(out@) =~= network_page_spec(*r));
    out
}

/// A bad count is never tinted on the pages while it is zero: the
/// warning colours appear only for something actually wrong.
pub proof fn lemma_zero_counts_are_quiet(n: nat, tint: Tint)
    ensures
        n == 0 ==> warn_if(n, tint) == Tint::Dim,
        n > 0 ==> warn_if(n, tint) == tint,
{
}

// --- the report cache ---------------------------------------------------

/// The per-snapshot memo of the advisor's reports. It is keyed on the
/// snapshot's identity and one key covers every slot: a new snapshot drops
/// them all, and each slot is built at most once per snapshot, only for a
/// tab that is looked at.
#[derive(Debug, Clone)]
pub struct ReportCache<H, S, N, R, D> {
    /// The identity of the snapshot the slots were built from.
    pub key: Option<u64>,
    pub health: Option<H>,
    pub storage: Option<S>,
    pub network: Option<N>,
    pub rightsizing: Option<R>,
    pub hardening: Option<D>,
}

impl<H, S, N, R, D> ReportCache<H, S, N, R, D> {
    /// An empty cache.
    pub fn new() -> (r: Self)
        ensures
            r.key is None,
            r.health is None,
            r.storage is None,
            r.network is None,
            r.rightsizing is None,
            r.hardening is None,
    {
        ReportCache { key: None, health: None, storage: None, network: None, rightsizing: None, hardening: None }
    }

    /// Keys the cache on snapshot `key`: the same snapshot keeps every
    /// slot; any other drops them all.
    pub fn sync(&mut self, key: u64)
        ensures
            final(self).key == Some(key),
            old(self).key == Some(key) ==> *final(self) == *old(self),
            old(self).key != Some(key) ==> {
                &&& final(self).health is None
                &&& final(self).storage is None
                &&& final(self).network is None
                &&& final(self).rightsizing is None
                &&& final(self).hardening is None
            },
    {
        let same = match self.key {
            Some(k) => k == key,
            None => false,
        };
        if !same {
            self.key = Some(key);
            self.health = None;
            self.storage = None;
            self.network = None;
            self.rightsizing = None;
            self.hardening = None;
        }
    }

    /// Fills the health slot, calling `build` only when it is empty.
    pub fn fill_health<F: FnOnce() -> H>(&mut self, build: F)
        requires
            old(self).health is None ==> build.requires(()),
        ensures
            old(self).health is Some ==> *final(self) == *old(self),
            old(self).health is None ==> final(self).health is Some && build.ensures(
                (),
                final(self).health->0,
            ) && *final(self) == (ReportCache { health: final(self).health, ..*old(self) }),
    {
        if self.health.is_none() {
            self.health = Some(build());
        }
    }

    /// Fills the storage slot, calling `build` only when it is empty.
    pub fn fill_storage<F: FnOnce() -> S>(&mut self, build: F)
        requires
            old(self).storage is None ==> build.requires(()),
        ensures
            old(self).storage is Some ==> *final(self) == *old(self),
            old(self).storage is None ==> final(self).storage is Some && build.ensures(
                (),
                final(self).storage->0,
            ) && *final(self) == (ReportCache { storage: final(self).storage, ..*old(self) }),
    {
        if self.storage.is_none() {
            self.storage = Some(build());
        }
    }

    /// Fills the network slot, calling `build` only when it is empty.
    pub fn fill_network<F: FnOnce() -> N>(&mut self, build: F)
        requires
            old(self).network is None ==> build.requires(()),
        ensures
            old(self).network is Some ==> *final(self) == *old(self),
            old(self).network is None ==> final(self).network is Some && build.ensures(
                (),
                final(self).network->0,
            ) && *final(self) == (ReportCache { network: final(self).network, ..*old(self) }),
    {
        if self.network.is_none() {
            self.network = Some(build());
        }
    }

    /// Fills the right-sizing slot, calling `build` only when it is empty.
    pub fn fill_rightsizing<F: FnOnce() -> R>(&mut self, build: F)
        requires
            old(self).rightsizing is None ==> build.requires(()),
        ensures
            old(self).rightsizing is Some ==> *final(self) == *old(self),
            old(self).rightsizing is None ==> final(self).rightsizing is Some && build.ensures(
                (),
                final(self).rightsizing->0,
            ) && *final(self) == (ReportCache { rightsizing: final(self).rightsizing, ..*old(self) }),
    {
        if self.rightsizing.is_none() {
            self.rightsizing = Some(build());
        }
    }

    /// Fills the hardening slot, calling `build` only when it is empty.
    pub fn fill_hardening<F: FnOnce() -> D>(&mut self, build: F)
        requires
            old(self).hardening is None ==> build.requires(()),
        ensures
            old(self).hardening is Some ==> *final(self) == *old(self),
            old(self).hardening is None ==> final(self).hardening is Some && build.ensures(
                (),
                final(self).hardening->0,
            ) && *final(self) == (ReportCache { hardening: final(self).hardening, ..*old(self) }),
    {
        if self.hardening.is_none() {
            self.hardening = Some(build());
        }
    }
}

} // verus!
