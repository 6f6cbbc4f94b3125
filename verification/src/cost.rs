//! The cost (upkeep) advisor's lines. Money and percentages arrive already
//! rendered as text; this module decides which lines are shown, how the
//! basis is described, which rollup rows appear, and the honest footer.
//! It never implies a cloud bill.

use vstd::prelude::*;
use crate::text::{dec, push_dec, push_str};
use crate::advisor::{RsRole, RS_CAP, capped, more_line, rs_view, wref_text, WorkloadRef, push_line, push_owned, push_more, push_wref};

verus! {

/// What the cost figures are denominated in.
#[derive(Debug, Clone, Copy, PartialEq, Eq, Structural)]
pub enum CostMode {
    /// Relative cost units (cpu + mem/4 weighted), no currency.
    Unitless,
    /// Dollars from the operator's rates.
    Currency,
}

/// Where the cost figures come from.
#[derive(Debug, Clone, Copy, PartialEq, Eq, Structural)]
pub enum CostBasis {
    /// Computed here from the operator's rates and reservations.
    Rates,
    /// Imported from OpenCost.
    OpenCost,
}

/// One namespace's upkeep.
#[derive(Debug, Clone)]
pub struct NamespaceCost {
    pub namespace: String,
    /// A system namespace (shown dimmed).
    pub system: bool,
    /// The hourly figure, rendered.
    pub per_hour: String,
    /// The share of the total, rendered (` (NN%)`, or empty).
    pub share: String,
}

/// One workload's upkeep.
#[derive(Debug, Clone)]
pub struct WorkloadCost {
    pub r: WorkloadRef,
    pub per_hour: String,
    pub share: String,
}

/// The upkeep report, its figures rendered.
#[derive(Debug, Clone)]
pub struct CostReport {
    pub mode: CostMode,
    pub basis: CostBasis,
    pub nodes_priced: usize,
    /// Whether the hourly total is positive.
    pub total_positive: bool,
    /// The monthly total, rendered.
    pub total_monthly: String,
    /// The idle share of the total in whole percent, rendered.
    pub idle_pct: String,
    /// The monthly idle figure, rendered.
    pub idle_monthly: String,
    /// The idle share is above the cluster-wide warning threshold.
    pub idle_warn: bool,
    /// What "idle" counts under this basis.
    pub idle_meaning: String,
    pub metrics_available: bool,
    /// Namespaces, costliest first.
    pub by_namespace: Vec<NamespaceCost>,
    /// Workloads, costliest first.
    pub top_workloads: Vec<WorkloadCost>,
}

/// How many workloads the costliest-cities list shows.
pub const TOP_CITIES: usize = 8;

/// Whether there is anything to show: priced nodes, a positive total, or
/// namespace rollups (OpenCost fills those without pricing nodes).
pub open spec fn has_cost_data(r: CostReport) -> bool {
    r.nodes_priced > 0 || r.total_positive || r.by_namespace@.len() > 0
}

/// How the basis is described under the headline.
pub open spec fn cost_basis_line(r: CostReport) -> Seq<char> {
    if r.basis == CostBasis::OpenCost {
        "from OpenCost \u{2014} invoice-grade, amortized (incl. network / load-balancer / storage; spot & reserved discounts)"@
    } else {
        match r.mode {
            CostMode::Unitless => "relative cost units (cpu + mem/4 weighted) from requests \u{2014} NOT a cloud bill; set --cpu-rate/--mem-rate or a kubernation.io/cost-hourly annotation for $"@,
            CostMode::Currency => "$ estimate from your rates \u{d7} reservation \u{2014} not a cloud invoice (excludes network/storage/LB/discounts)"@,
        }
    }
}

/// A namespace's rollup line (system namespaces dimmed).
pub open spec fn ns_cost_line(n: NamespaceCost) -> (Seq<char>, RsRole) {
    (
        n.namespace@ + (if n.system {
            " (system)"@
        } else {
            Seq::empty()
        }) + "  "@ + n.per_hour@ + n.share@,
        if n.system {
            RsRole::Dim
        } else {
            RsRole::Good
        },
    )
}

/// A workload's line in the costliest list.
pub open spec fn wl_cost_line(w: WorkloadCost) -> (Seq<char>, RsRole) {
    (wref_text(w.r) + "  "@ + w.per_hour@ + w.share@, RsRole::Good)
}

/// The footer's idle clause, naming what idle counts.
pub open spec fn idle_note(meaning: Seq<char>, tail: Seq<char>) -> Seq<char> {
    "upkeep = what you pay to HOLD reserved capacity; idle = "@ + meaning + ". "@ + tail
        + " rates are operator config; KuberNation reads no cloud billing."@
}

/// The cost footer, by basis and metrics.
pub open spec fn cost_footer(r: CostReport) -> Seq<char> {
    if r.basis == CostBasis::OpenCost {
        "imported from OpenCost (it reads the cloud billing API + amortizes spot/reserved). idle is OpenCost's cluster __idle__."@
    } else if r.metrics_available {
        idle_note(r.idle_meaning@, "usage-refined, so idle is capacity nobody is using."@)
    } else {
        idle_note(
            r.idle_meaning@,
            "install metrics-server to refine idle from reserved to actually-used."@,
        )
    }
}

/// Once anything is priced, the cost tab opens with the upkeep total as
/// its headline and the basis under it; the idle line warns exactly when
/// the report says idle is above the threshold.
pub proof fn lemma_cost_opens_with_the_upkeep(r: CostReport)
    requires
        has_cost_data(r),
    ensures
        cost_lines_spec(r)[0] == ("UPKEEP  "@ + r.total_monthly@, RsRole::Headline),
        cost_lines_spec(r)[1] == (cost_basis_line(r), RsRole::Dim),
        cost_lines_spec(r).last() == (cost_footer(r), RsRole::Dim),
        ({
            let i: int = if r.basis == CostBasis::OpenCost {
                3
            } else {
                2
            };
            cost_lines_spec(r)[i] == (
                "idle (unrequested capacity): "@ + r.idle_pct@ + "% \u{b7} "@ + r.idle_monthly@,
                if r.idle_warn {
                    RsRole::Warn
                } else {
                    RsRole::Dim
                },
            )
        }),
{
    let h = cost_head(r);
    let rest = cost_ns_section(r) + cost_top_section(r) + seq![(cost_footer(r), RsRole::Dim)];
    assert(cost_lines_spec(r) =~= h + rest);
    assert(h.len() >= 3);
    assert forall|i: int| 0 <= i < h.len() implies cost_lines_spec(r)[i] == h[i] by {
        assert((h + rest)[i] == h[i]);
    }
}

proof fn lemma_namespace_rows_shown(r: CostReport)
    requires
        has_cost_data(r),
    ensures
        forall|i: int|
            0 <= i < r.by_namespace@.len() && i < RS_CAP ==> cost_lines_spec(r)[cost_head(r).len() + 1 + i] == ({
                let n = #[trigger] r.by_namespace@[i];
                (
                    n.namespace@ + (if n.system {
                        " (system)"@
                    } else {
                        Seq::empty()
                    }) + "  "@ + n.per_hour@ + n.share@,
                    if n.system {
                        RsRole::Dim
                    } else {
                        RsRole::Good
                    },
                )
            }),
{
    let h = cost_head(r);
    let nsec = cost_ns_section(r);
    let tsec = cost_top_section(r);
    let ls = cost_lines_spec(r);
    assert(ls =~= h + nsec + tsec + seq![(cost_footer(r), RsRole::Dim)]);
    let ns = r.by_namespace@;
    let ws = r.top_workloads@;
    assert forall|i: int| 0 <= i < ns.len() && i < RS_CAP implies ls[h.len() + 1 + i] == ns_cost_line(#[trigger] ns[i]) by {
        let body = ns.take(capped(ns.len())).map_values(|n: NamespaceCost| ns_cost_line(n));
        let more = if ns.len() > RS_CAP {
            seq![more_line((ns.len() - RS_CAP) as nat)]
        } else {
            Seq::empty()
        };
        let pre = seq![("BY NAMESPACE"@, RsRole::Heading)];
        assert(nsec =~= pre + body + more);
        assert(nsec[1 + i] == body[i]);
        assert(ls[h.len() + 1 + i] == nsec[1 + i]);
    }
}

proof fn lemma_costliest_rows_shown(r: CostReport)
    requires
        has_cost_data(r),
    ensures
        forall|i: int|
            0 <= i < r.top_workloads@.len() && i < TOP_CITIES ==> cost_lines_spec(r)[cost_head(r).len() + cost_ns_section(r).len() + 1 + i] == (
                wref_text((#[trigger] r.top_workloads@[i]).r) + "  "@ + r.top_workloads@[i].per_hour@
                    + r.top_workloads@[i].share@,
                RsRole::Good,
            ),
{
    let h = cost_head(r);
    let nsec = cost_ns_section(r);
    let tsec = cost_top_section(r);
    let ls = cost_lines_spec(r);
    assert(ls =~= h + nsec + tsec + seq![(cost_footer(r), RsRole::Dim)]);
    let ns = r.by_namespace@;
    let ws = r.top_workloads@;
    assert forall|i: int| 0 <= i < ws.len() && i < TOP_CITIES implies ls[h.len() + nsec.len() + 1 + i] == wl_cost_line(#[trigger] ws[i]) by {
        let body = ws.take(if ws.len() > TOP_CITIES { TOP_CITIES as int } else { ws.len() as int }).map_values(
            |w: WorkloadCost| wl_cost_line(w),
        );
        let pre = seq![("COSTLIEST CITIES"@, RsRole::Heading)];
        assert(tsec =~= pre + body);
        assert(tsec[1 + i] == body[i]);
        assert(ls[h.len() + nsec.len() + 1 + i] == tsec[1 + i]);
    }
}

/// Once anything is priced, the rollups list their rows in order: each
/// of the first namespaces, right after the rollup heading, as its name
/// (marked when it is a system namespace), hourly cost and share, dimmed
/// exactly when it is a system namespace; and each of the first costliest
/// workloads, right after its heading, as its name, hourly cost and share.
pub proof fn lemma_rollups_list_their_rows(r: CostReport)
    requires
        has_cost_data(r),
    ensures
        forall|i: int|
            0 <= i < r.by_namespace@.len() && i < RS_CAP ==> cost_lines_spec(r)[cost_head(r).len() + 1 + i] == ({
                let n = #[trigger] r.by_namespace@[i];
                (
                    n.namespace@ + (if n.system {
                        " (system)"@
                    } else {
                        Seq::empty()
                    }) + "  "@ + n.per_hour@ + n.share@,
                    if n.system {
                        RsRole::Dim
                    } else {
                        RsRole::Good
                    },
                )
            }),
        forall|i: int|
            0 <= i < r.top_workloads@.len() && i < TOP_CITIES ==> cost_lines_spec(r)[cost_head(r).len() + cost_ns_section(r).len() + 1 + i] == (
                wref_text((#[trigger] r.top_workloads@[i]).r) + "  "@ + r.top_workloads@[i].per_hour@
                    + r.top_workloads@[i].share@,
                RsRole::Good,
            ),
{
    lemma_namespace_rows_shown(r);
    lemma_costliest_rows_shown(r);
}

/// `s` ends with `t`.
pub open spec fn ends_with(s: Seq<char>, t: Seq<char>) -> bool {
    t.len() <= s.len() && s.subrange(s.len() - t.len(), s.len() as int) == t
}

/// The footer's idle sentence follows the metrics: on rates, with
/// metrics-server present the footer ends by saying idle is usage-refined;
/// without it, by asking for metrics-server; either way it first names
/// what idle counts. An OpenCost import says it is imported.
pub proof fn lemma_footer_follows_metrics(r: CostReport)
    ensures
        r.basis == CostBasis::Rates && r.metrics_available ==> ends_with(
            cost_footer(r),
            "usage-refined, so idle is capacity nobody is using. rates are operator config; KuberNation reads no cloud billing."@,
        ),
        r.basis == CostBasis::Rates && !r.metrics_available ==> ends_with(
            cost_footer(r),
            "install metrics-server to refine idle from reserved to actually-used. rates are operator config; KuberNation reads no cloud billing."@,
        ),
        r.basis == CostBasis::Rates ==> cost_footer(r).take(
            ("upkeep = what you pay to HOLD reserved capacity; idle = "@ + r.idle_meaning@).len()
                as int,
        ) == "upkeep = what you pay to HOLD reserved capacity; idle = "@ + r.idle_meaning@,
        r.basis == CostBasis::OpenCost ==> cost_footer(r)
            == "imported from OpenCost (it reads the cloud billing API + amortizes spot/reserved). idle is OpenCost's cluster __idle__."@,
{
    let head = "upkeep = what you pay to HOLD reserved capacity; idle = "@ + r.idle_meaning@;
    let t = " rates are operator config; KuberNation reads no cloud billing."@;
    let a = "usage-refined, so idle is capacity nobody is using."@;
    let b = "install metrics-server to refine idle from reserved to actually-used."@;
    reveal_strlit("usage-refined, so idle is capacity nobody is using. rates are operator config; KuberNation reads no cloud billing.");
    reveal_strlit("install metrics-server to refine idle from reserved to actually-used. rates are operator config; KuberNation reads no cloud billing.");
    reveal_strlit("usage-refined, so idle is capacity nobody is using.");
    reveal_strlit("install metrics-server to refine idle from reserved to actually-used.");
    reveal_strlit(" rates are operator config; KuberNation reads no cloud billing.");
    reveal_strlit(". ");
    if r.basis == CostBasis::Rates {
        let f = cost_footer(r);
        let tail = if r.metrics_available {
            a
        } else {
            b
        };
        assert(f =~= (head + ". "@) + (tail + t));
        assert(f.subrange(f.len() - (tail + t).len(), f.len() as int) =~= tail + t);
        assert(f.take(head.len() as int) =~= head);
        if r.metrics_available {
            assert(tail + t =~= "usage-refined, so idle is capacity nobody is using. rates are operator config; KuberNation reads no cloud billing."@);
        } else {
            assert(tail + t =~= "install metrics-server to refine idle from reserved to actually-used. rates are operator config; KuberNation reads no cloud billing."@);
        }
    }
}

/// The head of the cost tab: the upkeep total, its basis, the OpenCost
/// caveat, and the idle line (warning only above the cluster threshold).
pub open spec fn cost_head(r: CostReport) -> Seq<(Seq<char>, RsRole)> {
    seq![("UPKEEP  "@ + r.total_monthly@, RsRole::Headline), (cost_basis_line(r), RsRole::Dim)]
        + (if r.basis == CostBasis::OpenCost {
        seq![
            (
                "per-node map overlay n/a from OpenCost (it bills by workload/namespace, not node)"@,
                RsRole::Dim,
            ),
        ]
    } else {
        Seq::empty()
    }) + seq![
        (
            "idle (unrequested capacity): "@ + r.idle_pct@ + "% \u{b7} "@ + r.idle_monthly@,
            if r.idle_warn {
                RsRole::Warn
            } else {
                RsRole::Dim
            },
        ),
    ]
}

/// The namespace rollup: heading, an empty note, the first rows and an
/// overflow count.
pub open spec fn cost_ns_section(r: CostReport) -> Seq<(Seq<char>, RsRole)> {
    let ns = r.by_namespace@;
    seq![("BY NAMESPACE"@, RsRole::Heading)] + (if ns.len() == 0 {
        seq![("(no allocated workloads)"@, RsRole::Dim)]
    } else {
        Seq::empty()
    }) + ns.take(capped(ns.len())).map_values(|n: NamespaceCost| ns_cost_line(n)) + if ns.len()
        > RS_CAP {
        seq![more_line((ns.len() - RS_CAP) as nat)]
    } else {
        Seq::empty()
    }
}

/// The costliest workloads: heading, an empty note, the first eight.
pub open spec fn cost_top_section(r: CostReport) -> Seq<(Seq<char>, RsRole)> {
    let ws = r.top_workloads@;
    seq![("COSTLIEST CITIES"@, RsRole::Heading)] + (if ws.len() == 0 {
        seq![("(no priced workloads)"@, RsRole::Dim)]
    } else {
        Seq::empty()
    }) + ws.take(if ws.len() > TOP_CITIES { TOP_CITIES as int } else { ws.len() as int }).map_values(
        |w: WorkloadCost| wl_cost_line(w),
    )
}

/// The cost advisor's lines: an empty state when nothing is priced;
/// otherwise the head, the namespace rollup, the costliest workloads and
/// the footer.
pub open spec fn cost_lines_spec(r: CostReport) -> Seq<(Seq<char>, RsRole)> {
    if !has_cost_data(r) {
        seq![
            ("no priced nodes yet"@, RsRole::Dim),
            ("(not synced, or \u{2014} in $ mode \u{2014} no rate applies to any node)"@, RsRole::Dim),
        ]
    } else {
        cost_head(r) + cost_ns_section(r) + cost_top_section(r) + seq![
            (cost_footer(r), RsRole::Dim),
        ]
    }
}

fn push_cost_head(out: &mut Vec<(String, RsRole)>, r: &CostReport)
    ensures
        rs_view(final(out)@) == rs_view(old(out)@) + cost_head(*r),
{
    let ghost o = rs_view(out@);
    let mut s = String::new();
    push_str(&mut s, "UPKEEP  ");
    push_str(&mut s, r.total_monthly.as_str());
    push_owned(out, s, RsRole::Headline);
    let opencost = match r.basis {
        CostBasis::OpenCost => true,
        CostBasis::Rates => false,
    };
    if opencost {
        push_line(
            out,
            "from OpenCost \u{2014} invoice-grade, amortized (incl. network / load-balancer / storage; spot & reserved discounts)",
            RsRole::Dim,
        );
    } else {
        match r.mode {
            CostMode::Unitless => push_line(
                out,
                "relative cost units (cpu + mem/4 weighted) from requests \u{2014} NOT a cloud bill; set --cpu-rate/--mem-rate or a kubernation.io/cost-hourly annotation for $",
                RsRole::Dim,
            ),
            CostMode::Currency => push_line(
                out,
                "$ estimate from your rates \u{d7} reservation \u{2014} not a cloud invoice (excludes network/storage/LB/discounts)",
                RsRole::Dim,
            ),
        }
    }
    if opencost {
        push_line(
            out,
            "per-node map overlay n/a from OpenCost (it bills by workload/namespace, not node)",
            RsRole::Dim,
        );
    }
    let mut s2 = String::new();
    push_str(&mut s2, "idle (unrequested capacity): ");
    push_str(&mut s2, r.idle_pct.as_str());
    push_str(&mut s2, "% \u{b7} ");
    push_str(&mut s2, r.idle_monthly.as_str());
    push_owned(out, s2, if r.idle_warn { RsRole::Warn } else { RsRole::Dim });
    assert(rs_view(out@) =~= o + cost_head(*r));
}

fn push_cost_ns(out: &mut Vec<(String, RsRole)>, r: &CostReport)
    ensures
        rs_view(final(out)@) == rs_view(old(out)@) + cost_ns_section(*r),
{
    let ghost o = rs_view(out@);
    push_line(out, "BY NAMESPACE", RsRole::Heading);
    let len = r.by_namespace.len();
    if len == 0 {
        push_line(out, "(no allocated workloads)", RsRole::Dim);
    }
    let ghost h = rs_view(out@);
    let shown = if len > RS_CAP { RS_CAP } else { len };
    let mut i: usize = 0;
    while i < shown
        invariant
            shown <= r.by_namespace@.len(),
            i <= shown,
            rs_view(out@) == h + r.by_namespace@.take(i as int).map_values(
                |n: NamespaceCost| ns_cost_line(n),
            ),
        decreases shown - i,
    {
        let n = &r.by_namespace[i];
        let mut line = n.namespace.clone();
        if n.system {
            push_str(&mut line, " (system)");
        }
        push_str(&mut line, "  ");
        push_str(&mut line, n.per_hour.as_str());
        push_str(&mut line, n.share.as_str());
        assert(line@ == ns_cost_line(*n).0);
        push_owned(out, line, if n.system { RsRole::Dim } else { RsRole::Good });
        proof {
            assert(r.by_namespace@.take(i + 1).map_values(|n: NamespaceCost| ns_cost_line(n))
                == r.by_namespace@.take(i as int).map_values(|n: NamespaceCost| ns_cost_line(n)).push(
                ns_cost_line(r.by_namespace@[i as int]),
            ));
        }
        i = i + 1;
    }
    if len > RS_CAP {
        push_more(out, len - RS_CAP);
    }
    assert(rs_view(out@) =~= o + cost_ns_section(*r));
}

fn push_cost_top(out: &mut Vec<(String, RsRole)>, r: &CostReport)
    ensures
        rs_view(final(out)@) == rs_view(old(out)@) + cost_top_section(*r),
{
    let ghost o = rs_view(out@);
    push_line(out, "COSTLIEST CITIES", RsRole::Heading);
    let len = r.top_workloads.len();
    if len == 0 {
        push_line(out, "(no priced workloads)", RsRole::Dim);
    }
    let ghost h = rs_view(out@);
    let shown = if len > TOP_CITIES { TOP_CITIES } else { len };
    let mut i: usize = 0;
    while i < shown
        invariant
            shown <= r.top_workloads@.len(),
            i <= shown,
            rs_view(out@) == h + r.top_workloads@.take(i as int).map_values(
                |w: WorkloadCost| wl_cost_line(w),
            ),
        decreases shown - i,
    {
        let w = &r.top_workloads[i];
        let mut line = String::new();
        push_wref(&mut line, &w.r);
        push_str(&mut line, "  ");
        push_str(&mut line, w.per_hour.as_str());
        push_str(&mut line, w.share.as_str());
        push_owned(out, line, RsRole::Good);
        proof {
            assert(r.top_workloads@.take(i + 1).map_values(|w: WorkloadCost| wl_cost_line(w))
                == r.top_workloads@.take(i as int).map_values(|w: WorkloadCost| wl_cost_line(w)).push(
                wl_cost_line(r.top_workloads@[i as int]),
            ));
        }
        i = i + 1;
    }
    assert(rs_view(out@) =~= o + cost_top_section(*r));
}

fn cost_footer_text(r: &CostReport) -> (s: String)
    ensures
        s@ == cost_footer(*r),
{
    let mut s = String::new();
    match r.basis {
        CostBasis::OpenCost => {
            push_str(
                &mut s,
                "imported from OpenCost (it reads the cloud billing API + amortizes spot/reserved). idle is OpenCost's cluster __idle__.",
            );
            return s;
        },
        CostBasis::Rates => {},
    }
    push_str(&mut s, "upkeep = what you pay to HOLD reserved capacity; idle = ");
    push_str(&mut s, r.idle_meaning.as_str());
    push_str(&mut s, ". ");
    if r.metrics_available {
        push_str(&mut s, "usage-refined, so idle is capacity nobody is using.");
    } else {
        push_str(&mut s, "install metrics-server to refine idle from reserved to actually-used.");
    }
    push_str(&mut s, " rates are operator config; KuberNation reads no cloud billing.");
    s
}

/// The cost (upkeep) advisor's lines.
pub fn cost_lines(r: &CostReport) -> (out: Vec<(String, RsRole)>)
    ensures
        rs_view(out@) == cost_lines_spec(*r),
{
    let mut out: Vec<(String, RsRole)> = Vec::new();
    let has_data = r.nodes_priced > 0 || r.total_positive || r.by_namespace.len() > 0;
    if !has_data {
        push_line(&mut out, "no priced nodes yet", RsRole::Dim);
        push_line(
            &mut out,
            "(not synced, or \u{2014} in $ mode \u{2014} no rate applies to any node)",
            RsRole::Dim,
        );
        assert(rs_view(out@) =~= cost_lines_spec(*r));
        return out;
    }
    push_cost_head(&mut out, r);
    push_cost_ns(&mut out, r);
    push_cost_top(&mut out, r);
    let f = cost_footer_text(r);
    push_owned(&mut out, f, RsRole::Dim);
    assert(rs_view(out@) =~= cost_lines_spec(*r));
    out
}

} // verus!
