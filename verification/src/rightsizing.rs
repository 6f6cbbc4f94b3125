//! The right-sizing advisor's lines: requests against measured usage. The
//! quantities arrive already rendered as text (millicores, byte sizes);
//! this module decides which clauses a row carries, which rows and counts
//! are shown, and what the footer claims about its evidence.

use vstd::prelude::*;
use crate::text::{dec, push_dec, push_str};
use crate::advisor::{RsRole, RS_CAP, capped, more_line, rs_view, push_line, push_owned, push_more};

verus! {

/// How a resource is judged: the section of the table it puts a workload in.
#[derive(Debug, Clone, Copy, PartialEq, Eq, Structural)]
pub enum RsVerdict {
    Over,
    Under,
    Unrequested,
    RightSized,
    Unmeasured,
}

/// What a row's usage figure rests on.
#[derive(Debug, Clone, Copy, PartialEq, Eq, Structural)]
pub enum UsageBasis {
    /// The latest metrics-server reading only.
    Latest,
    /// The 90th percentile over this many samples of each pod's history.
    P90 { samples: usize },
}

/// One resource (cpu or memory) of a row, its quantities rendered.
#[derive(Debug, Clone)]
pub struct RsResource {
    pub verdict: RsVerdict,
    pub request: String,
    /// Mean usage.
    pub usage: String,
    /// The hottest pod's usage.
    pub peak: String,
    pub suggested: Option<String>,
    pub note: Option<String>,
}

/// One workload's right-sizing row.
#[derive(Debug, Clone)]
pub struct RsRow {
    pub kind: String,
    pub namespace: String,
    pub name: String,
    /// The QoS class label.
    pub qos: String,
    pub cpu: RsResource,
    pub mem: RsResource,
    pub measured_pods: usize,
    pub running_pods: usize,
    pub basis: UsageBasis,
}

/// The right-sizing report, its headline quantities rendered.
#[derive(Debug, Clone)]
pub struct RightSizingReport {
    pub metrics_available: bool,
    pub reclaimable_cpu: String,
    pub reclaimable_mem: String,
    /// The node-equivalent of the reclaimable request, when it rounds to a
    /// non-zero tenth.
    pub node_equiv: Option<String>,
    pub over: Vec<RsRow>,
    pub under: Vec<RsRow>,
    pub unrequested: Vec<RsRow>,
    pub right_sized_count: usize,
    pub unmeasured: usize,
}

/// The clause a resource adds to a row in `bucket`: nothing unless its own
/// verdict is that bucket; the values that drove the verdict (for memory
/// the peak pod, for cpu the mean, when under-provisioned), any suggestion,
/// then any note.
pub open spec fn clause(res: RsResource, name: Seq<char>, mem: bool, bucket: RsVerdict) -> Seq<char> {
    if res.verdict != bucket {
        Seq::empty()
    } else {
        let body = match bucket {
            RsVerdict::Over => "  "@ + name + " "@ + res.request@ + "->"@ + res.usage@ + match res.suggested {
                Some(v) => " ~"@ + v@,
                None => Seq::empty(),
            },
            RsVerdict::Under => "  "@ + name + " req "@ + res.request@ + (if mem {
                " peak "@ + res.peak@
            } else {
                " use "@ + res.usage@
            }) + match res.suggested {
                Some(v) => " ~raise "@ + v@,
                None => Seq::empty(),
            },
            RsVerdict::Unrequested => "  "@ + name + " unset"@ + match res.suggested {
                Some(v) => " ~start "@ + v@,
                None => Seq::empty(),
            },
            _ => Seq::empty(),
        };
        body + match res.note {
            Some(n) => "  ("@ + n@ + ")"@,
            None => Seq::empty(),
        }
    }
}

/// A row's line in `bucket`: `kind ns/name [qos]`, the cpu and memory
/// clauses, and how many pods were sampled when not all were.
pub open spec fn rs_row_line_spec(row: RsRow, bucket: RsVerdict) -> Seq<char> {
    row.kind@ + " "@ + row.namespace@ + "/"@ + row.name@ + " ["@ + row.qos@ + "]"@ + clause(
        row.cpu,
        "cpu"@,
        false,
        bucket,
    ) + clause(row.mem, "mem"@, true, bucket) + if row.measured_pods < row.running_pods {
        "  ("@ + dec(row.measured_pods as nat) + "/"@ + dec(row.running_pods as nat) + " sampled)"@
    } else {
        Seq::empty()
    }
}

fn push_clause(s: &mut String, res: &RsResource, name: &str, mem: bool, bucket: RsVerdict)
    ensures
        final(s)@ == old(s)@ + clause(*res, name@, mem, bucket),
{
    if res.verdict != bucket {
        return;
    }
    let ghost start = s@;
    match bucket {
        RsVerdict::Over => {
            push_str(s, "  ");
            push_str(s, name);
            push_str(s, " ");
            push_str(s, res.request.as_str());
            push_str(s, "->");
            push_str(s, res.usage.as_str());
            match &res.suggested {
                Some(v) => {
                    push_str(s, " ~");
                    push_str(s, v.as_str());
                },
                None => {},
            }
        },
        RsVerdict::Under => {
            push_str(s, "  ");
            push_str(s, name);
            push_str(s, " req ");
            push_str(s, res.request.as_str());
            if mem {
                push_str(s, " peak ");
                push_str(s, res.peak.as_str());
            } else {
                push_str(s, " use ");
                push_str(s, res.usage.as_str());
            }
            match &res.suggested {
                Some(v) => {
                    push_str(s, " ~raise ");
                    push_str(s, v.as_str());
                },
                None => {},
            }
        },
        RsVerdict::Unrequested => {
            push_str(s, "  ");
            push_str(s, name);
            push_str(s, " unset");
            match &res.suggested {
                Some(v) => {
                    push_str(s, " ~start ");
                    push_str(s, v.as_str());
                },
                None => {},
            }
        },
        _ => {},
    }
    match &res.note {
        Some(n) => {
            push_str(s, "  (");
            push_str(s, n.as_str());
            push_str(s, ")");
        },
        None => {},
    }
    assert(s@ =~= start + clause(*res, name@, mem, bucket));
}

/// One row's line in `bucket`.
pub fn rs_row_line(row: &RsRow, bucket: RsVerdict) -> (r: String)
    ensures
        r@ == rs_row_line_spec(*row, bucket),
{
    let mut s = String::new();
    push_str(&mut s, row.kind.as_str());
    push_str(&mut s, " ");
    push_str(&mut s, row.namespace.as_str());
    push_str(&mut s, "/");
    push_str(&mut s, row.name.as_str());
    push_str(&mut s, " [");
    push_str(&mut s, row.qos.as_str());
    push_str(&mut s, "]");
    push_clause(&mut s, &row.cpu, "cpu", false, bucket);
    push_clause(&mut s, &row.mem, "mem", true, bucket);
    if row.measured_pods < row.running_pods {
        push_str(&mut s, "  (");
        push_dec(&mut s, row.measured_pods as u64);
        push_str(&mut s, "/");
        push_dec(&mut s, row.running_pods as u64);
        push_str(&mut s, " sampled)");
    }
    assert(s@ =~= rs_row_line_spec(*row, bucket));
    s
}

/// How many rows rest on a single sample.
pub open spec fn latest_count(rows: Seq<RsRow>) -> nat
    decreases rows.len(),
{
    if rows.len() == 0 {
        0
    } else {
        latest_count(rows.drop_last()) + match rows.last().basis {
            UsageBasis::Latest => 1nat,
            UsageBasis::P90 { .. } => 0nat,
        }
    }
}

/// The shortest P90 window among the rows, if any row has one.
pub open spec fn shortest_window(rows: Seq<RsRow>) -> Option<nat>
    decreases rows.len(),
{
    if rows.len() == 0 {
        None
    } else {
        let prev = shortest_window(rows.drop_last());
        match rows.last().basis {
            UsageBasis::Latest => prev,
            UsageBasis::P90 { samples } => match prev {
                Some(w) => Some(if samples < w {
                    samples as nat
                } else {
                    w
                }),
                None => Some(samples as nat),
            },
        }
    }
}

/// The footer's window is the least P90 window among the rows, and there
/// is none exactly when no row has a P90 basis; the single-sample count is
/// never more than the rows.
pub proof fn lemma_shortest_window_is_the_least(rows: Seq<RsRow>)
    ensures
        shortest_window(rows) is None <==> (forall|i: int|
            0 <= i < rows.len() ==> (#[trigger] rows[i]).basis is Latest),
        forall|n: nat|
            shortest_window(rows) == Some(n) ==> {
                &&& exists|i: int|
                    0 <= i < rows.len() && (#[trigger] rows[i]).basis is P90
                        && rows[i].basis->samples == n
                &&& forall|i: int|
                    0 <= i < rows.len() && (#[trigger] rows[i]).basis is P90 ==> n
                        <= rows[i].basis->samples
            },
        latest_count(rows) <= rows.len(),
    decreases rows.len(),
{
    if rows.len() > 0 {
        let init = rows.drop_last();
        lemma_shortest_window_is_the_least(init);
        let k = rows.len() - 1;
        assert forall|i: int| 0 <= i < init.len() implies rows[i] == #[trigger] init[i] by {}
        let prev = shortest_window(init);
        match rows[k].basis {
            UsageBasis::Latest => {
                assert(shortest_window(rows) == prev);
                if prev is None {
                    assert forall|i: int| 0 <= i < rows.len() implies (
                    #[trigger] rows[i]).basis is Latest by {
                        if i < k {
                            assert(init[i].basis is Latest);
                        }
                    }
                } else {
                    let w = prev->0;
                    let j = choose|i: int|
                        0 <= i < init.len() && (#[trigger] init[i]).basis is P90
                            && init[i].basis->samples == w;
                    assert(rows[j] == init[j]);
                    assert forall|i: int|
                        0 <= i < rows.len() && (#[trigger] rows[i]).basis is P90 implies w
                        <= rows[i].basis->samples by {
                        if i < k {
                            assert(init[i] == rows[i]);
                        }
                    }
                }
            },
            UsageBasis::P90 { samples } => {
                let m: nat = match prev {
                    Some(w) => if samples < w {
                        samples as nat
                    } else {
                        w
                    },
                    None => samples as nat,
                };
                assert(shortest_window(rows) == Some(m));
                assert(!(rows[k].basis is Latest));
                if m == samples {
                    assert(rows[k].basis is P90 && rows[k].basis->samples == m);
                } else {
                    let w = prev->0;
                    let j = choose|i: int|
                        0 <= i < init.len() && (#[trigger] init[i]).basis is P90
                            && init[i].basis->samples == w;
                    assert(rows[j] == init[j]);
                }
                assert forall|i: int|
                    0 <= i < rows.len() && (#[trigger] rows[i]).basis is P90 implies m
                    <= rows[i].basis->samples by {
                    if i < k {
                        assert(init[i] == rows[i]);
                        assert(init[i].basis is P90);
                        assert(prev is Some);
                    }
                }
            },
        }
    }
}

/// Every row the table shows: over, under, then scheduler-blind.
pub open spec fn all_rows(r: RightSizingReport) -> Seq<RsRow> {
    r.over@ + r.under@ + r.unrequested@
}

/// Samples are 15 s apart: the window in whole minutes, rounded up.
pub open spec fn window_minutes(n: nat) -> nat {
    ((n * 15 + 59) / 60) as nat
}

/// The footer's basis clause: the predominant basis (the shortest P90
/// window in samples and minutes) and how many rows are exceptions, or the
/// single-sample caveat when no row has a history yet.
pub open spec fn basis_note_spec(r: RightSizingReport) -> Seq<char> {
    let rows = all_rows(r);
    let tail = "directional, not a multi-day VPA fit"@;
    if rows.len() == 0 {
        "no measured workloads yet"@
    } else {
        match shortest_window(rows) {
            None => "from a single metrics-server sample \u{2014} "@ + tail,
            Some(n) => "P90 of each pod's usage over the last "@ + dec(n) + " samples (~"@ + dec(
                window_minutes(n),
            ) + " min)"@ + (if latest_count(rows) > 0 {
                " \u{2014} "@ + dec(latest_count(rows)) + " of "@ + dec(rows.len())
                    + " rows from a single sample"@
            } else {
                Seq::empty()
            }) + " \u{2014} "@ + tail,
        }
    }
}

fn scan_basis(
    rows: &Vec<RsRow>,
    prefix: Ghost<Seq<RsRow>>,
    latest: &mut usize,
    shortest: &mut Option<usize>,
)
    requires
        *old(latest) == latest_count(prefix@),
        match *old(shortest) {
            Some(w) => shortest_window(prefix@) == Some(w as nat),
            None => shortest_window(prefix@) is None,
        },
        prefix@.len() + rows@.len() <= usize::MAX,
    ensures
        *final(latest) == latest_count(prefix@ + rows@),
        match *final(shortest) {
            Some(w) => shortest_window(prefix@ + rows@) == Some(w as nat),
            None => shortest_window(prefix@ + rows@) is None,
        },
{
    let ghost p = prefix@;
    let mut i: usize = 0;
    assert(p + rows@.take(0) == p);
    proof {
        lemma_latest_le(p);
    }
    while i < rows.len()
        invariant
            i <= rows@.len(),
            p.len() + rows@.len() <= usize::MAX,
            *latest == latest_count(p + rows@.take(i as int)),
            *latest <= p.len() + i,
            match *shortest {
                Some(w) => shortest_window(p + rows@.take(i as int)) == Some(w as nat),
                None => shortest_window(p + rows@.take(i as int)) is None,
            },
        decreases rows.len() - i,
    {
        assert((p + rows@.take(i + 1)).drop_last() == p + rows@.take(i as int));
        assert((p + rows@.take(i + 1)).last() == rows@[i as int]);
        match rows[i].basis {
            UsageBasis::Latest => {
                *latest = *latest + 1;
            },
            UsageBasis::P90 { samples } => {
                *shortest = match *shortest {
                    Some(w) => Some(if samples < w { samples } else { w }),
                    None => Some(samples),
                };
            },
        }
        i = i + 1;
    }
    assert(rows@.take(rows@.len() as int) == rows@);
}

proof fn lemma_latest_le(rows: Seq<RsRow>)
    ensures
        latest_count(rows) <= rows.len(),
    decreases rows.len(),
{
    if rows.len() > 0 {
        lemma_latest_le(rows.drop_last());
    }
}

/// The right-sizing footer's basis clause.
pub fn basis_note(r: &RightSizingReport) -> (s: String)
    requires
        r.over@.len() + r.under@.len() + r.unrequested@.len() <= usize::MAX,
    ensures
        s@ == basis_note_spec(*r),
{
    let total = r.over.len() + r.under.len() + r.unrequested.len();
    let mut s = String::new();
    if total == 0 {
        push_str(&mut s, "no measured workloads yet");
        return s;
    }
    let mut latest: usize = 0;
    let mut shortest: Option<usize> = None;
    scan_basis(&r.over, Ghost(Seq::empty()), &mut latest, &mut shortest);
    assert(Seq::<RsRow>::empty() + r.over@ == r.over@);
    scan_basis(&r.under, Ghost(r.over@), &mut latest, &mut shortest);
    scan_basis(&r.unrequested, Ghost(r.over@ + r.under@), &mut latest, &mut shortest);
    let ghost rows = all_rows(*r);
    match shortest {
        None => {
            push_str(&mut s, "from a single metrics-server sample \u{2014} ");
        },
        Some(n) => {
            let mins = n / 4 + if n % 4 != 0 { 1 } else { 0 };
            assert(mins == window_minutes(n as nat)) by (nonlinear_arith)
                requires
                    mins == n / 4 + if n % 4 != 0 { 1int } else { 0int },
                    n >= 0,
            ;
            push_str(&mut s, "P90 of each pod's usage over the last ");
            push_dec(&mut s, n as u64);
            push_str(&mut s, " samples (~");
            push_dec(&mut s, mins as u64);
            push_str(&mut s, " min)");
            if latest > 0 {
                push_str(&mut s, " \u{2014} ");
                push_dec(&mut s, latest as u64);
                push_str(&mut s, " of ");
                push_dec(&mut s, total as u64);
                push_str(&mut s, " rows from a single sample");
            }
            push_str(&mut s, " \u{2014} ");
        },
    }
    push_str(&mut s, "directional, not a multi-day VPA fit");
    assert(s@ =~= basis_note_spec(*r));
    s
}


/// A right-sizing section: its heading, then its first rows and an
/// overflow count, or the all-clear line when it is empty.
pub open spec fn rs_section(
    heading: Seq<char>,
    rows: Seq<RsRow>,
    bucket: RsVerdict,
    role: RsRole,
    empty: Seq<char>,
) -> Seq<(Seq<char>, RsRole)> {
    seq![(heading, RsRole::Heading)] + if rows.len() == 0 {
        seq![(empty, RsRole::Dim)]
    } else {
        let shown = rows.take(capped(rows.len())).map_values(
            |row: RsRow| (rs_row_line_spec(row, bucket), role),
        );
        if rows.len() > RS_CAP {
            shown.push(more_line((rows.len() - RS_CAP) as nat))
        } else {
            shown
        }
    }
}

/// The footer every right-sizing view ends with.
pub open spec fn rs_footer() -> (Seq<char>, RsRole) {
    (
        "advice only \u{2014} KuberNation can't edit container requests; apply via kubectl/manifest, then observe over time."@,
        RsRole::Dim,
    )
}

/// A count's role: `on` when non-zero, else Dim.
pub open spec fn count_role(n: nat, on: RsRole) -> RsRole {
    if n > 0 {
        on
    } else {
        RsRole::Dim
    }
}

/// The headline and count strip shown when usage metrics are available.
pub open spec fn rs_head(r: RightSizingReport) -> Seq<(Seq<char>, RsRole)> {
    seq![
        (
            "RECLAIMABLE  "@ + r.reclaimable_cpu@ + " cpu \u{b7} "@ + r.reclaimable_mem@ + " mem"@
                + match r.node_equiv {
                Some(t) => "  \u{2248} "@ + t@ + " nodes"@,
                None => Seq::empty(),
            },
            RsRole::Headline,
        ),
        (basis_note_spec(r), RsRole::Dim),
        ("over-provisioned: "@ + dec(r.over@.len()), count_role(r.over@.len(), RsRole::Warn)),
        ("under-provisioned: "@ + dec(r.under@.len()), count_role(r.under@.len(), RsRole::Crit)),
        (
            "scheduler-blind: "@ + dec(r.unrequested@.len()),
            count_role(r.unrequested@.len(), RsRole::Crit),
        ),
        ("right-sized: "@ + dec(r.right_sized_count as nat), RsRole::Good),
    ] + if r.unmeasured > 0 {
        seq![
            (
                "not measured: "@ + dec(r.unmeasured as nat) + " (no usage / scaled to zero)"@,
                RsRole::Dim,
            ),
        ]
    } else {
        Seq::empty()
    }
}

/// The scheduler-blind section (shown with or without metrics).
pub open spec fn blind_section(r: RightSizingReport) -> Seq<(Seq<char>, RsRole)> {
    rs_section(
        "SCHEDULER-BLIND (NO REQUESTS)"@,
        r.unrequested@,
        RsVerdict::Unrequested,
        RsRole::Crit,
        "every workload declares requests"@,
    )
}

/// The right-sizing advisor's lines. Without per-pod metrics it says so
/// and shows only the scheduler-blind workloads; with them, the
/// reclaimable headline, the basis of the evidence, the counts, and the
/// over / under / scheduler-blind sections.
pub open spec fn rightsizing_lines_spec(r: RightSizingReport) -> Seq<(Seq<char>, RsRole)> {
    if !r.metrics_available {
        seq![
            (
                "right-sizing needs per-pod metrics (metrics-server). showing only scheduler-blind workloads."@,
                RsRole::Warn,
            ),
        ] + blind_section(r) + seq![rs_footer()]
    } else {
        rs_head(r) + rs_section(
            "OVER-PROVISIONED (WASTE)"@,
            r.over@,
            RsVerdict::Over,
            RsRole::Warn,
            "every city is well-sized"@,
        ) + rs_section(
            "UNDER-PROVISIONED (THROTTLE / OOM RISK)"@,
            r.under@,
            RsVerdict::Under,
            RsRole::Crit,
            "no workload is starved"@,
        ) + blind_section(r) + seq![rs_footer()]
    }
}

/// With metrics, the count strip counts each bucket: the over-, under-
/// provisioned and scheduler-blind lines carry the length of their own
/// bucket (Warn / Crit when it is non-empty, Dim when empty), followed by
/// the right-sized count; the strip sits right after the headline and the
/// basis note.
pub proof fn lemma_count_strip_counts_each_bucket(r: RightSizingReport)
    requires
        r.metrics_available,
    ensures
        rightsizing_lines_spec(r)[2] == (
            "over-provisioned: "@ + dec(r.over@.len()),
            if r.over@.len() > 0 {
                RsRole::Warn
            } else {
                RsRole::Dim
            },
        ),
        rightsizing_lines_spec(r)[3] == (
            "under-provisioned: "@ + dec(r.under@.len()),
            if r.under@.len() > 0 {
                RsRole::Crit
            } else {
                RsRole::Dim
            },
        ),
        rightsizing_lines_spec(r)[4] == (
            "scheduler-blind: "@ + dec(r.unrequested@.len()),
            if r.unrequested@.len() > 0 {
                RsRole::Crit
            } else {
                RsRole::Dim
            },
        ),
        rightsizing_lines_spec(r)[5] == ("right-sized: "@ + dec(r.right_sized_count as nat), RsRole::Good),
{
    let h = rs_head(r);
    let ls = rightsizing_lines_spec(r);
    assert(h.len() >= 6);
    let a = rs_section(
        "OVER-PROVISIONED (WASTE)"@,
        r.over@,
        RsVerdict::Over,
        RsRole::Warn,
        "every city is well-sized"@,
    );
    let b = rs_section(
        "UNDER-PROVISIONED (THROTTLE / OOM RISK)"@,
        r.under@,
        RsVerdict::Under,
        RsRole::Crit,
        "no workload is starved"@,
    );
    let rest = a + b + blind_section(r) + seq![rs_footer()];
    assert(ls =~= h + rest);
    assert forall|i: int| 2 <= i < 6 implies ls[i] == h[i] by {
        assert((h + rest)[i] == h[i]);
    }
}

/// Without per-pod metrics the view says so first and shows only the
/// scheduler-blind section (no count strip); with them it opens with the
/// reclaimable headline and the evidence basis. Every view ends with the
/// advice-only footer.
pub proof fn lemma_without_metrics_only_blind_workloads(r: RightSizingReport)
    ensures
        !r.metrics_available ==> rightsizing_lines_spec(r)[0] == (
            "right-sizing needs per-pod metrics (metrics-server). showing only scheduler-blind workloads."@,
            RsRole::Warn,
        ) && rightsizing_lines_spec(r)[1] == ("SCHEDULER-BLIND (NO REQUESTS)"@, RsRole::Heading),
        r.metrics_available ==> rightsizing_lines_spec(r)[0].1 == RsRole::Headline
            && rightsizing_lines_spec(r)[1] == (basis_note_spec(r), RsRole::Dim),
        rightsizing_lines_spec(r).last() == rs_footer(),
{
    let ls = rightsizing_lines_spec(r);
    if !r.metrics_available {
        let w = seq![
            (
                "right-sizing needs per-pod metrics (metrics-server). showing only scheduler-blind workloads."@,
                RsRole::Warn,
            ),
        ];
        let b = blind_section(r);
        assert(ls =~= w + (b + seq![rs_footer()]));
        assert(ls[1] == (b + seq![rs_footer()])[0]);
        assert(b[0] == ("SCHEDULER-BLIND (NO REQUESTS)"@, RsRole::Heading));
    } else {
        lemma_count_strip_counts_each_bucket(r);
        let h = rs_head(r);
        let a = rs_section(
            "OVER-PROVISIONED (WASTE)"@,
            r.over@,
            RsVerdict::Over,
            RsRole::Warn,
            "every city is well-sized"@,
        );
        let b = rs_section(
            "UNDER-PROVISIONED (THROTTLE / OOM RISK)"@,
            r.under@,
            RsVerdict::Under,
            RsRole::Crit,
            "no workload is starved"@,
        );
        let rest = a + b + blind_section(r) + seq![rs_footer()];
        assert(ls =~= h + rest);
        assert(ls[0] == h[0] && ls[1] == h[1]);
    }
}

/// `s` starts with `t`.
pub open spec fn starts_with(s: Seq<char>, t: Seq<char>) -> bool {
    t.len() <= s.len() && s.take(t.len() as int) == t
}

/// A row's line names the workload first (`kind ns/name [qos]`); a
/// partly sampled workload ends by saying how many of its pods were
/// sampled; and a row whose resources both have another verdict than the
/// bucket, fully sampled, is the name alone.
pub proof fn lemma_row_line_names_the_workload(row: RsRow, bucket: RsVerdict)
    ensures
        starts_with(
            rs_row_line_spec(row, bucket),
            row.kind@ + " "@ + row.namespace@ + "/"@ + row.name@ + " ["@ + row.qos@ + "]"@,
        ),
        row.measured_pods < row.running_pods ==> ({
            let line = rs_row_line_spec(row, bucket);
            let note = "  ("@ + dec(row.measured_pods as nat) + "/"@ + dec(row.running_pods as nat)
                + " sampled)"@;
            line.subrange(line.len() - note.len(), line.len() as int) == note
        }),
        row.measured_pods >= row.running_pods && row.cpu.verdict != bucket && row.mem.verdict
            != bucket ==> rs_row_line_spec(row, bucket) == row.kind@ + " "@ + row.namespace@ + "/"@
            + row.name@ + " ["@ + row.qos@ + "]"@,
{
    let head = row.kind@ + " "@ + row.namespace@ + "/"@ + row.name@ + " ["@ + row.qos@ + "]"@;
    let cc = clause(row.cpu, "cpu"@, false, bucket);
    let mc = clause(row.mem, "mem"@, true, bucket);
    let line = rs_row_line_spec(row, bucket);
    let note = if row.measured_pods < row.running_pods {
        "  ("@ + dec(row.measured_pods as nat) + "/"@ + dec(row.running_pods as nat) + " sampled)"@
    } else {
        Seq::empty()
    };
    let body = cc + mc + note;
    assert(line =~= head + body) by {
        assert(line == head + cc + mc + note);
    }
    assert(line.take(head.len() as int) =~= head);
    let front = head + cc + mc;
    assert(line =~= front + note) by {
        assert(line == head + cc + mc + note);
    }
    assert(line.subrange(line.len() - note.len(), line.len() as int) =~= note);
    if row.cpu.verdict != bucket && row.mem.verdict != bucket && note.len() == 0 {
        assert(line =~= head);
    }
}

/// A resource adds nothing to a row of another bucket. Under-provisioning
/// reads memory against its hottest pod and cpu against its mean, both
/// after the request; over-provisioning reads request -> mean usage.
pub proof fn lemma_clause_reads_the_right_figures(res: RsResource, name: Seq<char>, bucket: RsVerdict)
    ensures
        res.verdict != bucket ==> clause(res, name, true, bucket).len() == 0 && clause(
            res,
            name,
            false,
            bucket,
        ).len() == 0,
        res.verdict == RsVerdict::Under ==> starts_with(
            clause(res, name, true, RsVerdict::Under),
            "  "@ + name + " req "@ + res.request@ + " peak "@ + res.peak@,
        ),
        res.verdict == RsVerdict::Under ==> starts_with(
            clause(res, name, false, RsVerdict::Under),
            "  "@ + name + " req "@ + res.request@ + " use "@ + res.usage@,
        ),
        res.verdict == RsVerdict::Over ==> starts_with(
            clause(res, name, true, RsVerdict::Over),
            "  "@ + name + " "@ + res.request@ + "->"@ + res.usage@,
        ),
{
    if res.verdict == RsVerdict::Under {
        let p1 = "  "@ + name + " req "@ + res.request@ + " peak "@ + res.peak@;
        let c1 = clause(res, name, true, RsVerdict::Under);
        assert(c1.take(p1.len() as int) =~= p1);
        let p2 = "  "@ + name + " req "@ + res.request@ + " use "@ + res.usage@;
        let c2 = clause(res, name, false, RsVerdict::Under);
        assert(c2.take(p2.len() as int) =~= p2);
    }
    if res.verdict == RsVerdict::Over {
        let p = "  "@ + name + " "@ + res.request@ + "->"@ + res.usage@;
        let c = clause(res, name, true, RsVerdict::Over);
        assert(c.take(p.len() as int) =~= p);
    }
}

/// How many rows rest on a single sample: the rows whose basis is the
/// latest reading.
pub proof fn lemma_latest_count_counts_single_samples(rows: Seq<RsRow>)
    ensures
        latest_count(rows) == rows.filter(|x: RsRow| x.basis is Latest).len(),
    decreases rows.len(),
{
    reveal(Seq::filter);
    if rows.len() > 0 {
        lemma_latest_count_counts_single_samples(rows.drop_last());
    }
}

/// The footer's basis clause: no rows says so; rows all from a single
/// sample say that; otherwise it names the least P90 window among the
/// rows, in samples and in whole minutes (15 s a sample, rounded up), and
/// when some rows rest on one sample, how many of all the rows do.
pub proof fn lemma_basis_note_names_the_weakest_evidence(r: RightSizingReport)
    ensures
        ({
            let rows = r.over@ + r.under@ + r.unrequested@;
            let latest = rows.filter(|x: RsRow| x.basis is Latest).len();
            let tail = " \u{2014} directional, not a multi-day VPA fit"@;
            &&& rows.len() == 0 ==> basis_note_spec(r) == "no measured workloads yet"@
            &&& rows.len() > 0 && (forall|i: int| 0 <= i < rows.len() ==> (#[trigger] rows[i]).basis is Latest)
                ==> basis_note_spec(r) == "from a single metrics-server sample"@ + tail
            &&& forall|i: int|
                0 <= i < rows.len() && (#[trigger] rows[i]).basis is P90 && (forall|j: int|
                    0 <= j < rows.len() && rows[j].basis is P90 ==> rows[i].basis->samples
                        <= rows[j].basis->samples) ==> {
                    let n = rows[i].basis->samples as nat;
                    basis_note_spec(r) == "P90 of each pod's usage over the last "@ + dec(n)
                        + " samples (~"@ + dec(((n * 15 + 59) / 60) as nat) + " min)"@ + (if latest
                        > 0 {
                        " \u{2014} "@ + dec(latest) + " of "@ + dec(rows.len()) + " rows from a single sample"@
                    } else {
                        Seq::empty()
                    }) + tail
                }
        }),
{
    let rows = all_rows(r);
    lemma_shortest_window_is_the_least(rows);
    lemma_latest_count_counts_single_samples(rows);
    reveal_strlit(" \u{2014} ");
    reveal_strlit(" \u{2014} directional, not a multi-day VPA fit");
    reveal_strlit("directional, not a multi-day VPA fit");
    reveal_strlit("from a single metrics-server sample \u{2014} ");
    reveal_strlit("from a single metrics-server sample");
    let tail = " \u{2014} directional, not a multi-day VPA fit"@;
    assert(tail =~= " \u{2014} "@ + "directional, not a multi-day VPA fit"@);
    assert("from a single metrics-server sample \u{2014} "@ + "directional, not a multi-day VPA fit"@
        =~= "from a single metrics-server sample"@ + tail);
    assert forall|i: int|
        0 <= i < rows.len() && (#[trigger] rows[i]).basis is P90 && (forall|j: int|
            0 <= j < rows.len() && rows[j].basis is P90 ==> rows[i].basis->samples
                <= rows[j].basis->samples) implies {
            let n = rows[i].basis->samples as nat;
            let latest = rows.filter(|x: RsRow| x.basis is Latest).len();
            basis_note_spec(r) == "P90 of each pod's usage over the last "@ + dec(n)
                + " samples (~"@ + dec(((n * 15 + 59) / 60) as nat) + " min)"@ + (if latest
                > 0 {
                " \u{2014} "@ + dec(latest) + " of "@ + dec(rows.len()) + " rows from a single sample"@
            } else {
                Seq::empty()
            }) + tail
        } by {
        assert(!(rows[i].basis is Latest));
        let w = shortest_window(rows)->0;
        let k = choose|k: int|
            0 <= k < rows.len() && (#[trigger] rows[k]).basis is P90 && rows[k].basis->samples == w;
        assert(rows[i].basis->samples <= w);
        assert(w <= rows[i].basis->samples);
    }
}

proof fn lemma_rs_section_row(
    heading: Seq<char>,
    rows: Seq<RsRow>,
    bucket: RsVerdict,
    role: RsRole,
    empty: Seq<char>,
    i: int,
)
    requires
        0 <= i < rows.len(),
        i < RS_CAP,
    ensures
        rs_section(heading, rows, bucket, role, empty)[0] == (heading, RsRole::Heading),
        rs_section(heading, rows, bucket, role, empty)[i + 1] == (rs_row_line_spec(rows[i], bucket), role),
{
    let shown = rows.take(capped(rows.len())).map_values(
        |row: RsRow| (rs_row_line_spec(row, bucket), role),
    );
    let body = if rows.len() > RS_CAP {
        shown.push(more_line((rows.len() - RS_CAP) as nat))
    } else {
        shown
    };
    assert(body[i] == shown[i]);
    assert((seq![(heading, RsRole::Heading)] + body)[i + 1] == body[i]);
}

/// With metrics, each bucket's first rows are read in their own verdict
/// and colour, in order, right after their heading: over-provisioned in
/// yellow, under-provisioned in red, scheduler-blind in red.
pub proof fn lemma_buckets_read_in_their_own_verdict(r: RightSizingReport)
    requires
        r.metrics_available,
    ensures
        forall|i: int|
            0 <= i < r.over@.len() && i < RS_CAP ==> rightsizing_lines_spec(r)[rs_head(r).len() + 1 + i]
                == (rs_row_line_spec(#[trigger] r.over@[i], RsVerdict::Over), RsRole::Warn),
        forall|i: int|
            0 <= i < r.under@.len() && i < RS_CAP ==> rightsizing_lines_spec(r)[rs_head(r).len()
                + rs_section(
                "OVER-PROVISIONED (WASTE)"@,
                r.over@,
                RsVerdict::Over,
                RsRole::Warn,
                "every city is well-sized"@,
            ).len() + 1 + i] == (rs_row_line_spec(#[trigger] r.under@[i], RsVerdict::Under), RsRole::Crit),
{
    let h = rs_head(r);
    let a = rs_section(
        "OVER-PROVISIONED (WASTE)"@,
        r.over@,
        RsVerdict::Over,
        RsRole::Warn,
        "every city is well-sized"@,
    );
    let b = rs_section(
        "UNDER-PROVISIONED (THROTTLE / OOM RISK)"@,
        r.under@,
        RsVerdict::Under,
        RsRole::Crit,
        "no workload is starved"@,
    );
    let ls = rightsizing_lines_spec(r);
    assert(ls =~= h + a + b + blind_section(r) + seq![rs_footer()]);
    assert forall|i: int| 0 <= i < r.over@.len() && i < RS_CAP implies ls[h.len() + 1 + i] == (
        rs_row_line_spec(#[trigger] r.over@[i], RsVerdict::Over),
        RsRole::Warn,
    ) by {
        lemma_rs_section_row(
            "OVER-PROVISIONED (WASTE)"@,
            r.over@,
            RsVerdict::Over,
            RsRole::Warn,
            "every city is well-sized"@,
            i,
        );
    }
    assert forall|i: int| 0 <= i < r.under@.len() && i < RS_CAP implies ls[h.len() + a.len() + 1
        + i] == (rs_row_line_spec(#[trigger] r.under@[i], RsVerdict::Under), RsRole::Crit) by {
        lemma_rs_section_row(
            "UNDER-PROVISIONED (THROTTLE / OOM RISK)"@,
            r.under@,
            RsVerdict::Under,
            RsRole::Crit,
            "no workload is starved"@,
            i,
        );
    }
}

/// The scheduler-blind section reads each of its first workloads as
/// having no requests, in red, right after its heading.
pub proof fn lemma_blind_rows_read_unrequested(r: RightSizingReport, i: int)
    requires
        0 <= i < r.unrequested@.len(),
        i < RS_CAP,
    ensures
        blind_section(r)[0] == ("SCHEDULER-BLIND (NO REQUESTS)"@, RsRole::Heading),
        blind_section(r)[i + 1] == (rs_row_line_spec(r.unrequested@[i], RsVerdict::Unrequested), RsRole::Crit),
{
    lemma_rs_section_row(
        "SCHEDULER-BLIND (NO REQUESTS)"@,
        r.unrequested@,
        RsVerdict::Unrequested,
        RsRole::Crit,
        "every workload declares requests"@,
        i,
    );
}

fn push_rs_section(
    out: &mut Vec<(String, RsRole)>,
    heading: &str,
    rows: &Vec<RsRow>,
    bucket: RsVerdict,
    role: RsRole,
    empty: &str,
)
    ensures
        rs_view(final(out)@) == rs_view(old(out)@) + rs_section(heading@, rows@, bucket, role, empty@),
{
    let ghost o = rs_view(out@);
    push_line(out, heading, RsRole::Heading);
    let len = rows.len();
    if len == 0 {
        push_line(out, empty, RsRole::Dim);
        assert(rs_view(out@) =~= o + rs_section(heading@, rows@, bucket, role, empty@));
        return;
    }
    let ghost h = rs_view(out@);
    let shown = if len > RS_CAP { RS_CAP } else { len };
    let mut i: usize = 0;
    while i < shown
        invariant
            shown <= rows@.len(),
            i <= shown,
            rs_view(out@) == h + rows@.take(i as int).map_values(
                |row: RsRow| (rs_row_line_spec(row, bucket), role),
            ),
        decreases shown - i,
    {
        let line = rs_row_line(&rows[i], bucket);
        push_owned(out, line, role);
        proof {
            assert(rows@.take(i + 1).map_values(|row: RsRow| (rs_row_line_spec(row, bucket), role))
                == rows@.take(i as int).map_values(|row: RsRow| (rs_row_line_spec(row, bucket), role)).push(
                (rs_row_line_spec(rows@[i as int], bucket), role),
            ));
        }
        i = i + 1;
    }
    if len > RS_CAP {
        push_more(out, len - RS_CAP);
    }
    assert(rs_view(out@) =~= o + rs_section(heading@, rows@, bucket, role, empty@));
}

fn push_count(out: &mut Vec<(String, RsRole)>, label: &str, n: usize, on: RsRole)
    ensures
        rs_view(final(out)@) == rs_view(old(out)@).push((label@ + dec(n as nat), count_role(n as nat, on))),
{
    let mut s = String::new();
    push_str(&mut s, label);
    push_dec(&mut s, n as u64);
    push_owned(out, s, if n > 0 { on } else { RsRole::Dim });
}

fn push_rs_head(out: &mut Vec<(String, RsRole)>, r: &RightSizingReport)
    requires
        r.over@.len() + r.under@.len() + r.unrequested@.len() <= usize::MAX,
    ensures
        rs_view(final(out)@) == rs_view(old(out)@) + rs_head(*r),
{
    let ghost o = rs_view(out@);
    let mut s = String::new();
    push_str(&mut s, "RECLAIMABLE  ");
    push_str(&mut s, r.reclaimable_cpu.as_str());
    push_str(&mut s, " cpu \u{b7} ");
    push_str(&mut s, r.reclaimable_mem.as_str());
    push_str(&mut s, " mem");
    match &r.node_equiv {
        Some(t) => {
            push_str(&mut s, "  \u{2248} ");
            push_str(&mut s, t.as_str());
            push_str(&mut s, " nodes");
        },
        None => {},
    }
    assert(s@ == rs_head(*r)[0].0);
    push_owned(out, s, RsRole::Headline);
    let b = basis_note(r);
    push_owned(out, b, RsRole::Dim);
    push_count(out, "over-provisioned: ", r.over.len(), RsRole::Warn);
    push_count(out, "under-provisioned: ", r.under.len(), RsRole::Crit);
    push_count(out, "scheduler-blind: ", r.unrequested.len(), RsRole::Crit);
    let mut s2 = String::new();
    push_str(&mut s2, "right-sized: ");
    push_dec(&mut s2, r.right_sized_count as u64);
    push_owned(out, s2, RsRole::Good);
    if r.unmeasured > 0 {
        let mut s3 = String::new();
        push_str(&mut s3, "not measured: ");
        push_dec(&mut s3, r.unmeasured as u64);
        push_str(&mut s3, " (no usage / scaled to zero)");
        push_owned(out, s3, RsRole::Dim);
    }
    assert(rs_view(out@).len() == o.len() + rs_head(*r).len());
    assert(forall|i: int| 0 <= i < rs_head(*r).len() ==> rs_view(out@)[o.len() + i] == rs_head(*r)[i]);
    assert(rs_view(out@) =~= o + rs_head(*r));
}

/// The right-sizing advisor's lines.
pub fn rightsizing_lines(r: &RightSizingReport) -> (out: Vec<(String, RsRole)>)
    requires
        r.over@.len() + r.under@.len() + r.unrequested@.len() <= usize::MAX,
    ensures
        rs_view(out@) == rightsizing_lines_spec(*r),
{
    let mut out: Vec<(String, RsRole)> = Vec::new();
    let footer = "advice only \u{2014} KuberNation can't edit container requests; apply via kubectl/manifest, then observe over time.";
    if !r.metrics_available {
        push_line(
            &mut out,
            "right-sizing needs per-pod metrics (metrics-server). showing only scheduler-blind workloads.",
            RsRole::Warn,
        );
        push_rs_section(
            &mut out,
            "SCHEDULER-BLIND (NO REQUESTS)",
            &r.unrequested,
            RsVerdict::Unrequested,
            RsRole::Crit,
            "every workload declares requests",
        );
        push_line(&mut out, footer, RsRole::Dim);
        assert(rs_view(out@) =~= rightsizing_lines_spec(*r));
        return out;
    }
    push_rs_head(&mut out, r);
    push_rs_section(
        &mut out,
        "OVER-PROVISIONED (WASTE)",
        &r.over,
        RsVerdict::Over,
        RsRole::Warn,
        "every city is well-sized",
    );
    push_rs_section(
        &mut out,
        "UNDER-PROVISIONED (THROTTLE / OOM RISK)",
        &r.under,
        RsVerdict::Under,
        RsRole::Crit,
        "no workload is starved",
    );
    push_rs_section(
        &mut out,
        "SCHEDULER-BLIND (NO REQUESTS)",
        &r.unrequested,
        RsVerdict::Unrequested,
        RsRole::Crit,
        "every workload declares requests",
    );
    push_line(&mut out, footer, RsRole::Dim);
    assert(rs_view(out@) =~= rightsizing_lines_spec(*r));
    out
}

} // verus!
