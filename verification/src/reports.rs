//! The hardening and posture advisors' line builders.

use vstd::prelude::*;
use crate::text::{dec, push_dec, push_str};
use crate::advisor::{
    RsRole, RS_CAP, WorkloadRef, capped, more_line, rs_view, wref_text, push_line, push_owned,
    push_more, push_wref,
};

verus! {

/// How severe a hardening finding is.
#[derive(Debug, Clone, Copy, PartialEq, Eq, Structural)]
pub enum Severity {
    Critical,
    Warning,
    Info,
}

/// One hardening finding on a workload.
#[derive(Debug, Clone)]
pub struct Finding {
    pub detail: String,
    /// The container it was found in, when it is per-container.
    pub container: Option<String>,
    pub severity: Severity,
}

/// A workload's findings.
#[derive(Debug, Clone)]
pub struct WorkloadFindings {
    pub r: WorkloadRef,
    pub findings: Vec<Finding>,
    /// The worst severity among the findings.
    pub worst: Severity,
    /// The standards tag of the worst-severity findings (e.g.
    /// `PSS-baseline`), as the scanner names them.
    pub worst_standards: String,
}

/// The hardening scan of the realm.
#[derive(Debug, Clone)]
pub struct HardeningReport {
    pub critical: Vec<WorkloadFindings>,
    pub warning: Vec<WorkloadFindings>,
    pub info: Vec<WorkloadFindings>,
    pub workloads_clean: usize,
    pub workloads_total: usize,
    /// Workloads whose pod template is not resolved yet.
    pub unresolved: usize,
    /// Findings per standard.
    pub counts_by_standard: Vec<(String, usize)>,
}

/// A finding as shown: its detail, with the container when there is one.
pub open spec fn finding_text(f: Finding) -> Seq<char> {
    match f.container {
        Some(c) => f.detail@ + " ("@ + c@ + ")"@,
        None => f.detail@,
    }
}

/// The findings of severity `worst`, in order.
pub open spec fn worst_findings(fs: Seq<Finding>, worst: Severity) -> Seq<Finding>
    decreases fs.len(),
{
    if fs.len() == 0 {
        Seq::empty()
    } else if fs.last().severity == worst {
        worst_findings(fs.drop_last(), worst).push(fs.last())
    } else {
        worst_findings(fs.drop_last(), worst)
    }
}

/// A workload's worst findings in brief: at most two, then "+N more",
/// joined by "; ", with the standards tag.
pub open spec fn hf_summary_spec(wf: WorkloadFindings) -> Seq<char> {
    let top = worst_findings(wf.findings@, wf.worst);
    let body = if top.len() == 0 {
        Seq::empty()
    } else if top.len() == 1 {
        finding_text(top[0])
    } else if top.len() == 2 {
        finding_text(top[0]) + "; "@ + finding_text(top[1])
    } else {
        finding_text(top[0]) + "; "@ + finding_text(top[1]) + "; +"@ + dec((top.len() - 2) as nat)
            + " more"@
    };
    body + " ["@ + wf.worst_standards@ + "]"@
}

fn push_finding(s: &mut String, f: &Finding)
    ensures
        final(s)@ == old(s)@ + finding_text(*f),
{
    push_str(s, f.detail.as_str());
    match &f.container {
        Some(c) => {
            push_str(s, " (");
            push_str(s, c.as_str());
            push_str(s, ")");
        },
        None => {},
    }
}

/// One workload's worst-severity findings as a compact summary.
pub fn hf_summary(wf: &WorkloadFindings) -> (r: String)
    ensures
        r@ == hf_summary_spec(*wf),
{
    let mut idx: Vec<usize> = Vec::new();
    let mut i: usize = 0;
    while i < wf.findings.len()
        invariant
            i <= wf.findings@.len(),
            forall|k: int| 0 <= k < idx@.len() ==> #[trigger] idx@[k] < i,
            idx@.map_values(|j: usize| wf.findings@[j as int]) == worst_findings(
                wf.findings@.take(i as int),
                wf.worst,
            ),
        decreases wf.findings.len() - i,
    {
        assert(wf.findings@.take(i + 1).drop_last() == wf.findings@.take(i as int));
        assert(wf.findings@.take(i + 1).last() == wf.findings@[i as int]);
        let ghost prev = worst_findings(wf.findings@.take(i as int), wf.worst);
        if wf.findings[i].severity == wf.worst {
            let ghost before = idx@;
            idx.push(i);
            assert(idx@.map_values(|j: usize| wf.findings@[j as int]) == before.map_values(|j: usize| wf.findings@[j as int]).push(wf.findings@[i as int]));
            assert(worst_findings(wf.findings@.take(i + 1), wf.worst) == prev.push(wf.findings@[i as int]));
        } else {
            assert(worst_findings(wf.findings@.take(i + 1), wf.worst) == prev);
        }
        i = i + 1;
    }
    assert(wf.findings@.take(wf.findings@.len() as int) == wf.findings@);
    let ghost top = worst_findings(wf.findings@, wf.worst);
    let n = idx.len();
    assert(idx@.map_values(|j: usize| wf.findings@[j as int]) == top);
    assert(n == top.len());
    if n >= 1 {
        assert(idx@[0] < wf.findings@.len());
        assert(wf.findings@[idx@[0] as int] == top[0]);
    }
    if n >= 2 {
        assert(idx@[1] < wf.findings@.len());
        assert(wf.findings@[idx@[1] as int] == top[1]);
    }
    let mut s = String::new();
    if n >= 1 {
        push_finding(&mut s, &wf.findings[idx[0]]);
    }
    if n >= 2 {
        push_str(&mut s, "; ");
        push_finding(&mut s, &wf.findings[idx[1]]);
    }
    if n >= 3 {
        push_str(&mut s, "; +");
        push_dec(&mut s, (n - 2) as u64);
        push_str(&mut s, " more");
    }
    push_str(&mut s, " [");
    push_str(&mut s, wf.worst_standards.as_str());
    push_str(&mut s, "]");
    assert(s@ =~= hf_summary_spec(*wf));
    s
}

/// The count recorded for a standard (the last entry for it wins), or 0.
pub open spec fn std_count(table: Seq<(String, usize)>, name: Seq<char>) -> nat
    decreases table.len(),
{
    if table.len() == 0 {
        0
    } else if table.last().0@ == name {
        table.last().1 as nat
    } else {
        std_count(table.drop_last(), name)
    }
}

/// A standard's count is the one the scan recorded for it (the last entry
/// under that name, as when the table is collected into a map), or zero
/// when the scan recorded none.
pub proof fn lemma_std_count_is_the_recorded_count(table: Seq<(String, usize)>, name: Seq<char>)
    ensures
        (forall|k: int| 0 <= k < table.len() ==> (#[trigger] table[k]).0@ != name) ==> std_count(
            table,
            name,
        ) == 0,
        forall|k: int|
            0 <= k < table.len() && (#[trigger] table[k]).0@ == name && (forall|j: int|
                k < j < table.len() ==> table[j].0@ != name) ==> std_count(table, name)
                == table[k].1 as nat,
    decreases table.len(),
{
    if table.len() > 0 {
        let init = table.drop_last();
        lemma_std_count_is_the_recorded_count(init, name);
        assert forall|k: int| 0 <= k < init.len() implies init[k] == #[trigger] table[k] by {}
    }
}

fn lookup_count(table: &Vec<(String, usize)>, name: &str) -> (r: usize)
    ensures
        r == std_count(table@, name@),
{
    let key = String::from_str(name);
    let mut i: usize = table.len();
    assert(table@.take(table@.len() as int) == table@);
    while i > 0
        invariant
            i <= table@.len(),
            key@ == name@,
            std_count(table@, name@) == std_count(table@.take(i as int), name@),
        decreases i,
    {
        assert(table@.take(i as int).drop_last() == table@.take(i - 1));
        if table[i - 1].0 == key {
            return table[i - 1].1;
        }
        i = i - 1;
    }
    0
}

/// A workload's line in a hardening section.
pub open spec fn hard_row_line(wf: WorkloadFindings, role: RsRole) -> (Seq<char>, RsRole) {
    (wref_text(wf.r) + " \u{2014} "@ + hf_summary_spec(wf), role)
}

/// A hardening section: nothing when empty; else its heading, the first
/// rows and an overflow count.
pub open spec fn hard_section(heading: Seq<char>, rows: Seq<WorkloadFindings>, role: RsRole) -> Seq<(Seq<char>, RsRole)> {
    if rows.len() == 0 {
        Seq::empty()
    } else {
        let shown = seq![(heading, RsRole::Heading)] + rows.take(capped(rows.len())).map_values(
            |wf: WorkloadFindings| hard_row_line(wf, role),
        );
        if rows.len() > RS_CAP {
            shown.push(more_line((rows.len() - RS_CAP) as nat))
        } else {
            shown
        }
    }
}

/// The hardening headline block: the axes kept separate, the curation
/// caveat, the per-standard counts and the unresolved count.
pub open spec fn hard_head(r: HardeningReport) -> Seq<(Seq<char>, RsRole)> {
    let t = r.counts_by_standard@;
    seq![
        (
            "DEFENSE \u{2014} "@ + dec(r.critical@.len()) + " critical \u{b7} "@ + dec(r.warning@.len())
                + " warning \u{b7} "@ + dec(r.info@.len()) + " info \u{b7} "@ + dec(
                r.workloads_clean as nat,
            ) + " clean of "@ + dec(r.workloads_total as nat) + " workloads"@,
            RsRole::Headline,
        ),
        (
            "curated subset: PSS-baseline + PSS-restricted + OWASP-K01 + Popeye \u{2014} not full PSS compliance"@,
            RsRole::Dim,
        ),
        (
            "findings: PSS-baseline "@ + dec(std_count(t, "PSS-baseline"@)) + " \u{b7} PSS-restricted "@
                + dec(std_count(t, "PSS-restricted"@)) + " \u{b7} OWASP-K01 "@ + dec(
                std_count(t, "OWASP-K01"@),
            ) + " \u{b7} Popeye "@ + dec(std_count(t, "Popeye"@)),
            RsRole::Dim,
        ),
    ] + if r.unresolved > 0 {
        seq![(dec(r.unresolved as nat) + " workload(s) not yet resolved"@, RsRole::Dim)]
    } else {
        Seq::empty()
    }
}

/// Whether the scan found nothing at any severity.
pub open spec fn nothing_found(r: HardeningReport) -> bool {
    r.critical@.len() == 0 && r.warning@.len() == 0 && r.info@.len() == 0
}

/// The verdict line: green only when something was actually scanned clean.
pub open spec fn hard_verdict(r: HardeningReport) -> Seq<(Seq<char>, RsRole)> {
    if r.workloads_total == 0 {
        seq![("no workloads to scan"@, RsRole::Dim)]
    } else if nothing_found(r) && r.unresolved == 0 && r.workloads_clean > 0 {
        seq![("every workload is fortified against the checked controls"@, RsRole::Good)]
    } else if nothing_found(r) && r.unresolved > 0 {
        seq![("scan pending \u{2014} templates not yet resolved"@, RsRole::Dim)]
    } else {
        Seq::empty()
    }
}

/// The closing caveat of the hardening tab.
pub open spec fn hard_footer() -> (Seq<char>, RsRole) {
    (
        "read-only \u{2014} fix in the manifest/Helm chart and redeploy. Bare pods & Jobs not scanned; seccomp & default-SA deferred (often set at the namespace default)."@,
        RsRole::Dim,
    )
}

/// The hardening advisor's lines.
pub open spec fn hardening_lines_spec(r: HardeningReport) -> Seq<(Seq<char>, RsRole)> {
    hard_head(r) + hard_verdict(r) + hard_section(
        "CRITICAL (escalation / breakout)"@,
        r.critical@,
        RsRole::Crit,
    ) + hard_section("WARNING (PSS-restricted gaps)"@, r.warning@, RsRole::Warn) + hard_section(
        "INFO (hygiene)"@,
        r.info@,
        RsRole::Dim,
    ) + seq![hard_footer()]
}

/// The hardening view opens with the tally: each severity's figure is the
/// number of workloads in its own section list (critical, warning, info),
/// then the clean and total workload counts; after the curation caveat,
/// each standard's findings count is shown under that standard's own name.
pub proof fn lemma_headline_counts_each_section(r: HardeningReport)
    ensures
        hardening_lines_spec(r)[1].1 == RsRole::Dim,
        hardening_lines_spec(r)[2] == (
            "findings: PSS-baseline "@ + dec(std_count(r.counts_by_standard@, "PSS-baseline"@))
                + " \u{b7} PSS-restricted "@ + dec(std_count(r.counts_by_standard@, "PSS-restricted"@))
                + " \u{b7} OWASP-K01 "@ + dec(std_count(r.counts_by_standard@, "OWASP-K01"@))
                + " \u{b7} Popeye "@ + dec(std_count(r.counts_by_standard@, "Popeye"@)),
            RsRole::Dim,
        ),
        hardening_lines_spec(r)[0] == (
            "DEFENSE \u{2014} "@ + dec(r.critical@.len()) + " critical \u{b7} "@ + dec(
                r.warning@.len(),
            ) + " warning \u{b7} "@ + dec(r.info@.len()) + " info \u{b7} "@ + dec(
                r.workloads_clean as nat,
            ) + " clean of "@ + dec(r.workloads_total as nat) + " workloads"@,
            RsRole::Headline,
        ),
{
    let h = hard_head(r);
    assert(h.len() >= 3);
    let ls = hardening_lines_spec(r);
    assert(ls[0] == h[0] && ls[1] == h[1] && ls[2] == h[2]);
}

fn push_hard_head(out: &mut Vec<(String, RsRole)>, r: &HardeningReport)
    ensures
        rs_view(final(out)@) == rs_view(old(out)@) + hard_head(*r),
{
    let ghost o = rs_view(out@);
    let mut s = String::new();
    push_str(&mut s, "DEFENSE \u{2014} ");
    push_dec(&mut s, r.critical.len() as u64);
    push_str(&mut s, " critical \u{b7} ");
    push_dec(&mut s, r.warning.len() as u64);
    push_str(&mut s, " warning \u{b7} ");
    push_dec(&mut s, r.info.len() as u64);
    push_str(&mut s, " info \u{b7} ");
    push_dec(&mut s, r.workloads_clean as u64);
    push_str(&mut s, " clean of ");
    push_dec(&mut s, r.workloads_total as u64);
    push_str(&mut s, " workloads");
    push_owned(out, s, RsRole::Headline);
    push_line(
        out,
        "curated subset: PSS-baseline + PSS-restricted + OWASP-K01 + Popeye \u{2014} not full PSS compliance",
        RsRole::Dim,
    );
    let mut s2 = String::new();
    push_str(&mut s2, "findings: PSS-baseline ");
    push_dec(&mut s2, lookup_count(&r.counts_by_standard, "PSS-baseline") as u64);
    push_str(&mut s2, " \u{b7} PSS-restricted ");
    push_dec(&mut s2, lookup_count(&r.counts_by_standard, "PSS-restricted") as u64);
    push_str(&mut s2, " \u{b7} OWASP-K01 ");
    push_dec(&mut s2, lookup_count(&r.counts_by_standard, "OWASP-K01") as u64);
    push_str(&mut s2, " \u{b7} Popeye ");
    push_dec(&mut s2, lookup_count(&r.counts_by_standard, "Popeye") as u64);
    push_owned(out, s2, RsRole::Dim);
    if r.unresolved > 0 {
        let mut s3 = String::new();
        push_dec(&mut s3, r.unresolved as u64);
        push_str(&mut s3, " workload(s) not yet resolved");
        push_owned(out, s3, RsRole::Dim);
    }
    assert(rs_view(out@) =~= o + hard_head(*r));
}

fn push_hard_verdict(out: &mut Vec<(String, RsRole)>, r: &HardeningReport)
    ensures
        rs_view(final(out)@) == rs_view(old(out)@) + hard_verdict(*r),
{
    let ghost o = rs_view(out@);
    let nothing = r.critical.len() == 0 && r.warning.len() == 0 && r.info.len() == 0;
    if r.workloads_total == 0 {
        push_line(out, "no workloads to scan", RsRole::Dim);
    } else if nothing && r.unresolved == 0 && r.workloads_clean > 0 {
        push_line(out, "every workload is fortified against the checked controls", RsRole::Good);
    } else if nothing && r.unresolved > 0 {
        push_line(out, "scan pending \u{2014} templates not yet resolved", RsRole::Dim);
    }
    assert(rs_view(out@) =~= o + hard_verdict(*r));
}

fn push_hard_section(
    out: &mut Vec<(String, RsRole)>,
    heading: &str,
    rows: &Vec<WorkloadFindings>,
    role: RsRole,
)
    ensures
        rs_view(final(out)@) == rs_view(old(out)@) + hard_section(heading@, rows@, role),
{
    let ghost o = rs_view(out@);
    let len = rows.len();
    if len == 0 {
        assert(rs_view(out@) =~= o + hard_section(heading@, rows@, role));
        return;
    }
    push_line(out, heading, RsRole::Heading);
    let ghost h = rs_view(out@);
    let shown = if len > RS_CAP { RS_CAP } else { len };
    let mut i: usize = 0;
    while i < shown
        invariant
            shown <= rows@.len(),
            i <= shown,
            rs_view(out@) == h + rows@.take(i as int).map_values(
                |wf: WorkloadFindings| hard_row_line(wf, role),
            ),
        decreases shown - i,
    {
        let wf = &rows[i];
        let mut line = String::new();
        push_wref(&mut line, &wf.r);
        push_str(&mut line, " \u{2014} ");
        let sum = hf_summary(wf);
        push_str(&mut line, sum.as_str());
        push_owned(out, line, role);
        proof {
            assert(rows@.take(i + 1).map_values(|wf: WorkloadFindings| hard_row_line(wf, role))
                == rows@.take(i as int).map_values(|wf: WorkloadFindings| hard_row_line(wf, role)).push(
                hard_row_line(rows@[i as int], role),
            ));
        }
        i = i + 1;
    }
    if len > RS_CAP {
        push_more(out, len - RS_CAP);
    }
    assert(rs_view(out@) =~= o + hard_section(heading@, rows@, role));
}

/// The hardening advisor's lines: headline axes, caveat, per-standard
/// counts, the verdict (green only when something was scanned clean and
/// nothing is pending), the critical / warning / info sections and the
/// read-only footer.
pub fn hardening_lines(r: &HardeningReport) -> (out: Vec<(String, RsRole)>)
    ensures
        rs_view(out@) == hardening_lines_spec(*r),
{
    let mut out: Vec<(String, RsRole)> = Vec::new();
    push_hard_head(&mut out, r);
    push_hard_verdict(&mut out, r);
    push_hard_section(&mut out, "CRITICAL (escalation / breakout)", &r.critical, RsRole::Crit);
    push_hard_section(&mut out, "WARNING (PSS-restricted gaps)", &r.warning, RsRole::Warn);
    push_hard_section(&mut out, "INFO (hygiene)", &r.info, RsRole::Dim);
    let ghost o = rs_view(out@);
    push_line(
        &mut out,
        "read-only \u{2014} fix in the manifest/Helm chart and redeploy. Bare pods & Jobs not scanned; seccomp & default-SA deferred (often set at the namespace default).",
        RsRole::Dim,
    );
    assert(rs_view(out@) =~= hardening_lines_spec(*r));
    out
}


/// The realm-defense tier a score falls in.
#[derive(Debug, Clone, Copy, PartialEq, Eq, Structural)]
pub enum PostureTier {
    Fortified,
    Defended,
    Exposed,
    Breached,
    Unscanned,
}

/// A tier's name as the headline shows it.
pub open spec fn tier_label(t: PostureTier) -> Seq<char> {
    match t {
        PostureTier::Fortified => "FORTIFIED"@,
        PostureTier::Defended => "DEFENDED"@,
        PostureTier::Exposed => "EXPOSED"@,
        PostureTier::Breached => "BREACHED"@,
        PostureTier::Unscanned => "UNSCANNED"@,
    }
}

/// The line role matching a tier's colour. Defended is neutral (the
/// headline role), not green: adequate is not an all-clear.
pub open spec fn tier_role_spec(t: PostureTier) -> RsRole {
    match t {
        PostureTier::Fortified => RsRole::Good,
        PostureTier::Defended => RsRole::Headline,
        PostureTier::Exposed => RsRole::Warn,
        PostureTier::Breached => RsRole::Crit,
        PostureTier::Unscanned => RsRole::Dim,
    }
}

impl PostureTier {
    /// The tier's name.
    pub fn label(&self) -> (r: &'static str)
        ensures
            r@ == tier_label(*self),
    {
        match self {
            PostureTier::Fortified => "FORTIFIED",
            PostureTier::Defended => "DEFENDED",
            PostureTier::Exposed => "EXPOSED",
            PostureTier::Breached => "BREACHED",
            PostureTier::Unscanned => "UNSCANNED",
        }
    }
}

/// The line role for a tier.
pub fn tier_role(t: PostureTier) -> (r: RsRole)
    ensures
        r == tier_role_spec(t),
{
    match t {
        PostureTier::Fortified => RsRole::Good,
        PostureTier::Defended => RsRole::Headline,
        PostureTier::Exposed => RsRole::Warn,
        PostureTier::Breached => RsRole::Crit,
        PostureTier::Unscanned => RsRole::Dim,
    }
}

/// One axis's sub-score and the tier band it falls in.
#[derive(Debug, Clone, Copy)]
pub struct AxisScore {
    pub score: u32,
    pub band: PostureTier,
}

/// What kind of finding drags the score down.
#[derive(Debug, Clone, Copy, PartialEq, Eq, Structural)]
pub enum FactorKind {
    Critical,
    K07,
    Warning,
    WideOpen,
    Info,
}

/// Which axis a factor belongs to.
#[derive(Debug, Clone, Copy, PartialEq, Eq, Structural)]
pub enum Axis {
    Fortifications,
    Walls,
}

/// One ranked reason the score is not 100.
#[derive(Debug, Clone)]
pub struct Factor {
    pub kind: FactorKind,
    pub axis: Axis,
    pub points: u32,
    pub label: String,
    /// The deduction hit its cap.
    pub capped: bool,
    /// Where to look (the tab pointer is part of it).
    pub detail: String,
}

/// The realm-defense rollup.
#[derive(Debug, Clone)]
pub struct PostureReport {
    /// `None` until something has been scanned.
    pub score: Option<u32>,
    pub tier: PostureTier,
    pub fortifications: AxisScore,
    pub walls: AxisScore,
    pub system_critical: usize,
    pub system_warning: usize,
    pub factors: Vec<Factor>,
}

/// The role of a factor's line.
pub open spec fn factor_role(k: FactorKind) -> RsRole {
    match k {
        FactorKind::Critical | FactorKind::K07 => RsRole::Crit,
        FactorKind::Warning | FactorKind::WideOpen => RsRole::Warn,
        FactorKind::Info => RsRole::Dim,
    }
}

/// A factor's line: `-points  label[ (capped)] — detail`.
pub open spec fn factor_line(f: Factor) -> (Seq<char>, RsRole) {
    (
        "-"@ + dec(f.points as nat) + "  "@ + f.label@ + (if f.capped {
            " (capped)"@
        } else {
            Seq::empty()
        }) + " \u{2014} "@ + f.detail@,
        factor_role(f.kind),
    )
}

/// The closing caveat of the posture tab.
pub open spec fn posture_footer() -> (Seq<char>, RsRole) {
    (
        "curated subset (PSS-baseline/restricted + OWASP-K01/K07 + Popeye) \u{2014} a defense indicator, not CIS/full-PSS compliance. coverage = a policy exists; CNI enforcement not verified."@,
        RsRole::Dim,
    )
}

/// The Posture tab: unscanned says so (in Dim, never green); otherwise the
/// headline tinted by its tier, each axis tinted by its own band, the
/// excluded system findings, the ranked factors (or a well-held note) and
/// the footer.
pub open spec fn posture_lines_spec(r: PostureReport) -> Seq<(Seq<char>, RsRole)> {
    match r.score {
        None => seq![
            ("DEFENSE \u{2014} not yet scanned (fog of war)"@, RsRole::Dim),
            ("no workloads observed yet \u{2014} explore the realm first"@, RsRole::Dim),
        ],
        Some(sc) => seq![
            (
                "DEFENSE  "@ + dec(sc as nat) + " / 100 \u{2014} "@ + tier_label(r.tier),
                tier_role_spec(r.tier),
            ),
            (
                "fortifications  "@ + dec(r.fortifications.score as nat) + " / 100"@,
                tier_role_spec(r.fortifications.band),
            ),
            (
                "walls (segmentation)  "@ + dec(r.walls.score as nat) + " / 100"@,
                tier_role_spec(r.walls.band),
            ),
        ] + (if r.system_critical > 0 || r.system_warning > 0 {
            seq![
                (
                    "system namespaces: "@ + dec(r.system_critical as nat) + " critical, "@ + dec(
                        r.system_warning as nat,
                    ) + " warning \u{2014} distro defaults, not yours to fix, excluded"@,
                    RsRole::Dim,
                ),
            ]
        } else {
            Seq::empty()
        }) + (if r.factors@.len() == 0 {
            seq![("nothing dragging the realm down \u{2014} well held"@, RsRole::Good)]
        } else {
            seq![("WHY"@, RsRole::Heading)] + r.factors@.map_values(|f: Factor| factor_line(f))
        }) + seq![posture_footer()],
    }
}

fn push_posture_factors(out: &mut Vec<(String, RsRole)>, r: &PostureReport)
    ensures
        rs_view(final(out)@) == rs_view(old(out)@) + (if r.factors@.len() == 0 {
            seq![("nothing dragging the realm down \u{2014} well held"@, RsRole::Good)]
        } else {
            seq![("WHY"@, RsRole::Heading)] + r.factors@.map_values(|f: Factor| factor_line(f))
        }),
{
    let ghost o = rs_view(out@);
    if r.factors.len() == 0 {
        push_line(out, "nothing dragging the realm down \u{2014} well held", RsRole::Good);
        return;
    }
    push_line(out, "WHY", RsRole::Heading);
    let ghost h = rs_view(out@);
    let mut i: usize = 0;
    while i < r.factors.len()
        invariant
            i <= r.factors@.len(),
            rs_view(out@) == h + r.factors@.take(i as int).map_values(|f: Factor| factor_line(f)),
        decreases r.factors.len() - i,
    {
        let f = &r.factors[i];
        let role = match f.kind {
            FactorKind::Critical | FactorKind::K07 => RsRole::Crit,
            FactorKind::Warning | FactorKind::WideOpen => RsRole::Warn,
            FactorKind::Info => RsRole::Dim,
        };
        let mut line = String::new();
        push_str(&mut line, "-");
        push_dec(&mut line, f.points as u64);
        push_str(&mut line, "  ");
        push_str(&mut line, f.label.as_str());
        if f.capped {
            push_str(&mut line, " (capped)");
        }
        push_str(&mut line, " \u{2014} ");
        push_str(&mut line, f.detail.as_str());
        assert(line@ == factor_line(*f).0);
        push_owned(out, line, role);
        proof {
            assert(r.factors@.take(i + 1).map_values(|f: Factor| factor_line(f)) == r.factors@.take(
                i as int,
            ).map_values(|f: Factor| factor_line(f)).push(factor_line(r.factors@[i as int])));
        }
        i = i + 1;
    }
    assert(r.factors@.take(r.factors@.len() as int) == r.factors@);
    assert(rs_view(out@) =~= o + seq![("WHY"@, RsRole::Heading)] + r.factors@.map_values(|f: Factor| factor_line(f)));
}

/// The Posture tab lines.
pub fn posture_lines(r: &PostureReport) -> (out: Vec<(String, RsRole)>)
    ensures
        rs_view(out@) == posture_lines_spec(*r),
{
    let mut out: Vec<(String, RsRole)> = Vec::new();
    let sc = match r.score {
        None => {
            push_line(&mut out, "DEFENSE \u{2014} not yet scanned (fog of war)", RsRole::Dim);
            push_line(&mut out, "no workloads observed yet \u{2014} explore the realm first", RsRole::Dim);
            assert(rs_view(out@) =~= posture_lines_spec(*r));
            return out;
        },
        Some(sc) => sc,
    };
    let mut s1 = String::new();
    push_str(&mut s1, "DEFENSE  ");
    push_dec(&mut s1, sc as u64);
    push_str(&mut s1, " / 100 \u{2014} ");
    push_str(&mut s1, r.tier.label());
    push_owned(&mut out, s1, tier_role(r.tier));
    let mut s2 = String::new();
    push_str(&mut s2, "fortifications  ");
    push_dec(&mut s2, r.fortifications.score as u64);
    push_str(&mut s2, " / 100");
    push_owned(&mut out, s2, tier_role(r.fortifications.band));
    let mut s3 = String::new();
    push_str(&mut s3, "walls (segmentation)  ");
    push_dec(&mut s3, r.walls.score as u64);
    push_str(&mut s3, " / 100");
    push_owned(&mut out, s3, tier_role(r.walls.band));
    if r.system_critical > 0 || r.system_warning > 0 {
        let mut s4 = String::new();
        push_str(&mut s4, "system namespaces: ");
        push_dec(&mut s4, r.system_critical as u64);
        push_str(&mut s4, " critical, ");
        push_dec(&mut s4, r.system_warning as u64);
        push_str(&mut s4, " warning \u{2014} distro defaults, not yours to fix, excluded");
        push_owned(&mut out, s4, RsRole::Dim);
    }
    push_posture_factors(&mut out, r);
    push_line(
        &mut out,
        "curated subset (PSS-baseline/restricted + OWASP-K01/K07 + Popeye) \u{2014} a defense indicator, not CIS/full-PSS compliance. coverage = a policy exists; CNI enforcement not verified.",
        RsRole::Dim,
    );
    assert(rs_view(out@) =~= posture_lines_spec(*r));
    out
}

/// An unscanned realm is never shown green: every line is Dim.
pub proof fn lemma_unscanned_posture_is_not_green(r: PostureReport)
    requires
        r.score is None,
    ensures
        forall|i: int|
            0 <= i < posture_lines_spec(r).len() ==> (#[trigger] posture_lines_spec(r)[i]).1
                == RsRole::Dim,
{
}

/// A scanned realm's headline is tinted by its own tier.
pub proof fn lemma_posture_headline_follows_tier(r: PostureReport)
    requires
        r.score is Some,
    ensures
        posture_lines_spec(r)[0].1 == tier_role_spec(r.tier),
{
}


/// No line of `v` has role `role`.
pub open spec fn lacks_role(v: Seq<(Seq<char>, RsRole)>, role: RsRole) -> bool {
    forall|i: int| 0 <= i < v.len() ==> (#[trigger] v[i]).1 != role
}

proof fn lemma_lacks_concat(a: Seq<(Seq<char>, RsRole)>, b: Seq<(Seq<char>, RsRole)>, role: RsRole)
    requires
        lacks_role(a, role),
        lacks_role(b, role),
    ensures
        lacks_role(a + b, role),
{
    assert forall|i: int| 0 <= i < (a + b).len() implies (#[trigger] (a + b)[i]).1 != role by {
        if i < a.len() {
            assert((a + b)[i] == a[i]);
        } else {
            assert((a + b)[i] == b[i - a.len()]);
        }
    }
}

proof fn lemma_section_not_green(heading: Seq<char>, rows: Seq<WorkloadFindings>, role: RsRole)
    requires
        role != RsRole::Good,
    ensures
        lacks_role(hard_section(heading, rows, role), RsRole::Good),
{
    if rows.len() > 0 {
        let body = rows.take(capped(rows.len())).map_values(
            |wf: WorkloadFindings| hard_row_line(wf, role),
        );
        assert(lacks_role(body, RsRole::Good));
        lemma_lacks_concat(seq![(heading, RsRole::Heading)], body, RsRole::Good);
    }
}

/// The hardening tab is green in exactly one place, the verdict, and only
/// when something was scanned clean, nothing was found and nothing is
/// pending: an empty or unresolved cluster never reads as fortified.
pub proof fn lemma_hardening_green_only_when_scanned_clean(r: HardeningReport)
    ensures
        (exists|i: int|
            0 <= i < hardening_lines_spec(r).len() && (#[trigger] hardening_lines_spec(r)[i]).1
                == RsRole::Good) <==> (r.workloads_total > 0 && nothing_found(r) && r.unresolved
            == 0 && r.workloads_clean > 0),
{
    let head = hard_head(r);
    let verdict = hard_verdict(r);
    let c = hard_section("CRITICAL (escalation / breakout)"@, r.critical@, RsRole::Crit);
    let w = hard_section("WARNING (PSS-restricted gaps)"@, r.warning@, RsRole::Warn);
    let inf = hard_section("INFO (hygiene)"@, r.info@, RsRole::Dim);
    let foot = seq![hard_footer()];
    assert(lacks_role(head, RsRole::Good));
    lemma_section_not_green("CRITICAL (escalation / breakout)"@, r.critical@, RsRole::Crit);
    lemma_section_not_green("WARNING (PSS-restricted gaps)"@, r.warning@, RsRole::Warn);
    lemma_section_not_green("INFO (hygiene)"@, r.info@, RsRole::Dim);
    lemma_lacks_concat(c, w, RsRole::Good);
    lemma_lacks_concat(c + w, inf, RsRole::Good);
    lemma_lacks_concat(c + w + inf, foot, RsRole::Good);
    let tail = c + w + inf + foot;
    let all = hardening_lines_spec(r);
    assert(all =~= head + verdict + tail);
    if r.workloads_total > 0 && nothing_found(r) && r.unresolved == 0 && r.workloads_clean > 0 {
        assert(all[head.len() as int] == verdict[0]);
    } else {
        assert(lacks_role(verdict, RsRole::Good));
        lemma_lacks_concat(head, verdict, RsRole::Good);
        lemma_lacks_concat(head + verdict, tail, RsRole::Good);
        assert(head + verdict + tail == all);
    }
}

/// The findings a summary draws from are exactly the workload's findings
/// of its worst severity, in their order.
pub proof fn lemma_worst_findings_are_the_worst(fs: Seq<Finding>, worst: Severity)
    ensures
        worst_findings(fs, worst) == fs.filter(|f: Finding| f.severity == worst),
    decreases fs.len(),
{
    reveal(Seq::filter);
    if fs.len() > 0 {
        lemma_worst_findings_are_the_worst(fs.drop_last(), worst);
    }
}

/// A workload's summary names at most its first two worst-severity
/// findings and, when there are more, how many were left out; it always
/// ends with the standards tag in brackets.
pub proof fn lemma_summary_shows_two_and_counts_the_rest(wf: WorkloadFindings)
    ensures
        ({
            let top = wf.findings@.filter(|f: Finding| f.severity == wf.worst);
            let s = hf_summary_spec(wf);
            &&& top.len() >= 1 ==> s.take(finding_text(top[0]).len() as int) == finding_text(top[0])
            &&& top.len() >= 3 ==> s == finding_text(top[0]) + "; "@ + finding_text(top[1]) + "; +"@
                + dec((top.len() - 2) as nat) + " more"@ + " ["@ + wf.worst_standards@ + "]"@
            &&& top.len() == 0 ==> s == " ["@ + wf.worst_standards@ + "]"@
            &&& s.subrange(
                s.len() - (" ["@ + wf.worst_standards@ + "]"@).len(),
                s.len() as int,
            ) == " ["@ + wf.worst_standards@ + "]"@
        }),
{
    lemma_worst_findings_are_the_worst(wf.findings@, wf.worst);
    let top = worst_findings(wf.findings@, wf.worst);
    let tag = " ["@ + wf.worst_standards@ + "]"@;
    let s = hf_summary_spec(wf);
    let body = if top.len() == 0 {
        Seq::empty()
    } else if top.len() == 1 {
        finding_text(top[0])
    } else if top.len() == 2 {
        finding_text(top[0]) + "; "@ + finding_text(top[1])
    } else {
        finding_text(top[0]) + "; "@ + finding_text(top[1]) + "; +"@ + dec((top.len() - 2) as nat)
            + " more"@
    };
    assert(s =~= body + tag);
    assert(s.subrange(s.len() - tag.len(), s.len() as int) =~= tag);
    if top.len() >= 1 {
        assert(s.take(finding_text(top[0]).len() as int) =~= finding_text(top[0]));
    }
}

/// A scanned realm's posture reads its own numbers: the score and tier in
/// the headline, each axis's score tinted by its own band; the WHY list,
/// when anything drags the realm down, has one line per factor in order,
/// each tinted by its kind (critical and K07 red, warning and wide-open
/// yellow, info dim); and the footer closes it.
pub proof fn lemma_posture_reads_its_own_numbers(r: PostureReport)
    requires
        r.score is Some,
    ensures
        posture_lines_spec(r)[0].0 == "DEFENSE  "@ + dec(r.score->0 as nat) + " / 100 \u{2014} "@
            + tier_label(r.tier),
        posture_lines_spec(r)[1] == (
            "fortifications  "@ + dec(r.fortifications.score as nat) + " / 100"@,
            tier_role_spec(r.fortifications.band),
        ),
        posture_lines_spec(r)[2] == (
            "walls (segmentation)  "@ + dec(r.walls.score as nat) + " / 100"@,
            tier_role_spec(r.walls.band),
        ),
        posture_lines_spec(r).last() == posture_footer(),
        r.factors@.len() > 0 ==> ({
            let ls = posture_lines_spec(r);
            let n = r.factors@.len();
            &&& ls[ls.len() - n - 2] == ("WHY"@, RsRole::Heading)
            &&& forall|i: int|
                0 <= i < n ==> {
                    let f = #[trigger] r.factors@[i];
                    let l = ls[ls.len() - n - 1 + i];
                    &&& l.1 == (if f.kind is Critical || f.kind is K07 {
                        RsRole::Crit
                    } else if f.kind is Warning || f.kind is WideOpen {
                        RsRole::Warn
                    } else {
                        RsRole::Dim
                    })
                    &&& l.0.take(1) == "-"@
                }
        }),
{
    let ls = posture_lines_spec(r);
    let head = seq![
        (
            "DEFENSE  "@ + dec(r.score->0 as nat) + " / 100 \u{2014} "@ + tier_label(r.tier),
            tier_role_spec(r.tier),
        ),
        (
            "fortifications  "@ + dec(r.fortifications.score as nat) + " / 100"@,
            tier_role_spec(r.fortifications.band),
        ),
        (
            "walls (segmentation)  "@ + dec(r.walls.score as nat) + " / 100"@,
            tier_role_spec(r.walls.band),
        ),
    ];
    let sys = if r.system_critical > 0 || r.system_warning > 0 {
        seq![
            (
                "system namespaces: "@ + dec(r.system_critical as nat) + " critical, "@ + dec(
                    r.system_warning as nat,
                ) + " warning \u{2014} distro defaults, not yours to fix, excluded"@,
                RsRole::Dim,
            ),
        ]
    } else {
        Seq::empty()
    };
    let fl = r.factors@.map_values(|f: Factor| factor_line(f));
    let why = if r.factors@.len() == 0 {
        seq![("nothing dragging the realm down \u{2014} well held"@, RsRole::Good)]
    } else {
        seq![("WHY"@, RsRole::Heading)] + fl
    };
    assert(ls =~= head + sys + why + seq![posture_footer()]);
    assert(ls[0] == head[0] && ls[1] == head[1] && ls[2] == head[2]);
    if r.factors@.len() > 0 {
        let n = r.factors@.len();
        let pre = head + sys;
        assert(ls.len() == pre.len() + 1 + n + 1);
        assert(ls[pre.len() as int] == ("WHY"@, RsRole::Heading));
        reveal_strlit("-");
        assert forall|i: int| 0 <= i < n implies {
            let f = #[trigger] r.factors@[i];
            let l = ls[ls.len() - n - 1 + i];
            &&& l.1 == (if f.kind is Critical || f.kind is K07 {
                RsRole::Crit
            } else if f.kind is Warning || f.kind is WideOpen {
                RsRole::Warn
            } else {
                RsRole::Dim
            })
            &&& l.0.take(1) == "-"@
        } by {
            let f = r.factors@[i];
            assert(ls[pre.len() + 1 + i] == fl[i]);
            assert(fl[i] == factor_line(f));
            let t = "-"@ + dec(f.points as nat) + "  "@ + f.label@ + (if f.capped {
                " (capped)"@
            } else {
                Seq::empty()
            }) + " \u{2014} "@ + f.detail@;
            assert(t.take(1) =~= "-"@);
        }
    }
}

proof fn lemma_section_row(heading: Seq<char>, rows: Seq<WorkloadFindings>, role: RsRole, i: int)
    requires
        0 <= i < rows.len(),
        i < RS_CAP,
    ensures
        hard_section(heading, rows, role).len() > i + 1,
        hard_section(heading, rows, role)[i + 1] == (
            wref_text(rows[i].r) + " \u{2014} "@ + hf_summary_spec(rows[i]),
            role,
        ),
        hard_section(heading, rows, role)[0] == (heading, RsRole::Heading),
{
    let body = rows.take(capped(rows.len())).map_values(
        |wf: WorkloadFindings| hard_row_line(wf, role),
    );
    let shown = seq![(heading, RsRole::Heading)] + body;
    assert(shown[i + 1] == body[i]);
    if rows.len() > RS_CAP {
        assert(shown.push(more_line((rows.len() - RS_CAP) as nat))[i + 1] == shown[i + 1]);
    }
}

proof fn lemma_critical_rows_shown(r: HardeningReport)
    ensures
        forall|i: int|
            0 <= i < r.critical@.len() && i < RS_CAP ==> hardening_lines_spec(r)[(hard_head(r) + hard_verdict(r)).len() + 1 + i] == (
                wref_text((#[trigger] r.critical@[i]).r) + " \u{2014} "@ + hf_summary_spec(r.critical@[i]),
                RsRole::Crit,
            ),
{
    let a = hard_head(r) + hard_verdict(r);
    let c = hard_section("CRITICAL (escalation / breakout)"@, r.critical@, RsRole::Crit);
    let w = hard_section("WARNING (PSS-restricted gaps)"@, r.warning@, RsRole::Warn);
    let f = hard_section("INFO (hygiene)"@, r.info@, RsRole::Dim);
    let ls = hardening_lines_spec(r);
    assert(ls =~= a + c + w + f + seq![hard_footer()]);
    assert forall|i: int| 0 <= i < r.critical@.len() && i < RS_CAP implies ls[(hard_head(r) + hard_verdict(r)).len() + 1 + i] == (
        wref_text((#[trigger] r.critical@[i]).r) + " \u{2014} "@ + hf_summary_spec(r.critical@[i]),
        RsRole::Crit,
    ) by {
        lemma_section_row("CRITICAL (escalation / breakout)"@, r.critical@, RsRole::Crit, i);
    }
}

proof fn lemma_warning_rows_shown(r: HardeningReport)
    ensures
        forall|i: int|
            0 <= i < r.warning@.len() && i < RS_CAP ==> hardening_lines_spec(r)[(hard_head(r) + hard_verdict(r)).len() + hard_section("CRITICAL (escalation / breakout)"@, r.critical@, RsRole::Crit).len() + 1 + i] == (
                wref_text((#[trigger] r.warning@[i]).r) + " \u{2014} "@ + hf_summary_spec(r.warning@[i]),
                RsRole::Warn,
            ),
{
    let a = hard_head(r) + hard_verdict(r);
    let c = hard_section("CRITICAL (escalation / breakout)"@, r.critical@, RsRole::Crit);
    let w = hard_section("WARNING (PSS-restricted gaps)"@, r.warning@, RsRole::Warn);
    let f = hard_section("INFO (hygiene)"@, r.info@, RsRole::Dim);
    let ls = hardening_lines_spec(r);
    assert(ls =~= a + c + w + f + seq![hard_footer()]);
    assert forall|i: int| 0 <= i < r.warning@.len() && i < RS_CAP implies ls[(hard_head(r) + hard_verdict(r)).len() + hard_section("CRITICAL (escalation / breakout)"@, r.critical@, RsRole::Crit).len() + 1 + i] == (
        wref_text((#[trigger] r.warning@[i]).r) + " \u{2014} "@ + hf_summary_spec(r.warning@[i]),
        RsRole::Warn,
    ) by {
        lemma_section_row("WARNING (PSS-restricted gaps)"@, r.warning@, RsRole::Warn, i);
    }
}

proof fn lemma_info_rows_shown(r: HardeningReport)
    ensures
        forall|i: int|
            0 <= i < r.info@.len() && i < RS_CAP ==> hardening_lines_spec(r)[(hard_head(r) + hard_verdict(r)).len() + hard_section("CRITICAL (escalation / breakout)"@, r.critical@, RsRole::Crit).len() + hard_section("WARNING (PSS-restricted gaps)"@, r.warning@, RsRole::Warn).len() + 1 + i] == (
                wref_text((#[trigger] r.info@[i]).r) + " \u{2014} "@ + hf_summary_spec(r.info@[i]),
                RsRole::Dim,
            ),
{
    let a = hard_head(r) + hard_verdict(r);
    let c = hard_section("CRITICAL (escalation / breakout)"@, r.critical@, RsRole::Crit);
    let w = hard_section("WARNING (PSS-restricted gaps)"@, r.warning@, RsRole::Warn);
    let f = hard_section("INFO (hygiene)"@, r.info@, RsRole::Dim);
    let ls = hardening_lines_spec(r);
    assert(ls =~= a + c + w + f + seq![hard_footer()]);
    assert forall|i: int| 0 <= i < r.info@.len() && i < RS_CAP implies ls[(hard_head(r) + hard_verdict(r)).len() + hard_section("CRITICAL (escalation / breakout)"@, r.critical@, RsRole::Crit).len() + hard_section("WARNING (PSS-restricted gaps)"@, r.warning@, RsRole::Warn).len() + 1 + i] == (
        wref_text((#[trigger] r.info@[i]).r) + " \u{2014} "@ + hf_summary_spec(r.info@[i]),
        RsRole::Dim,
    ) by {
        lemma_section_row("INFO (hygiene)"@, r.info@, RsRole::Dim, i);
    }
}

/// Each shown workload keeps its severity: the first rows of the
/// critical, warning and info lists appear, in order, right after their
/// section's heading, as name and summary in red, yellow and dim
/// respectively; the sections follow the headline and verdict in that
/// order.
pub proof fn lemma_sections_keep_their_severity(r: HardeningReport)
    ensures
        forall|i: int|
            0 <= i < r.critical@.len() && i < RS_CAP ==> hardening_lines_spec(r)[(hard_head(r) + hard_verdict(r)).len() + 1 + i] == (
                wref_text((#[trigger] r.critical@[i]).r) + " \u{2014} "@ + hf_summary_spec(r.critical@[i]),
                RsRole::Crit,
            ),
        forall|i: int|
            0 <= i < r.warning@.len() && i < RS_CAP ==> hardening_lines_spec(r)[(hard_head(r) + hard_verdict(r)).len() + hard_section("CRITICAL (escalation / breakout)"@, r.critical@, RsRole::Crit).len() + 1 + i] == (
                wref_text((#[trigger] r.warning@[i]).r) + " \u{2014} "@ + hf_summary_spec(r.warning@[i]),
                RsRole::Warn,
            ),
        forall|i: int|
            0 <= i < r.info@.len() && i < RS_CAP ==> hardening_lines_spec(r)[(hard_head(r) + hard_verdict(r)).len() + hard_section("CRITICAL (escalation / breakout)"@, r.critical@, RsRole::Crit).len() + hard_section("WARNING (PSS-restricted gaps)"@, r.warning@, RsRole::Warn).len() + 1 + i] == (
                wref_text((#[trigger] r.info@[i]).r) + " \u{2014} "@ + hf_summary_spec(r.info@[i]),
                RsRole::Dim,
            ),
{
    lemma_critical_rows_shown(r);
    lemma_warning_rows_shown(r);
    lemma_info_rows_shown(r);
}

} // verus!
