//! What the hover tooltip and the selection panel say about a map cell:
//! the lines describing a coast marker, a city, a province (node), a
//! structure, an island or open sea, tagged with the world they belong to
//! in a paired session. The world model resolves the cell to a
//! [`RegionInfo`]; this module decides the lines.

use vstd::prelude::*;
use crate::text::{dec, int_dec, push_dec, push_int, push_str};
use crate::screens::ClusterId;
use crate::reports::Severity;

verus! {

/// The ink a tooltip line is drawn in, on the stone panel.
#[derive(Debug, Clone, Copy, PartialEq, Eq, Structural)]
pub enum Tone {
    Ink,
    InkDim,
    Struct,
    Warn,
    Crit,
    /// The hot world's tag colour.
    Hot,
    /// The warm world's tag colour.
    Warm,
}

/// A coast marker: a city's harbor (Service) or gate (Ingress).
#[derive(Debug, Clone, Copy, PartialEq, Eq, Structural)]
pub enum CoastKind {
    Harbor,
    Gate,
}

/// A node's health as its province shows it.
#[derive(Debug, Clone, Copy, PartialEq, Eq, Structural)]
pub enum NodeHealth {
    Healthy,
    Cordoned,
    Pressure,
    NotReady,
}

/// A city (workload) under the cursor.
#[derive(Debug, Clone)]
pub struct CityInfo {
    pub name: String,
    pub kind: String,
    pub namespace: String,
    pub ready: i32,
    pub desired: i32,
    /// The attention severity, when the workload needs attention.
    pub severity: Option<Severity>,
    /// `(claims, pending)` when the workload has storage.
    pub storage: Option<(usize, usize)>,
    /// The pair-sync description and its ink, in a paired session.
    pub pair: Option<(String, Tone)>,
}

/// What is at a map cell.
#[derive(Debug, Clone)]
pub enum RegionInfo {
    Coast { coast: CoastKind, name: String, detail: String, workload: String },
    City(CityInfo),
    Province { name: String, health: NodeHealth, pods: usize },
    Structure { kind: String, name: String, encampment: bool },
    Island { label: String },
    Ocean,
}

/// The ink of a severity on stone.
pub open spec fn severity_tone(s: Severity) -> Tone {
    match s {
        Severity::Critical => Tone::Crit,
        Severity::Warning => Tone::Warn,
        Severity::Info => Tone::Ink,
    }
}

/// A node health's word and ink.
pub open spec fn health_word(h: NodeHealth) -> (Seq<char>, Tone) {
    match h {
        NodeHealth::Healthy => ("healthy"@, Tone::InkDim),
        NodeHealth::Cordoned => ("cordoned"@, Tone::Warn),
        NodeHealth::Pressure => ("under pressure"@, Tone::Warn),
        NodeHealth::NotReady => ("NotReady"@, Tone::Crit),
    }
}

/// The lines for a city.
pub open spec fn city_lines(c: CityInfo) -> Seq<(Seq<char>, Tone)> {
    seq![
        (c.name@, Tone::Ink),
        (
            c.kind@ + " "@ + c.namespace@ + " . pop "@ + int_dec(c.ready as int) + "/"@ + int_dec(
                c.desired as int,
            ),
            if c.ready < c.desired {
                Tone::Warn
            } else {
                Tone::InkDim
            },
        ),
    ] + (match c.severity {
        Some(s) => seq![("needs attention"@, severity_tone(s))],
        None => Seq::empty(),
    }) + (match c.storage {
        Some((claims, pending)) => if pending > 0 {
            seq![
                (dec(claims as nat) + " PVCs . "@ + dec(pending as nat) + " pending"@, Tone::Warn),
            ]
        } else {
            seq![(dec(claims as nat) + " PVCs"@, Tone::Struct)]
        },
        None => Seq::empty(),
    }) + match c.pair {
        Some((desc, tone)) => seq![(desc@, tone)],
        None => Seq::empty(),
    }
}

/// The lines for whatever is at the cell (without the world tag); `None`
/// for open sea outside a paired session, where nothing is worth saying.
pub open spec fn region_body(r: RegionInfo, paired: bool) -> Option<Seq<(Seq<char>, Tone)>> {
    match r {
        RegionInfo::Coast { coast, name, detail, workload } => Some(
            seq![
                (
                    match coast {
                        CoastKind::Harbor => "harbor"@,
                        CoastKind::Gate => "gate"@,
                    },
                    Tone::Struct,
                ),
                (
                    match coast {
                        CoastKind::Harbor => "service "@,
                        CoastKind::Gate => "ingress "@,
                    } + name@ + " . "@ + detail@,
                    Tone::Ink,
                ),
                ("-> "@ + workload@, Tone::InkDim),
            ],
        ),
        RegionInfo::City(c) => Some(city_lines(c)),
        RegionInfo::Province { name, health, pods } => Some(
            seq![
                (name@, Tone::Ink),
                (health_word(health).0 + " . "@ + dec(pods as nat) + " pods"@, health_word(health).1),
            ],
        ),
        RegionInfo::Structure { kind, name, encampment } => Some(
            seq![(kind@ + "/"@ + name@, Tone::Ink)] + if encampment {
                seq![("encampment - no pods on any land"@, Tone::Warn)]
            } else {
                Seq::empty()
            },
        ),
        RegionInfo::Island { label } => Some(seq![("isle of "@ + label@, Tone::Ink)]),
        RegionInfo::Ocean => if paired {
            Some(seq![("open sea"@, Tone::InkDim)])
        } else {
            None
        },
    }
}

/// The world tag line of a paired session.
pub open spec fn world_tag(cluster: ClusterId, label: Seq<char>) -> (Seq<char>, Tone) {
    match cluster {
        ClusterId::Hot => ("HOT "@ + label, Tone::Hot),
        ClusterId::Warm => ("WARM "@ + label, Tone::Warm),
    }
}

/// The tooltip's lines: in a paired session the world tag first; then the
/// cell's description. Open sea in a single-cluster session says nothing
/// at all.
pub open spec fn region_lines_spec(
    paired: bool,
    cluster: ClusterId,
    label: Seq<char>,
    r: RegionInfo,
) -> Seq<(Seq<char>, Tone)> {
    match region_body(r, paired) {
        None => Seq::empty(),
        Some(body) => if paired {
            seq![world_tag(cluster, label)] + body
        } else {
            body
        },
    }
}

/// The view of a list of tooltip lines.
pub open spec fn tone_view(v: Seq<(String, Tone)>) -> Seq<(Seq<char>, Tone)> {
    v.map_values(|t: (String, Tone)| (t.0@, t.1))
}

fn push_tone(out: &mut Vec<(String, Tone)>, s: String, t: Tone)
    ensures
        tone_view(final(out)@) == tone_view(old(out)@).push((s@, t)),
{
    let ghost o = out@;
    out.push((s, t));
    assert(tone_view(out@) =~= tone_view(o).push((s@, t)));
}

fn lit(s: &str) -> (r: String)
    ensures
        r@ == s@,
{
    String::from_str(s)
}

fn push_city(out: &mut Vec<(String, Tone)>, c: &CityInfo)
    ensures
        tone_view(final(out)@) == tone_view(old(out)@) + city_lines(*c),
{
    let ghost o = tone_view(out@);
    push_tone(out, c.name.clone(), Tone::Ink);
    let mut s = String::new();
    push_str(&mut s, c.kind.as_str());
    push_str(&mut s, " ");
    push_str(&mut s, c.namespace.as_str());
    push_str(&mut s, " . pop ");
    push_int(&mut s, c.ready as i64);
    push_str(&mut s, "/");
    push_int(&mut s, c.desired as i64);
    push_tone(out, s, if c.ready < c.desired { Tone::Warn } else { Tone::InkDim });
    match c.severity {
        Some(sev) => {
            let t = match sev {
                Severity::Critical => Tone::Crit,
                Severity::Warning => Tone::Warn,
                Severity::Info => Tone::Ink,
            };
            push_tone(out, lit("needs attention"), t);
        },
        None => {},
    }
    match c.storage {
        Some((claims, pending)) => {
            let mut t = String::new();
            push_dec(&mut t, claims as u64);
            if pending > 0 {
                push_str(&mut t, " PVCs . ");
                push_dec(&mut t, pending as u64);
                push_str(&mut t, " pending");
                push_tone(out, t, Tone::Warn);
            } else {
                push_str(&mut t, " PVCs");
                push_tone(out, t, Tone::Struct);
            }
        },
        None => {},
    }
    match &c.pair {
        Some((desc, tone)) => push_tone(out, desc.clone(), *tone),
        None => {},
    }
    assert(tone_view(out@) =~= o + city_lines(*c));
}

/// The lines describing a map cell.
pub fn region_lines(paired: bool, cluster: ClusterId, label: &str, r: &RegionInfo) -> (out: Vec<(String, Tone)>)
    ensures
        tone_view(out@) == region_lines_spec(paired, cluster, label@, *r),
{
    let mut out: Vec<(String, Tone)> = Vec::new();
    match r {
        RegionInfo::Ocean => if !paired {
            assert(tone_view(out@) =~= region_lines_spec(paired, cluster, label@, *r));
            return out;
        },
        _ => {},
    }
    if paired {
        let mut s = String::new();
        match cluster {
            ClusterId::Hot => {
                push_str(&mut s, "HOT ");
                push_str(&mut s, label);
                push_tone(&mut out, s, Tone::Hot);
            },
            ClusterId::Warm => {
                push_str(&mut s, "WARM ");
                push_str(&mut s, label);
                push_tone(&mut out, s, Tone::Warm);
            },
        }
    }
    match r {
        RegionInfo::Coast { coast, name, detail, workload } => {
            let mut w = String::new();
            match coast {
                CoastKind::Harbor => {
                    push_tone(&mut out, lit("harbor"), Tone::Struct);
                    push_str(&mut w, "service ");
                },
                CoastKind::Gate => {
                    push_tone(&mut out, lit("gate"), Tone::Struct);
                    push_str(&mut w, "ingress ");
                },
            }
            push_str(&mut w, name.as_str());
            push_str(&mut w, " . ");
            push_str(&mut w, detail.as_str());
            push_tone(&mut out, w, Tone::Ink);
            let mut t = String::new();
            push_str(&mut t, "-> ");
            push_str(&mut t, workload.as_str());
            push_tone(&mut out, t, Tone::InkDim);
        },
        RegionInfo::City(c) => {
            push_city(&mut out, c);
        },
        RegionInfo::Province { name, health, pods } => {
            push_tone(&mut out, name.clone(), Tone::Ink);
            let mut t = String::new();
            let tone = match health {
                NodeHealth::Healthy => {
                    push_str(&mut t, "healthy");
                    Tone::InkDim
                },
                NodeHealth::Cordoned => {
                    push_str(&mut t, "cordoned");
                    Tone::Warn
                },
                NodeHealth::Pressure => {
                    push_str(&mut t, "under pressure");
                    Tone::Warn
                },
                NodeHealth::NotReady => {
                    push_str(&mut t, "NotReady");
                    Tone::Crit
                },
            };
            push_str(&mut t, " . ");
            push_dec(&mut t, *pods as u64);
            push_str(&mut t, " pods");
            push_tone(&mut out, t, tone);
        },
        RegionInfo::Structure { kind, name, encampment } => {
            let mut t = String::new();
            push_str(&mut t, kind.as_str());
            push_str(&mut t, "/");
            push_str(&mut t, name.as_str());
            push_tone(&mut out, t, Tone::Ink);
            if *encampment {
                push_tone(&mut out, lit("encampment - no pods on any land"), Tone::Warn);
            }
        },
        RegionInfo::Island { label: isl } => {
            let mut t = String::new();
            push_str(&mut t, "isle of ");
            push_str(&mut t, isl.as_str());
            push_tone(&mut out, t, Tone::Ink);
        },
        RegionInfo::Ocean => {
            push_tone(&mut out, lit("open sea"), Tone::InkDim);
        },
    }
    assert(tone_view(out@) =~= region_lines_spec(paired, cluster, label@, *r));
    out
}

/// A paired session always says which world a cell belongs to, first; a
/// single-cluster session never does.
pub proof fn lemma_paired_lines_lead_with_the_world(
    paired: bool,
    cluster: ClusterId,
    label: Seq<char>,
    r: RegionInfo,
)
    ensures
        paired ==> region_lines_spec(paired, cluster, label, r).len() > 1 && region_lines_spec(
            paired,
            cluster,
            label,
            r,
        )[0] == world_tag(cluster, label),
        !paired && r is Ocean ==> region_lines_spec(paired, cluster, label, r).len() == 0,
{
}

} // verus!
