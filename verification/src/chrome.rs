//! The text of the chrome around the map: the attention strip, the status
//! block of the side column, the confirm modals and the single-select
//! picker.

use vstd::prelude::*;
use crate::text::{dec, push_dec, push_str};
use crate::screens::ClusterId;
use crate::reports::Severity;
use crate::region::{Tone, severity_tone};

verus! {

/// One concern as the strip shows it.
#[derive(Debug, Clone)]
pub struct ConcernLine {
    pub title: String,
    pub detail: String,
    pub severity: Severity,
    pub cluster: ClusterId,
}

/// How many concerns the strip shows.
pub const STRIP_ROWS: usize = 3;

/// A concern's line: the cursor marker on the focused one, the world tag
/// in a paired session, then title and detail.
pub open spec fn strip_line(c: ConcernLine, focused: bool, paired: bool) -> (Seq<char>, Tone) {
    (
        (if focused {
            "> "@
        } else {
            "  "@
        }) + (if paired {
            match c.cluster {
                ClusterId::Hot => "[H] "@,
                ClusterId::Warm => "[W] "@,
            }
        } else {
            Seq::empty()
        }) + c.title@ + " - "@ + c.detail@,
        severity_tone(c.severity),
    )
}

/// The attention strip: "all quiet" with no concerns; otherwise the first
/// three, the focused one (the cursor wraps) marked, and how many more.
pub open spec fn strip_spec(cs: Seq<ConcernLine>, paired: bool, cursor: nat) -> (Seq<(Seq<char>, Tone)>, Option<Seq<char>>) {
    if cs.len() == 0 {
        (seq![("all quiet - no concerns"@, Tone::InkDim)], None)
    } else {
        let shown = if cs.len() > STRIP_ROWS {
            STRIP_ROWS as int
        } else {
            cs.len() as int
        };
        (
            Seq::new(shown as nat, |i: int| strip_line(cs[i], i == cursor % cs.len(), paired)),
            if cs.len() > STRIP_ROWS {
                Some("+"@ + dec((cs.len() - STRIP_ROWS) as nat))
            } else {
                None
            },
        )
    }
}

/// The view of tinted lines.
pub open spec fn tone_lines(v: Seq<(String, Tone)>) -> Seq<(Seq<char>, Tone)> {
    v.map_values(|t: (String, Tone)| (t.0@, t.1))
}

/// The attention strip's lines and overflow count.
pub fn attention_strip(cs: &Vec<ConcernLine>, paired: bool, cursor: usize) -> (r: (Vec<(String, Tone)>, Option<String>))
    ensures
        tone_lines(r.0@) == strip_spec(cs@, paired, cursor as nat).0,
        match strip_spec(cs@, paired, cursor as nat).1 {
            Some(t) => r.1 is Some && r.1->0@ == t,
            None => r.1 is None,
        },
{
    let mut out: Vec<(String, Tone)> = Vec::new();
    if cs.len() == 0 {
        out.push((String::from_str("all quiet - no concerns"), Tone::InkDim));
        assert(tone_lines(out@) =~= strip_spec(cs@, paired, cursor as nat).0);
        return (out, None);
    }
    let focus = cursor % cs.len();
    let shown = if cs.len() > STRIP_ROWS {
        STRIP_ROWS
    } else {
        cs.len()
    };
    let ghost want = strip_spec(cs@, paired, cursor as nat).0;
    let mut i: usize = 0;
    while i < shown
        invariant
            shown <= cs@.len(),
            shown == want.len(),
            focus == (cursor as nat) % cs@.len(),
            want == strip_spec(cs@, paired, cursor as nat).0,
            cs@.len() > 0,
            i <= shown,
            tone_lines(out@) == want.take(i as int),
        decreases shown - i,
    {
        let c = &cs[i];
        let mut s = String::new();
        if i == focus {
            push_str(&mut s, "> ");
        } else {
            push_str(&mut s, "  ");
        }
        if paired {
            match c.cluster {
                ClusterId::Hot => push_str(&mut s, "[H] "),
                ClusterId::Warm => push_str(&mut s, "[W] "),
            }
        }
        push_str(&mut s, c.title.as_str());
        push_str(&mut s, " - ");
        push_str(&mut s, c.detail.as_str());
        let tone = match c.severity {
            Severity::Critical => Tone::Crit,
            Severity::Warning => Tone::Warn,
            Severity::Info => Tone::Ink,
        };
        proof {
            let tag: Seq<char> = if paired {
                match c.cluster {
                    ClusterId::Hot => "[H] "@,
                    ClusterId::Warm => "[W] "@,
                }
            } else {
                Seq::empty()
            };
            let mark: Seq<char> = if i == focus { "> "@ } else { "  "@ };
            assert(s@ =~= mark + tag + c.title@ + " - "@ + c.detail@);
            assert(want[i as int] == strip_line(cs@[i as int], i == (cursor as nat) % cs@.len(), paired));
        }
        let ghost before = out@;
        out.push((s, tone));
        assert(tone_lines(out@) == tone_lines(before).push((s@, tone)));
        assert(want.take(i + 1) == want.take(i as int).push(want[i as int]));
        i = i + 1;
    }
    assert(want.take(shown as int) == want);
    if cs.len() > STRIP_ROWS {
        let mut m = String::new();
        push_str(&mut m, "+");
        push_dec(&mut m, (cs.len() - STRIP_ROWS) as u64);
        (out, Some(m))
    } else {
        (out, None)
    }
}

/// The concern rollup tokens of the status block: each count tinted only
/// when non-zero.
pub fn concern_tokens(critical: usize, warning: usize, info: usize) -> (r: Vec<(String, Tone)>)
    ensures
        tone_lines(r@) == seq![
            (dec(critical as nat) + " crit"@, if critical > 0 { Tone::Crit } else { Tone::InkDim }),
            (dec(warning as nat) + " warn"@, if warning > 0 { Tone::Warn } else { Tone::InkDim }),
            (dec(info as nat) + " info"@, if info > 0 { Tone::Ink } else { Tone::InkDim }),
        ],
{
    let mut a = String::new();
    push_dec(&mut a, critical as u64);
    push_str(&mut a, " crit");
    let mut b = String::new();
    push_dec(&mut b, warning as u64);
    push_str(&mut b, " warn");
    let mut c = String::new();
    push_dec(&mut c, info as u64);
    push_str(&mut c, " info");
    let r = vec![
        (a, if critical > 0 { Tone::Crit } else { Tone::InkDim }),
        (b, if warning > 0 { Tone::Warn } else { Tone::InkDim }),
        (c, if info > 0 { Tone::Ink } else { Tone::InkDim }),
    ];
    assert(tone_lines(r@) =~= seq![
        (dec(critical as nat) + " crit"@, if critical > 0 { Tone::Crit } else { Tone::InkDim }),
        (dec(warning as nat) + " warn"@, if warning > 0 { Tone::Warn } else { Tone::InkDim }),
        (dec(info as nat) + " info"@, if info > 0 { Tone::Ink } else { Tone::InkDim }),
    ]);
    r
}

/// The status block's census line.
pub fn census_status(platform: &str, nodes: usize, pods: usize) -> (r: String)
    ensures
        r@ == platform@ + " . "@ + dec(nodes as nat) + " nodes . "@ + dec(pods as nat) + " pods"@,
{
    let mut s = String::new();
    push_str(&mut s, platform);
    push_str(&mut s, " . ");
    push_dec(&mut s, nodes as u64);
    push_str(&mut s, " nodes . ");
    push_dec(&mut s, pods as u64);
    push_str(&mut s, " pods");
    s
}

/// What the node gauges measure.
pub fn gauge_source(metrics_live: bool) -> (r: &'static str)
    ensures
        r@ == if metrics_live {
            "gauges: live usage"@
        } else {
            "gauges: scheduling pressure"@
        },
{
    if metrics_live {
        "gauges: live usage"
    } else {
        "gauges: scheduling pressure"
    }
}

/// The evict confirm's subject: the pod, its world tagged in a paired
/// session when it is the warm one.
pub fn evict_subject(warm_tag: bool, namespace: &str, pod: &str) -> (r: String)
    ensures
        r@ == (if warm_tag {
            "WARM "@
        } else {
            Seq::empty()
        }) + namespace@ + "/"@ + pod@,
{
    let mut s = String::new();
    if warm_tag {
        push_str(&mut s, "WARM ");
    }
    push_str(&mut s, namespace);
    push_str(&mut s, "/");
    push_str(&mut s, pod);
    proof {
        if !warm_tag {
            assert(s@ =~= Seq::<char>::empty() + namespace@ + "/"@ + pod@);
        }
    }
    s
}

/// The commit confirm's line.
pub fn commit_confirm_line(n: usize) -> (r: String)
    ensures
        r@ == "Apply "@ + dec(n as nat) + " staged change(s) to the cluster."@,
{
    let mut s = String::new();
    push_str(&mut s, "Apply ");
    push_dec(&mut s, n as u64);
    push_str(&mut s, " staged change(s) to the cluster.");
    s
}

/// A confirm modal's answer to a click: yes on the confirm button, cancel
/// on the cancel button.
pub fn confirm_click(click: bool, on_yes: bool, on_cancel: bool) -> (r: (bool, bool))
    ensures
        r == (click && on_yes, click && on_cancel),
{
    (click && on_yes, click && on_cancel)
}

/// One row of the single-select picker: the active item carries the dot,
/// the keyboard cursor the highlight.
pub fn picker_marks(items: &Vec<String>, current: &str, cursor: usize) -> (r: Vec<(bool, bool)>)
    ensures
        r@.len() == items@.len(),
        forall|i: int|
            0 <= i < items@.len() ==> (#[trigger] r@[i]).0 == (items@[i]@ == current@) && r@[i].1 == (i
                == cursor),
{
    let cur = String::from_str(current);
    let mut out: Vec<(bool, bool)> = Vec::new();
    let mut i: usize = 0;
    while i < items.len()
        invariant
            i <= items@.len(),
            cur@ == current@,
            out@.len() == i,
            forall|k: int|
                0 <= k < i ==> (#[trigger] out@[k]).0 == (items@[k]@ == current@) && out@[k].1 == (k
                    == cursor),
        decreases items.len() - i,
    {
        out.push((items[i] == cur, i == cursor));
        i = i + 1;
    }
    out
}

} // verus!
