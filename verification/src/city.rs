//! The city drill-down window's decisions: the title, the replica and
//! image plan controls, the treasury (error budget) band and its SLO-target
//! stepper, and the census, improvement, history and chronicle rows. The
//! window's geometry and hit-testing stay with the caller, which hands in
//! what the mouse is over; quantities that need float formatting (ages,
//! percentages, usage) arrive rendered.

use vstd::prelude::*;
use crate::text::{dec, int_dec, push_dec, push_int, push_str};
use crate::screens::ClusterId;
use crate::ui::{cut_spec, truncate_str};

verus! {

/// The colour a piece of window text is drawn in.
#[derive(Debug, Clone, Copy, PartialEq, Eq, Structural)]
pub enum Tint {
    /// Ordinary ink.
    Ink,
    Dim,
    Good,
    Warn,
    Crit,
    /// The structure colour (annotations, owned objects).
    Struct,
}

// --- title --------------------------------------------------------------

/// The cluster suffix of a window title: only a paired session says which
/// world a city belongs to.
pub open spec fn cluster_suffix(cluster: ClusterId, warm_present: bool) -> Seq<char> {
    if !warm_present {
        Seq::empty()
    } else {
        match cluster {
            ClusterId::Hot => " \u{2014} HOT"@,
            ClusterId::Warm => " \u{2014} WARM"@,
        }
    }
}

/// The city window's title: `kind ns/name`, tagged HOT or WARM when a warm
/// world is being watched.
pub fn city_title(kind: &str, namespace: &str, name: &str, cluster: ClusterId, warm_present: bool) -> (r: String)
    ensures
        r@ == kind@ + " "@ + namespace@ + "/"@ + name@ + cluster_suffix(cluster, warm_present),
{
    let mut s = String::new();
    push_str(&mut s, kind);
    push_str(&mut s, " ");
    push_str(&mut s, namespace);
    push_str(&mut s, "/");
    push_str(&mut s, name);
    if warm_present {
        match cluster {
            ClusterId::Hot => push_str(&mut s, " \u{2014} HOT"),
            ClusterId::Warm => push_str(&mut s, " \u{2014} WARM"),
        }
    }
    proof {
        if !warm_present {
            assert(s@ =~= kind@ + " "@ + namespace@ + "/"@ + name@ + cluster_suffix(cluster, warm_present));
        }
    }
    s
}

// --- status band --------------------------------------------------------

/// The headline numbers of the status band, in the warning colour while
/// fewer replicas are ready than desired.
pub fn status_line(ready: i32, available: i32, updated: i32, desired: i32) -> (r: (String, Tint))
    ensures
        r.0@ == int_dec(ready as int) + " ready . "@ + int_dec(available as int) + " available . "@
            + int_dec(updated as int) + " updated  /  "@ + int_dec(desired as int) + " desired"@,
        r.1 == if ready < desired {
            Tint::Warn
        } else {
            Tint::Ink
        },
{
    let mut s = String::new();
    push_int(&mut s, ready as i64);
    push_str(&mut s, " ready . ");
    push_int(&mut s, available as i64);
    push_str(&mut s, " available . ");
    push_int(&mut s, updated as i64);
    push_str(&mut s, " updated  /  ");
    push_int(&mut s, desired as i64);
    push_str(&mut s, " desired");
    (s, if ready < desired { Tint::Warn } else { Tint::Ink })
}

/// A gauge is drawn full (in the healthy colour) once its value reaches a
/// positive maximum.
pub fn gauge_full(value: i32, max: i32) -> (r: bool)
    ensures
        r == (value >= max && max > 0),
{
    value >= max && max > 0
}

// --- replica plan -------------------------------------------------------

/// The replica count the plan control shows: the staged one, else the
/// observed desired count.
pub open spec fn shown_replicas(desired: i32, staged: Option<i32>) -> int {
    match staged {
        Some(s) => s as int,
        None => desired as int,
    }
}

/// Whether a staged replica count differs from the desired one.
pub open spec fn replicas_changed(desired: i32, staged: Option<i32>) -> bool {
    match staged {
        Some(s) => s != desired,
        None => false,
    }
}

/// The replica count a click on the stepper stages: one more, or one fewer
/// but never below zero, than the count shown.
pub fn replica_step(desired: i32, staged: Option<i32>, up: bool) -> (r: i32)
    requires
        up ==> shown_replicas(desired, staged) < i32::MAX,
        !up ==> shown_replicas(desired, staged) > i32::MIN,
    ensures
        up ==> r == shown_replicas(desired, staged) + 1,
        !up ==> r == if shown_replicas(desired, staged) - 1 < 0 {
            0
        } else {
            shown_replicas(desired, staged) - 1
        },
{
    let shown = match staged {
        Some(s) => s,
        None => desired,
    };
    if up {
        shown + 1
    } else {
        let d = shown - 1;
        if d < 0 {
            0
        } else {
            d
        }
    }
}

/// The staged-diff note beside the replica control, when the staged count
/// differs: `staged  desired -> shown`.
pub fn staged_replicas_note(desired: i32, staged: Option<i32>) -> (r: Option<String>)
    ensures
        replicas_changed(desired, staged) ==> r is Some && r->0@ == "staged  "@ + int_dec(
            desired as int,
        ) + " -> "@ + int_dec(shown_replicas(desired, staged)),
        !replicas_changed(desired, staged) ==> r is None,
{
    match staged {
        Some(s) => if s != desired {
            let mut t = String::new();
            push_str(&mut t, "staged  ");
            push_int(&mut t, desired as i64);
            push_str(&mut t, " -> ");
            push_int(&mut t, s as i64);
            Some(t)
        } else {
            None
        },
        None => None,
    }
}

/// The tint of the replica number: a staged change is a warning.
pub fn replicas_tint(desired: i32, staged: Option<i32>) -> (r: Tint)
    ensures
        r == if replicas_changed(desired, staged) {
            Tint::Warn
        } else {
            Tint::Ink
        },
{
    match staged {
        Some(s) => if s != desired {
            Tint::Warn
        } else {
            Tint::Ink
        },
        None => Tint::Ink,
    }
}

// --- treasury -----------------------------------------------------------

/// Where a workload's error budget stands.
#[derive(Debug, Clone, Copy, PartialEq, Eq, Structural)]
pub enum BudgetState {
    /// Too few samples to judge yet.
    Warming,
    Healthy,
    Burning,
    Breached,
}

/// Where a workload's SLO target came from.
#[derive(Debug, Clone, Copy, PartialEq, Eq, Structural)]
pub enum TargetSource {
    /// Set in this session with the stepper.
    Manual,
    /// From the workload's annotation.
    Annotation,
    Default,
}

/// A workload's SLO status, its figures rendered (percentages without the
/// sign, the burn rate without its `x`).
#[derive(Debug, Clone)]
pub struct SloView {
    pub state: BudgetState,
    pub samples: u64,
    /// The target, e.g. `99.0`.
    pub target_pct: String,
    /// The measured availability, e.g. `99.50`.
    pub sli_pct: String,
    /// The burn rate, e.g. `2.0`.
    pub burn: String,
    /// The remaining budget as shown, e.g. `50%`.
    pub budget: String,
    pub source: TargetSource,
}

/// The treasury band's summary and tint for a workload's error budget.
pub open spec fn treasury_spec(st: Option<SloView>) -> (Seq<char>, Tint) {
    match st {
        None => ("no SLO yet (just synced or scaled to zero)"@, Tint::Dim),
        Some(s) => match s.state {
            BudgetState::Warming => (
                "warming up . "@ + dec(s.samples as nat) + " samples . target "@ + s.target_pct@
                    + "%"@,
                Tint::Dim,
            ),
            BudgetState::Healthy => (
                s.budget@ + " budget . avail "@ + s.sli_pct@ + "% / SLO "@ + s.target_pct@ + "%"@,
                Tint::Good,
            ),
            BudgetState::Burning => (
                s.budget@ + " budget . burning "@ + s.burn@ + "x . avail "@ + s.sli_pct@ + "%"@,
                Tint::Warn,
            ),
            BudgetState::Breached => (
                "budget exhausted . avail "@ + s.sli_pct@ + "% / SLO "@ + s.target_pct@ + "%"@,
                Tint::Crit,
            ),
        },
    }
}

/// The treasury summary: a placeholder when the workload has no SLO yet,
/// otherwise a line for its budget state in that state's colour.
pub fn treasury_summary(st: Option<&SloView>) -> (r: (String, Tint))
    ensures
        (r.0@, r.1) == treasury_spec(
            match st {
                Some(s) => Some(*s),
                None => None,
            },
        ),
{
    let mut t = String::new();
    match st {
        None => {
            push_str(&mut t, "no SLO yet (just synced or scaled to zero)");
            (t, Tint::Dim)
        },
        Some(s) => match s.state {
            BudgetState::Warming => {
                push_str(&mut t, "warming up . ");
                push_dec(&mut t, s.samples);
                push_str(&mut t, " samples . target ");
                push_str(&mut t, s.target_pct.as_str());
                push_str(&mut t, "%");
                (t, Tint::Dim)
            },
            BudgetState::Healthy => {
                push_str(&mut t, s.budget.as_str());
                push_str(&mut t, " budget . avail ");
                push_str(&mut t, s.sli_pct.as_str());
                push_str(&mut t, "% / SLO ");
                push_str(&mut t, s.target_pct.as_str());
                push_str(&mut t, "%");
                (t, Tint::Good)
            },
            BudgetState::Burning => {
                push_str(&mut t, s.budget.as_str());
                push_str(&mut t, " budget . burning ");
                push_str(&mut t, s.burn.as_str());
                push_str(&mut t, "x . avail ");
                push_str(&mut t, s.sli_pct.as_str());
                push_str(&mut t, "%");
                (t, Tint::Warn)
            },
            BudgetState::Breached => {
                push_str(&mut t, "budget exhausted . avail ");
                push_str(&mut t, s.sli_pct.as_str());
                push_str(&mut t, "% / SLO ");
                push_str(&mut t, s.target_pct.as_str());
                push_str(&mut t, "%");
                (t, Tint::Crit)
            },
        },
    }
}

/// The short tag and tint naming where an SLO target came from.
pub fn target_source_tag(src: TargetSource) -> (r: (&'static str, Tint))
    ensures
        r.0@ == match src {
            TargetSource::Manual => "manual"@,
            TargetSource::Annotation => "annotated"@,
            TargetSource::Default => "default"@,
        },
        r.1 == match src {
            TargetSource::Manual => Tint::Warn,
            TargetSource::Annotation => Tint::Struct,
            TargetSource::Default => Tint::Dim,
        },
{
    match src {
        TargetSource::Manual => ("manual", Tint::Warn),
        TargetSource::Annotation => ("annotated", Tint::Struct),
        TargetSource::Default => ("default", Tint::Dim),
    }
}

/// The SLO-target tiers the stepper walks, in basis points (ten-thousandths):
/// 90%, 95%, 99%, 99.5%, 99.9%, 99.95% — an availability curve, not a
/// linear step.
pub open spec fn slo_tiers() -> Seq<u32> {
    seq![9000u32, 9500u32, 9900u32, 9950u32, 9990u32, 9995u32]
}

/// The number of SLO tiers.
pub const SLO_TIER_COUNT: usize = 6;

/// `|a - b|`.
pub open spec fn dist(a: int, b: int) -> int {
    if a >= b {
        a - b
    } else {
        b - a
    }
}

/// The tier nearest `current`; on a tie, the lower (earlier) tier.
pub open spec fn nearest_tier(current: int, i: int) -> bool {
    &&& 0 <= i < SLO_TIER_COUNT
    &&& forall|j: int| 0 <= j < SLO_TIER_COUNT ==> dist(slo_tiers()[i] as int, current) <= dist(
        #[trigger] slo_tiers()[j] as int,
        current,
    )
    &&& forall|j: int| 0 <= j < i ==> dist(slo_tiers()[i] as int, current) < dist(
        #[trigger] slo_tiers()[j] as int,
        current,
    )
}

fn tiers() -> (r: Vec<u32>)
    ensures
        r@ == slo_tiers(),
{
    let r = vec![9000u32, 9500u32, 9900u32, 9950u32, 9990u32, 9995u32];
    assert(r@ =~= slo_tiers());
    r
}

fn udist(a: u32, b: u32) -> (r: u32)
    ensures
        r == dist(a as int, b as int),
{
    if a >= b {
        a - b
    } else {
        b - a
    }
}

/// The index of the tier nearest `current` (the first of equally near ones).
fn nearest_tier_index(current: u32) -> (r: usize)
    ensures
        nearest_tier(current as int, r as int),
{
    let t = tiers();
    let mut best: usize = 0;
    let mut best_d: u32 = udist(t[0], current);
    let mut i: usize = 1;
    while i < t.len()
        invariant
            t@ == slo_tiers(),
            1 <= i <= SLO_TIER_COUNT,
            best < i,
            best_d == dist(slo_tiers()[best as int] as int, current as int),
            forall|j: int| 0 <= j < i ==> best_d <= dist(#[trigger] slo_tiers()[j] as int, current as int),
            forall|j: int| 0 <= j < best ==> best_d < dist(#[trigger] slo_tiers()[j] as int, current as int),
        decreases t.len() - i,
    {
        let d = udist(t[i], current);
        if d < best_d {
            best = i;
            best_d = d;
        }
        i = i + 1;
    }
    best
}

/// The index of the tier nearest `current`.
pub open spec fn nearest_index(current: int) -> int {
    choose|i: int| nearest_tier(current, i)
}

/// The index one step from `i`, stopping at the ends.
pub open spec fn step_index(i: int, up: bool) -> int {
    if up {
        if i + 1 < SLO_TIER_COUNT {
            i + 1
        } else {
            SLO_TIER_COUNT - 1
        }
    } else {
        if i > 0 {
            i - 1
        } else {
            0
        }
    }
}

/// The target one click of the stepper sets.
pub open spec fn stepped_target(current: int, up: bool) -> u32 {
    slo_tiers()[step_index(nearest_index(current), up)]
}

/// At most one tier is the nearest.
proof fn lemma_nearest_unique(current: int, i: int, j: int)
    requires
        nearest_tier(current, i),
        nearest_tier(current, j),
    ensures
        i == j,
{
    if i < j {
        assert(dist(slo_tiers()[j] as int, current) < dist(slo_tiers()[i] as int, current));
    } else if j < i {
        assert(dist(slo_tiers()[i] as int, current) < dist(slo_tiers()[j] as int, current));
    }
}

/// Once one nearest tier is known, it is the nearest index.
proof fn lemma_nearest_index(current: int, i: int)
    requires
        nearest_tier(current, i),
    ensures
        nearest_index(current) == i,
{
    lemma_nearest_unique(current, i, nearest_index(current));
}

/// One click of the SLO-target stepper: snap `current` (in basis points)
/// to its nearest tier, then move one tier up or down, stopping at the
/// ends.
pub fn step_target(current: u32, up: bool) -> (r: u32)
    ensures
        r == stepped_target(current as int, up),
{
    let t = tiers();
    let idx = nearest_tier_index(current);
    proof {
        lemma_nearest_index(current as int, idx as int);
    }
    let ni = if up {
        if idx + 1 < t.len() {
            idx + 1
        } else {
            t.len() - 1
        }
    } else {
        if idx > 0 {
            idx - 1
        } else {
            0
        }
    };
    t[ni]
}

/// A tier is its own nearest tier.
proof fn lemma_tier_is_nearest(i: int)
    requires
        0 <= i < SLO_TIER_COUNT,
    ensures
        nearest_index(slo_tiers()[i] as int) == i,
{
    let c = slo_tiers()[i] as int;
    assert forall|j: int| 0 <= j < SLO_TIER_COUNT implies dist(slo_tiers()[i] as int, c) <= dist(
        #[trigger] slo_tiers()[j] as int,
        c,
    ) by {}
    assert forall|j: int| 0 <= j < i implies dist(slo_tiers()[i] as int, c) < dist(
        #[trigger] slo_tiers()[j] as int,
        c,
    ) by {}
    lemma_nearest_index(c, i);
}

/// The stepper always lands on a tier, and stepping away from a tier and
/// back returns to it (away from the end that stops the step).
pub proof fn lemma_target_steps_round_trip(current: int, i: int)
    requires
        0 <= i < SLO_TIER_COUNT,
    ensures
        slo_tiers().contains(stepped_target(current, true)),
        slo_tiers().contains(stepped_target(current, false)),
        i + 1 < SLO_TIER_COUNT ==> stepped_target(
            stepped_target(slo_tiers()[i] as int, true) as int,
            false,
        ) == slo_tiers()[i],
        i > 0 ==> stepped_target(stepped_target(slo_tiers()[i] as int, false) as int, true)
            == slo_tiers()[i],
{
    let n = nearest_index(current);
    assert(exists|k: int| nearest_tier(current, k)) by {
        let t = slo_tiers();
        assert(t[0] == 9000u32 && t[1] == 9500u32 && t[2] == 9900u32 && t[3] == 9950u32 && t[4] == 9990u32 && t[5] == 9995u32);
        let d = |k: int| dist(t[k] as int, current);
        if d(0) <= d(1) && d(0) <= d(2) && d(0) <= d(3) && d(0) <= d(4) && d(0) <= d(5) {
            assert(nearest_tier(current, 0));
        } else if d(1) <= d(2) && d(1) <= d(3) && d(1) <= d(4) && d(1) <= d(5) {
            assert(nearest_tier(current, 1));
        } else if d(2) <= d(3) && d(2) <= d(4) && d(2) <= d(5) {
            assert(nearest_tier(current, 2));
        } else if d(3) <= d(4) && d(3) <= d(5) {
            assert(nearest_tier(current, 3));
        } else if d(4) <= d(5) {
            assert(nearest_tier(current, 4));
        } else {
            assert(nearest_tier(current, 5));
        }
    }
    assert(nearest_tier(current, n));
    assert(slo_tiers()[step_index(n, true)] == stepped_target(current, true));
    assert(slo_tiers()[step_index(n, false)] == stepped_target(current, false));
    lemma_tier_is_nearest(i);
    if i + 1 < SLO_TIER_COUNT {
        lemma_tier_is_nearest(i + 1);
    }
    if i > 0 {
        lemma_tier_is_nearest(i - 1);
    }
}

/// The tint of the target figure: a manual override stands out.
pub fn target_tint(src: TargetSource) -> (r: Tint)
    ensures
        r == if src == TargetSource::Manual {
            Tint::Warn
        } else {
            Tint::Ink
        },
{
    match src {
        TargetSource::Manual => Tint::Warn,
        _ => Tint::Ink,
    }
}

/// What a click on the SLO-target controls asks for: `Some(Some(t))` sets
/// an in-session override to `t`, `Some(None)` clears the override, `None`
/// changes nothing. Reset only answers while an override is active.
pub fn slo_click(
    target: u32,
    source: TargetSource,
    click: bool,
    on_minus: bool,
    on_plus: bool,
    on_reset: bool,
) -> (r: Option<Option<u32>>)
    ensures
        !click ==> r is None,
        click && on_minus ==> r == Some(Some(stepped_target(target as int, false))),
        click && !on_minus && on_plus ==> r == Some(Some(stepped_target(target as int, true))),
        click && !on_minus && !on_plus ==> r == if on_reset && source == TargetSource::Manual {
            Some(None::<u32>)
        } else {
            None
        },
{
    if !click {
        None
    } else if on_minus {
        Some(Some(step_target(target, false)))
    } else if on_plus {
        Some(Some(step_target(target, true)))
    } else if on_reset && source == TargetSource::Manual {
        Some(None)
    } else {
        None
    }
}

// --- image plan ---------------------------------------------------------

/// How many trailing characters of the image being typed stay visible.
pub const IMAGE_TAIL: usize = 46;

/// The image field's text and tint: the tail of the buffer being edited
/// with a cursor, the staged image, an invitation to set one, or a note
/// that the workload has no container.
pub open spec fn image_field_spec(
    editing: Option<Seq<char>>,
    staged: Option<Seq<char>>,
    has_container: bool,
) -> (Seq<char>, Tint) {
    match editing {
        Some(buf) => (
            (if buf.len() > IMAGE_TAIL {
                buf.subrange(buf.len() - IMAGE_TAIL, buf.len() as int)
            } else {
                buf
            }).push('_'),
            Tint::Ink,
        ),
        None => match staged {
            Some(img) => ("-> "@ + img, Tint::Warn),
            None => if has_container {
                ("click to set image"@, Tint::Dim)
            } else {
                ("(no container)"@, Tint::Dim)
            },
        },
    }
}

/// The image field's text and tint.
pub fn image_field(editing: Option<&str>, staged: Option<&str>, has_container: bool) -> (r: (String, Tint))
    ensures
        (r.0@, r.1) == image_field_spec(
            match editing {
                Some(b) => Some(b@),
                None => None,
            },
            match staged {
                Some(i) => Some(i@),
                None => None,
            },
            has_container,
        ),
{
    let mut t = String::new();
    match editing {
        Some(buf) => {
            let n = buf.unicode_len();
            let start = if n > IMAGE_TAIL {
                n - IMAGE_TAIL
            } else {
                0
            };
            let mut i = start;
            while i < n
                invariant
                    n == buf@.len(),
                    start <= i <= n,
                    t@ == buf@.subrange(start as int, i as int),
                decreases n - i,
            {
                assert(buf@.subrange(start as int, i + 1) == buf@.subrange(start as int, i as int).push(
                    buf@[i as int],
                ));
                crate::text::push_char(&mut t, buf.get_char(i));
                i = i + 1;
            }
            assert(start == 0 ==> buf@.subrange(0, n as int) == buf@);
            crate::text::push_char(&mut t, '_');
            (t, Tint::Ink)
        },
        None => match staged {
            Some(img) => {
                push_str(&mut t, "-> ");
                push_str(&mut t, img);
                (t, Tint::Warn)
            },
            None => {
                if has_container {
                    push_str(&mut t, "click to set image");
                } else {
                    push_str(&mut t, "(no container)");
                }
                (t, Tint::Dim)
            },
        },
    }
}

/// A control character (general category Cc): never typed into a field.
pub open spec fn is_control(c: char) -> bool {
    (c as u32) < 0x20 || (0x7f <= (c as u32) && (c as u32) < 0xa0)
}

/// White space as the Unicode White_Space property lists it.
pub open spec fn is_white(c: char) -> bool {
    let u = c as u32;
    ||| (0x9 <= u && u <= 0xd)
    ||| u == 0x20
    ||| u == 0x85
    ||| u == 0xa0
    ||| u == 0x1680
    ||| (0x2000 <= u && u <= 0x200a)
    ||| u == 0x2028
    ||| u == 0x2029
    ||| u == 0x202f
    ||| u == 0x205f
    ||| u == 0x3000
}

fn is_control_exec(c: char) -> (r: bool)
    ensures
        r == is_control(c),
{
    let u = c as u32;
    u < 0x20 || (0x7f <= u && u < 0xa0)
}

fn is_white_exec(c: char) -> (r: bool)
    ensures
        r == is_white(c),
{
    let u = c as u32;
    (0x9 <= u && u <= 0xd) || u == 0x20 || u == 0x85 || u == 0xa0 || u == 0x1680 || (0x2000 <= u
        && u <= 0x200a) || u == 0x2028 || u == 0x2029 || u == 0x202f || u == 0x205f || u == 0x3000
}

/// The typed characters that land in a field: everything but control
/// characters.
pub open spec fn printable(s: Seq<char>) -> Seq<char>
    decreases s.len(),
{
    if s.len() == 0 {
        Seq::empty()
    } else if is_control(s.last()) {
        printable(s.drop_last())
    } else {
        printable(s.drop_last()).push(s.last())
    }
}

/// `s` without its leading white space.
pub open spec fn trim_front_white(s: Seq<char>) -> Seq<char>
    decreases s.len(),
{
    if s.len() > 0 && is_white(s[0]) {
        trim_front_white(s.subrange(1, s.len() as int))
    } else {
        s
    }
}

/// `s` without its trailing white space.
pub open spec fn trim_back_white(s: Seq<char>) -> Seq<char>
    decreases s.len(),
{
    if s.len() > 0 && is_white(s.last()) {
        trim_back_white(s.drop_last())
    } else {
        s
    }
}

/// `s` with white space trimmed from both ends.
pub open spec fn trim_white(s: Seq<char>) -> Seq<char> {
    trim_back_white(trim_front_white(s))
}

proof fn lemma_trim_front_white_step(s: Seq<char>, start: int)
    requires
        0 <= start < s.len(),
        is_white(s[start]),
    ensures
        trim_front_white(s.subrange(start, s.len() as int)) == trim_front_white(
            s.subrange(start + 1, s.len() as int),
        ),
{
    let t = s.subrange(start, s.len() as int);
    assert(t.subrange(1, t.len() as int) =~= s.subrange(start + 1, s.len() as int));
}

proof fn lemma_trim_back_white_step(s: Seq<char>, start: int, end: int)
    requires
        0 <= start < end <= s.len(),
        is_white(s[end - 1]),
    ensures
        trim_back_white(s.subrange(start, end)) == trim_back_white(s.subrange(start, end - 1)),
{
    let t = s.subrange(start, end);
    assert(t.drop_last() =~= s.subrange(start, end - 1));
}

/// `s` with white space trimmed from both ends.
fn trim(s: &Vec<char>) -> (r: Vec<char>)
    ensures
        r@ == trim_white(s@),
{
    let len = s.len();
    let mut start: usize = 0;
    assert(s@.subrange(0, len as int) == s@);
    while start < len && is_white_exec(s[start])
        invariant
            len == s@.len(),
            start <= len,
            trim_front_white(s@.subrange(start as int, len as int)) == trim_front_white(s@),
        decreases len - start,
    {
        proof {
            lemma_trim_front_white_step(s@, start as int);
        }
        start = start + 1;
    }
    let ghost front = trim_front_white(s@);
    assert(front == s@.subrange(start as int, len as int));
    let mut end: usize = len;
    while end > start && is_white_exec(s[end - 1])
        invariant
            len == s@.len(),
            start <= end <= len,
            front == s@.subrange(start as int, len as int),
            trim_back_white(s@.subrange(start as int, end as int)) == trim_back_white(front),
        decreases end - start,
    {
        proof {
            lemma_trim_back_white_step(s@, start as int, end as int);
        }
        end = end - 1;
    }
    assert(trim_back_white(s@.subrange(start as int, end as int)) == s@.subrange(start as int, end as int));
    let mut out: Vec<char> = Vec::new();
    let mut i = start;
    while i < end
        invariant
            len == s@.len(),
            start <= i <= end <= len,
            out@ == s@.subrange(start as int, i as int),
        decreases end - i,
    {
        assert(s@.subrange(start as int, i + 1) == s@.subrange(start as int, i as int).push(s@[i as int]));
        out.push(s[i]);
        i = i + 1;
    }
    out
}

fn chars_to_string(v: &Vec<char>) -> (r: String)
    ensures
        r@ == v@,
{
    let mut out = String::new();
    let mut i: usize = 0;
    while i < v.len()
        invariant
            i <= v@.len(),
            out@ == v@.take(i as int),
        decreases v.len() - i,
    {
        assert(v@.take(i + 1) == v@.take(i as int).push(v@[i as int]));
        crate::text::push_char(&mut out, v[i]);
        i = i + 1;
    }
    assert(v@.take(v@.len() as int) == v@);
    out
}

/// The buffer after a frame's keys: the printable typed characters
/// appended, then the last character removed on Backspace.
pub open spec fn edited_buffer(buf: Seq<char>, typed: Seq<char>, backspace: bool) -> Seq<char> {
    let b = buf + printable(typed);
    if backspace && b.len() > 0 {
        b.drop_last()
    } else {
        b
    }
}

/// One frame of the image editor. Typed characters (less control
/// characters) are appended and Backspace removes the last one; Enter
/// closes the editor and stages the trimmed image for the workload's
/// primary container, when there is one and the image is not blank.
/// Returns the buffer (or `None` once the editor has closed) and the
/// `(container, image)` to stage.
pub fn image_edit_step(
    buf: &str,
    typed: &Vec<char>,
    backspace: bool,
    enter: bool,
    container: &Option<String>,
) -> (r: (Option<String>, Option<(String, String)>))
    ensures
        !enter ==> r.1 is None && r.0 is Some && r.0->0@ == edited_buffer(buf@, typed@, backspace),
        enter ==> r.0 is None && match container {
            Some(c) => if trim_white(edited_buffer(buf@, typed@, backspace)).len() > 0 {
                r.1 matches Some((ci, im)) && ci@ == c@ && im@ == trim_white(
                    edited_buffer(buf@, typed@, backspace),
                )
            } else {
                r.1 is None
            },
            None => r.1 is None,
        },
{
    let mut v: Vec<char> = Vec::new();
    for c in it: buf.chars()
        invariant
            it.seq() == buf@,
            v@ == buf@.take(it.index()),
    {
        assert(buf@.take(it.index() + 1) == buf@.take(it.index()).push(c));
        v.push(c);
    }
    assert(buf@.take(buf@.len() as int) == buf@);
    let mut k: usize = 0;
    while k < typed.len()
        invariant
            k <= typed@.len(),
            v@ == buf@ + printable(typed@.take(k as int)),
        decreases typed.len() - k,
    {
        assert(typed@.take(k + 1).drop_last() == typed@.take(k as int));
        assert(typed@.take(k + 1).last() == typed@[k as int]);
        let c = typed[k];
        if !is_control_exec(c) {
            v.push(c);
        }
        k = k + 1;
    }
    assert(typed@.take(typed@.len() as int) == typed@);
    if backspace && v.len() > 0 {
        v.pop();
    }
    assert(v@ == edited_buffer(buf@, typed@, backspace));
    if !enter {
        return (Some(chars_to_string(&v)), None);
    }
    let image = trim(&v);
    match container {
        Some(c) => if image.len() > 0 {
            (None, Some((c.clone(), chars_to_string(&image))))
        } else {
            (None, None)
        },
        None => (None, None),
    }
}

/// A click on the image field opens the editor (on a workload with a
/// container), seeded with the staged image if there is one.
pub fn image_edit_open(click: bool, on_field: bool, has_container: bool, staged: Option<&str>) -> (r: Option<String>)
    ensures
        (click && on_field && has_container) ==> r is Some && r->0@ == match staged {
            Some(i) => i@,
            None => Seq::<char>::empty(),
        },
        !(click && on_field && has_container) ==> r is None,
{
    if click && on_field && has_container {
        match staged {
            Some(i) => Some(String::from_str(i)),
            None => Some(String::new()),
        }
    } else {
        None
    }
}

// --- citizens -----------------------------------------------------------

/// A pod's lifecycle state as the census shows it.
#[derive(Debug, Clone, Copy, PartialEq, Eq, Structural)]
pub enum PodState {
    /// Running and Ready.
    Running,
    Starting,
    Pending,
    Terminating,
    Failing,
    Succeeded,
}

/// Why a pod is not Ready, and what to do about it.
#[derive(Debug, Clone)]
pub struct Diagnosis {
    pub reason: String,
    pub explain: String,
    pub hint: String,
}

/// One pod of the city, its age and usage rendered.
#[derive(Debug, Clone)]
pub struct PodRow {
    pub name: String,
    pub state: PodState,
    /// The waiting/terminated reason, or empty.
    pub reason: String,
    pub restarts: i32,
    pub age: String,
    pub usage: Option<String>,
    pub diag: Option<Diagnosis>,
}

/// A failing pod that carries a diagnosis.
pub open spec fn failing_diagnosed(p: PodRow) -> bool {
    p.state == PodState::Failing && p.diag is Some
}

/// The pod whose diagnosis explains the city: the first failing pod with
/// one, else the first pod with one.
pub open spec fn explained_by(pods: Seq<PodRow>, i: int) -> bool {
    &&& 0 <= i < pods.len()
    &&& pods[i].diag is Some
    &&& if exists|j: int| 0 <= j < pods.len() && failing_diagnosed(#[trigger] pods[j]) {
        failing_diagnosed(pods[i]) && forall|j: int| 0 <= j < i ==> !failing_diagnosed(#[trigger] pods[j])
    } else {
        forall|j: int| 0 <= j < i ==> (#[trigger] pods[j]).diag is None
    }
}

/// Chooses the pod whose diagnosis the "why not Ready" line shows.
pub fn why_not_ready(pods: &Vec<PodRow>) -> (r: Option<usize>)
    ensures
        match r {
            Some(i) => explained_by(pods@, i as int),
            None => forall|j: int| 0 <= j < pods@.len() ==> (#[trigger] pods@[j]).diag is None,
        },
{
    let mut i: usize = 0;
    while i < pods.len()
        invariant
            i <= pods@.len(),
            forall|j: int| 0 <= j < i ==> !failing_diagnosed(#[trigger] pods@[j]),
        decreases pods.len() - i,
    {
        if pods[i].state == PodState::Failing && pods[i].diag.is_some() {
            return Some(i);
        }
        i = i + 1;
    }
    let mut k: usize = 0;
    while k < pods.len()
        invariant
            k <= pods@.len(),
            forall|j: int| 0 <= j < pods@.len() ==> !failing_diagnosed(#[trigger] pods@[j]),
            forall|j: int| 0 <= j < k ==> (#[trigger] pods@[j]).diag is None,
        decreases pods.len() - k,
    {
        if pods[k].diag.is_some() {
            return Some(k);
        }
        k = k + 1;
    }
    None
}

/// The two lines of a diagnosis: the cause, then the fix.
pub fn diagnosis_lines(d: &Diagnosis) -> (r: ((String, Tint), (String, Tint)))
    ensures
        r.0.0@ == "why: "@ + d.reason@ + " - "@ + d.explain@,
        r.0.1 == Tint::Warn,
        r.1.0@ == "fix: "@ + d.hint@,
        r.1.1 == Tint::Dim,
{
    let mut why = String::new();
    push_str(&mut why, "why: ");
    push_str(&mut why, d.reason.as_str());
    push_str(&mut why, " - ");
    push_str(&mut why, d.explain.as_str());
    let mut fix = String::new();
    push_str(&mut fix, "fix: ");
    push_str(&mut fix, d.hint.as_str());
    ((why, Tint::Warn), (fix, Tint::Dim))
}

/// How many pod names a row shows before cutting.
pub const POD_NAME_MAX: usize = 22;

/// A pod's row: its (cut) name, the reason when there is one, restarts,
/// age and, when measured, usage.
pub open spec fn pod_label_spec(p: PodRow) -> Seq<char> {
    cut_spec(p.name@, POD_NAME_MAX as nat, '~') + (if p.reason@.len() == 0 {
        Seq::empty()
    } else {
        "  "@ + p.reason@
    }) + " . r"@ + int_dec(p.restarts as int) + " . "@ + p.age@ + match p.usage {
        Some(u) => " . "@ + u@,
        None => Seq::empty(),
    }
}

/// A pod's row text.
pub fn pod_label(p: &PodRow) -> (r: String)
    ensures
        r@ == pod_label_spec(*p),
{
    let mut s = truncate_str(p.name.as_str(), POD_NAME_MAX);
    if p.reason.unicode_len() > 0 {
        push_str(&mut s, "  ");
        push_str(&mut s, p.reason.as_str());
    }
    push_str(&mut s, " . r");
    push_int(&mut s, p.restarts as i64);
    push_str(&mut s, " . ");
    push_str(&mut s, p.age.as_str());
    match &p.usage {
        Some(u) => {
            push_str(&mut s, " . ");
            push_str(&mut s, u.as_str());
        },
        None => {},
    }
    proof {
        if p.reason@.len() == 0 {
            assert(cut_spec(p.name@, POD_NAME_MAX as nat, '~') + Seq::<char>::empty() == cut_spec(
                p.name@,
                POD_NAME_MAX as nat,
                '~',
            ));
        }
    }
    s
}

/// A failing pod's row is drawn in the critical colour.
pub fn pod_tint(state: PodState) -> (r: Tint)
    ensures
        r == if state == PodState::Failing {
            Tint::Crit
        } else {
            Tint::Ink
        },
{
    match state {
        PodState::Failing => Tint::Crit,
        _ => Tint::Ink,
    }
}

/// The state of a pod's port-forward button this frame.
#[derive(Debug, Clone, Copy, PartialEq, Eq, Structural)]
pub enum ForwardBtn {
    Start,
    Stop,
}

/// What a frame's mouse does to a pod row.
#[derive(Debug, Clone, Copy, PartialEq, Eq, Structural)]
pub enum PodAct {
    Nothing,
    /// Start forwarding a port to the pod.
    Forward,
    /// Stop the pod's active forward.
    StopForward,
    Evict,
    /// Open the pod's YAML.
    Inspect,
    /// Tail the pod's logs.
    Log,
}

/// A pod row's action. Its buttons answer only while the row is hovered
/// and the image editor is closed, by precedence forward, evict, YAML; a
/// plain click elsewhere on the row tails the logs.
pub fn pod_row_action(
    hovered: bool,
    editing_image: bool,
    forward: Option<ForwardBtn>,
    evict: bool,
    yaml: bool,
    click: bool,
    on_a_button: bool,
) -> (r: PodAct)
    ensures
        r == if !hovered || editing_image {
            PodAct::Nothing
        } else {
            match forward {
                Some(ForwardBtn::Start) => PodAct::Forward,
                Some(ForwardBtn::Stop) => PodAct::StopForward,
                None => if evict {
                    PodAct::Evict
                } else if yaml {
                    PodAct::Inspect
                } else if click && !on_a_button {
                    PodAct::Log
                } else {
                    PodAct::Nothing
                },
            }
        },
{
    if !hovered || editing_image {
        return PodAct::Nothing;
    }
    match forward {
        Some(ForwardBtn::Start) => PodAct::Forward,
        Some(ForwardBtn::Stop) => PodAct::StopForward,
        None => if evict {
            PodAct::Evict
        } else if yaml {
            PodAct::Inspect
        } else if click && !on_a_button {
            PodAct::Log
        } else {
            PodAct::Nothing
        },
    }
}

/// The city window closes on a click on its close box or outside its
/// frame, unless that click acted on a pod.
pub fn city_closes(click: bool, acted_on_pod: bool, on_close: bool, in_frame: bool) -> (r: bool)
    ensures
        r == (click && !acted_on_pod && (on_close || !in_frame)),
{
    click && !acted_on_pod && (on_close || !in_frame)
}

// --- status lines -------------------------------------------------------

/// The rollout line: the status, with its note in brackets when there is
/// one.
pub fn rollout_line(status: &str, note: &str) -> (r: String)
    ensures
        r@ == "rollout "@ + status@ + if note@.len() == 0 {
            Seq::empty()
        } else {
            " ("@ + note@ + ")"@
        },
{
    let mut s = String::new();
    push_str(&mut s, "rollout ");
    push_str(&mut s, status);
    if note.unicode_len() > 0 {
        push_str(&mut s, " (");
        push_str(&mut s, note);
        push_str(&mut s, ")");
    }
    proof {
        if note@.len() == 0 {
            assert(s@ =~= "rollout "@ + status@ + Seq::<char>::empty());
        }
    }
    s
}

/// How many of `kinds` equal `k`.
pub open spec fn count_kind(kinds: Seq<Seq<char>>, k: Seq<char>) -> nat
    decreases kinds.len(),
{
    if kinds.len() == 0 {
        0
    } else {
        count_kind(kinds.drop_last(), k) + if kinds.last() == k {
            1nat
        } else {
            0nat
        }
    }
}

proof fn lemma_count_kind_le(kinds: Seq<Seq<char>>, k: Seq<char>)
    ensures
        count_kind(kinds, k) <= kinds.len(),
    decreases kinds.len(),
{
    if kinds.len() > 0 {
        lemma_count_kind_le(kinds.drop_last(), k);
    }
}

/// An object the workload owns: a Service, Ingress, PVC, ConfigMap or
/// Secret, with a short status note.
#[derive(Debug, Clone)]
pub struct OwnedRes {
    /// `svc`, `ing`, `pvc`, `cm` or `secret`.
    pub kind: String,
    pub name: String,
    pub note: String,
}

/// The kinds of the owned objects.
pub open spec fn owned_kinds(v: Seq<OwnedRes>) -> Seq<Seq<char>> {
    v.map_values(|o: OwnedRes| o.kind@)
}

fn count_owned(owned: &Vec<OwnedRes>, k: &str) -> (r: usize)
    ensures
        r == count_kind(owned_kinds(owned@), k@),
{
    let ghost kinds = owned_kinds(owned@);
    let key = String::from_str(k);
    let mut n: usize = 0;
    let mut i: usize = 0;
    while i < owned.len()
        invariant
            i <= owned@.len(),
            kinds == owned_kinds(owned@),
            key@ == k@,
            n == count_kind(kinds.take(i as int), k@),
        decreases owned.len() - i,
    {
        assert(kinds.take(i + 1).drop_last() == kinds.take(i as int));
        assert(kinds.take(i + 1).last() == owned@[i as int].kind@);
        proof {
            lemma_count_kind_le(kinds.take(i as int), k@);
        }
        if owned[i].kind == key {
            n = n + 1;
        }
        i = i + 1;
    }
    assert(kinds.take(owned@.len() as int) == kinds);
    n
}

/// The census tally: pods, then the Services, Ingresses and PVCs owned.
pub fn census_line(pods: usize, owned: &Vec<OwnedRes>) -> (r: String)
    ensures
        r@ == dec(pods as nat) + " pods . "@ + dec(count_kind(owned_kinds(owned@), "svc"@))
            + " svc . "@ + dec(count_kind(owned_kinds(owned@), "ing"@)) + " ingress . "@ + dec(
            count_kind(owned_kinds(owned@), "pvc"@),
        ) + " PVC"@,
{
    let svc = count_owned(owned, "svc");
    let ing = count_owned(owned, "ing");
    let pvc = count_owned(owned, "pvc");
    let mut s = String::new();
    push_dec(&mut s, pods as u64);
    push_str(&mut s, " pods . ");
    push_dec(&mut s, svc as u64);
    push_str(&mut s, " svc . ");
    push_dec(&mut s, ing as u64);
    push_str(&mut s, " ingress . ");
    push_dec(&mut s, pvc as u64);
    push_str(&mut s, " PVC");
    s
}

// --- improvements -------------------------------------------------------

/// How many owned objects the improvements list shows.
pub const IMPROVEMENTS_MAX: usize = 10;

/// `n` spaces.
pub open spec fn spaces(n: nat) -> Seq<char>
    decreases n,
{
    if n == 0 {
        Seq::empty()
    } else {
        spaces((n - 1) as nat).push(' ')
    }
}

/// An owned object's kind column: right-aligned in six places, then `/`.
pub open spec fn kind_column(kind: Seq<char>) -> Seq<char> {
    spaces(if kind.len() < 6 { (6 - kind.len()) as nat } else { 0 }) + kind + "/"@
}

/// A PVC that is not Bound is worth a warning; any other note is quiet.
pub open spec fn owned_note_tint(o: OwnedRes) -> Tint {
    if o.kind@ == "pvc"@ && o.note@ != "Bound"@ {
        Tint::Warn
    } else {
        Tint::Dim
    }
}

/// One improvements row: the kind column, the cut name, the cut note (when
/// there is one) and its tint.
#[derive(Debug, Clone)]
pub struct OwnedRow {
    pub kind: String,
    pub name: String,
    pub note: Option<String>,
    pub note_tint: Tint,
}

/// An owned object's row.
pub fn owned_row(o: &OwnedRes) -> (r: OwnedRow)
    ensures
        r.kind@ == kind_column(o.kind@),
        r.name@ == cut_spec(o.name@, 22, '~'),
        r.note is None <==> o.note@.len() == 0,
        r.note is Some ==> r.note->0@ == cut_spec(o.note@, 18, '~'),
        r.note_tint == owned_note_tint(*o),
{
    let n = o.kind.unicode_len();
    let pad = if n < 6 {
        6 - n
    } else {
        0
    };
    let mut k = String::new();
    let mut i: usize = 0;
    while i < pad
        invariant
            i <= pad,
            k@ == spaces(i as nat),
        decreases pad - i,
    {
        crate::text::push_char(&mut k, ' ');
        i = i + 1;
    }
    push_str(&mut k, o.kind.as_str());
    push_str(&mut k, "/");
    let note = if o.note.unicode_len() > 0 {
        Some(truncate_str(o.note.as_str(), 18))
    } else {
        None
    };
    let pvc = String::from_str("pvc");
    let bound = String::from_str("Bound");
    let tint = if o.kind == pvc && o.note != bound {
        Tint::Warn
    } else {
        Tint::Dim
    };
    proof {
        reveal_strlit("pvc");
        reveal_strlit("Bound");
    }
    OwnedRow { kind: k, name: truncate_str(o.name.as_str(), 22), note, note_tint: tint }
}

/// The line under the improvements list: an overflow count, or a note that
/// the workload owns nothing.
pub fn improvements_tail(len: usize) -> (r: Option<String>)
    ensures
        len > IMPROVEMENTS_MAX ==> r is Some && r->0@ == "+"@ + dec((len - IMPROVEMENTS_MAX) as nat)
            + " more"@,
        len == 0 ==> r is Some && r->0@ == "nothing owned"@,
        0 < len <= IMPROVEMENTS_MAX ==> r is None,
{
    if len > IMPROVEMENTS_MAX {
        let mut s = String::new();
        push_str(&mut s, "+");
        push_dec(&mut s, (len - IMPROVEMENTS_MAX) as u64);
        push_str(&mut s, " more");
        Some(s)
    } else if len == 0 {
        Some(String::from_str("nothing owned"))
    } else {
        None
    }
}

// --- history ------------------------------------------------------------

/// One Deployment revision, newest first in the history.
#[derive(Debug, Clone)]
pub struct Revision {
    pub number: i64,
    /// The revision the Deployment runs now.
    pub current: bool,
    /// Its age, rendered.
    pub age: String,
    /// Its first container's image, or empty.
    pub image: String,
}

/// A revision's line: number, a `*` on the live one, age and image.
pub open spec fn revision_line_spec(rev: Revision) -> Seq<char> {
    "rev "@ + int_dec(rev.number as int) + (if rev.current {
        " *"@
    } else {
        "  "@
    }) + "  "@ + rev.age@ + "  "@ + rev.image@
}

/// A revision's line.
pub fn revision_line(rev: &Revision) -> (r: String)
    ensures
        r@ == revision_line_spec(*rev),
{
    let mut s = String::new();
    push_str(&mut s, "rev ");
    push_int(&mut s, rev.number);
    if rev.current {
        push_str(&mut s, " *");
    } else {
        push_str(&mut s, "  ");
    }
    push_str(&mut s, "  ");
    push_str(&mut s, rev.age.as_str());
    push_str(&mut s, "  ");
    push_str(&mut s, rev.image.as_str());
    s
}

/// A revision's tint: a staged roll-back target warns, the live revision is
/// ink, the rest are dim.
pub fn revision_tint(rev: &Revision, staged_rollback: Option<i64>) -> (r: Tint)
    ensures
        r == if staged_rollback == Some(rev.number) {
            Tint::Warn
        } else if rev.current {
            Tint::Ink
        } else {
            Tint::Dim
        },
{
    match staged_rollback {
        Some(n) => if n == rev.number {
            return Tint::Warn;
        },
        None => {},
    }
    if rev.current {
        Tint::Ink
    } else {
        Tint::Dim
    }
}

/// The roll-back control beside a revision: none on the live revision;
/// otherwise its label, and the revision a click on it stages (never one
/// already staged).
pub fn rollback_control(rev: &Revision, staged_rollback: Option<i64>, clicked: bool) -> (r: Option<(&'static str, Option<i64>)>)
    ensures
        rev.current ==> r is None,
        !rev.current ==> (r matches Some((label, stage)) && label@ == (if staged_rollback == Some(
            rev.number,
        ) {
            "staged"@
        } else {
            "rollback"@
        }) && stage == if clicked && staged_rollback != Some(rev.number) {
            Some(rev.number)
        } else {
            None
        }),
{
    if rev.current {
        return None;
    }
    let staged_here = match staged_rollback {
        Some(n) => n == rev.number,
        None => false,
    };
    let label = if staged_here {
        "staged"
    } else {
        "rollback"
    };
    Some((label, if clicked && !staged_here { Some(rev.number) } else { None }))
}

/// The live image change between the previous and the current revision.
pub fn image_change_line(container: &str, from: Option<&str>, to: Option<&str>) -> (r: String)
    ensures
        r@ == container@ + ": "@ + (match from {
            Some(f) => f@,
            None => "(none)"@,
        }) + " -> "@ + match to {
            Some(t) => t@,
            None => "(none)"@,
        },
{
    let mut s = String::new();
    push_str(&mut s, container);
    push_str(&mut s, ": ");
    match from {
        Some(f) => push_str(&mut s, f),
        None => push_str(&mut s, "(none)"),
    }
    push_str(&mut s, " -> ");
    match to {
        Some(t) => push_str(&mut s, t),
        None => push_str(&mut s, "(none)"),
    }
    s
}

// --- chronicle ----------------------------------------------------------

/// One recent event of the workload.
#[derive(Debug, Clone)]
pub struct EventRow {
    pub reason: String,
    pub count: i32,
    pub message: String,
    pub warning: bool,
}

/// An event's line (a count below one shows as one) and tint.
pub fn event_line(e: &EventRow) -> (r: (String, Tint))
    ensures
        r.0@ == e.reason@ + " x"@ + int_dec(if e.count < 1 { 1 } else { e.count as int }) + " "@
            + e.message@,
        r.1 == if e.warning {
            Tint::Warn
        } else {
            Tint::Dim
        },
{
    let mut s = String::new();
    push_str(&mut s, e.reason.as_str());
    push_str(&mut s, " x");
    push_int(&mut s, if e.count < 1 { 1 } else { e.count as i64 });
    push_str(&mut s, " ");
    push_str(&mut s, e.message.as_str());
    (s, if e.warning { Tint::Warn } else { Tint::Dim })
}

} // verus!
