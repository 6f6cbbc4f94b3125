//! The Game Day console: which drill is chosen, against what, with which
//! knobs, and what a frame's clicks ask the caller to do. Planning the
//! drill (its steps, blast radius and restore) happens elsewhere; its
//! verdict is handed in.

use vstd::prelude::*;
use crate::advisor::WorkloadRef;
use crate::text::{dec, push_dec, push_str};
use crate::ui::{cut_spec, truncate_str};

verus! {

/// The drill kinds, in the order the console lists them.
#[derive(Debug, Clone, Copy, PartialEq, Eq, Structural)]
pub enum ChaosKind {
    Outage,
    KillOne,
    KillAll,
    KillPercent,
    ScaleSpike,
    BrokenImage,
    Partition,
    NodeFailure,
    CordonFreeze,
}

/// The label the console shows for a drill kind.
pub open spec fn kind_label(k: ChaosKind) -> Seq<char> {
    match k {
        ChaosKind::Outage => "Outage (scale to 0)"@,
        ChaosKind::KillOne => "Kill one pod"@,
        ChaosKind::KillAll => "Kill all pods"@,
        ChaosKind::KillPercent => "Kill a percentage"@,
        ChaosKind::ScaleSpike => "Scale spike (surge)"@,
        ChaosKind::BrokenImage => "Broken image roll"@,
        ChaosKind::Partition => "Partition (network)"@,
        ChaosKind::NodeFailure => "Node failure (drain)"@,
        ChaosKind::CordonFreeze => "Cordon (freeze)"@,
    }
}

/// Node-scoped drills pick a node, not a workload.
pub open spec fn kind_is_node(k: ChaosKind) -> bool {
    k == ChaosKind::NodeFailure || k == ChaosKind::CordonFreeze
}

/// The drill kind a `--chaos-exp` flag value names.
pub open spec fn kind_from_flag(s: Seq<char>) -> Option<ChaosKind> {
    if s == "kill-one"@ {
        Some(ChaosKind::KillOne)
    } else if s == "kill-all"@ {
        Some(ChaosKind::KillAll)
    } else if s == "kill-percent"@ {
        Some(ChaosKind::KillPercent)
    } else if s == "scale-spike"@ {
        Some(ChaosKind::ScaleSpike)
    } else if s == "outage"@ {
        Some(ChaosKind::Outage)
    } else if s == "broken-image"@ {
        Some(ChaosKind::BrokenImage)
    } else if s == "partition"@ {
        Some(ChaosKind::Partition)
    } else if s == "node-failure"@ {
        Some(ChaosKind::NodeFailure)
    } else if s == "cordon-freeze"@ {
        Some(ChaosKind::CordonFreeze)
    } else {
        None
    }
}

fn str_is(s: &String, lit: &str) -> (r: bool)
    ensures
        r == (s@ == lit@),
{
    let l = String::from_str(lit);
    *s == l
}

impl ChaosKind {
    /// Every drill kind, in console order.
    pub fn all() -> (r: Vec<ChaosKind>)
        ensures
            r@ == seq![
                ChaosKind::Outage,
                ChaosKind::KillOne,
                ChaosKind::KillAll,
                ChaosKind::KillPercent,
                ChaosKind::ScaleSpike,
                ChaosKind::BrokenImage,
                ChaosKind::Partition,
                ChaosKind::NodeFailure,
                ChaosKind::CordonFreeze,
            ],
    {
        vec![
            ChaosKind::Outage,
            ChaosKind::KillOne,
            ChaosKind::KillAll,
            ChaosKind::KillPercent,
            ChaosKind::ScaleSpike,
            ChaosKind::BrokenImage,
            ChaosKind::Partition,
            ChaosKind::NodeFailure,
            ChaosKind::CordonFreeze,
        ]
    }

    /// The console label.
    pub fn label(self) -> (r: &'static str)
        ensures
            r@ == kind_label(self),
    {
        match self {
            ChaosKind::Outage => "Outage (scale to 0)",
            ChaosKind::KillOne => "Kill one pod",
            ChaosKind::KillAll => "Kill all pods",
            ChaosKind::KillPercent => "Kill a percentage",
            ChaosKind::ScaleSpike => "Scale spike (surge)",
            ChaosKind::BrokenImage => "Broken image roll",
            ChaosKind::Partition => "Partition (network)",
            ChaosKind::NodeFailure => "Node failure (drain)",
            ChaosKind::CordonFreeze => "Cordon (freeze)",
        }
    }

    /// Whether the drill targets a node.
    pub fn is_node(self) -> (r: bool)
        ensures
            r == kind_is_node(self),
    {
        match self {
            ChaosKind::NodeFailure | ChaosKind::CordonFreeze => true,
            _ => false,
        }
    }

    /// Parses the dev `--chaos-exp` flag value.
    pub fn from_flag(s: &str) -> (r: Option<ChaosKind>)
        ensures
            r == kind_from_flag(s@),
    {
        let v = String::from_str(s);
        if str_is(&v, "kill-one") {
            Some(ChaosKind::KillOne)
        } else if str_is(&v, "kill-all") {
            Some(ChaosKind::KillAll)
        } else if str_is(&v, "kill-percent") {
            Some(ChaosKind::KillPercent)
        } else if str_is(&v, "scale-spike") {
            Some(ChaosKind::ScaleSpike)
        } else if str_is(&v, "outage") {
            Some(ChaosKind::Outage)
        } else if str_is(&v, "broken-image") {
            Some(ChaosKind::BrokenImage)
        } else if str_is(&v, "partition") {
            Some(ChaosKind::Partition)
        } else if str_is(&v, "node-failure") {
            Some(ChaosKind::NodeFailure)
        } else if str_is(&v, "cordon-freeze") {
            Some(ChaosKind::CordonFreeze)
        } else {
            None
        }
    }
}

/// Which direction a network partition denies.
#[derive(Debug, Clone, Copy, PartialEq, Eq, Structural)]
pub enum PartitionDir {
    Both,
    Ingress,
    Egress,
}

/// A fully specified drill.
#[derive(Debug, Clone)]
pub enum Experiment {
    Outage { workload: WorkloadRef },
    KillOne { workload: WorkloadRef },
    KillAll { workload: WorkloadRef },
    KillPercent { workload: WorkloadRef, pct: u8 },
    ScaleSpike { workload: WorkloadRef, factor: u32 },
    BrokenImage { workload: WorkloadRef },
    Partition { workload: WorkloadRef, dir: PartitionDir },
    NodeFailure { node: String },
    CordonFreeze { node: String },
}

/// What a drill targets.
#[derive(Debug, Clone)]
pub enum Subject {
    Workload(WorkloadRef),
    Node(String),
}

/// Two workload references name the same workload.
pub open spec fn same_wref(a: WorkloadRef, b: WorkloadRef) -> bool {
    a.kind@ == b.kind@ && a.namespace@ == b.namespace@ && a.name@ == b.name@
}

/// Two subjects are the same target.
pub open spec fn same_subject(a: Subject, b: Subject) -> bool {
    match (a, b) {
        (Subject::Workload(x), Subject::Workload(y)) => same_wref(x, y),
        (Subject::Node(x), Subject::Node(y)) => x@ == y@,
        _ => false,
    }
}

/// The subject an experiment targets.
pub open spec fn experiment_subject(e: Experiment) -> Subject {
    match e {
        Experiment::Outage { workload } => Subject::Workload(workload),
        Experiment::KillOne { workload } => Subject::Workload(workload),
        Experiment::KillAll { workload } => Subject::Workload(workload),
        Experiment::KillPercent { workload, .. } => Subject::Workload(workload),
        Experiment::ScaleSpike { workload, .. } => Subject::Workload(workload),
        Experiment::BrokenImage { workload } => Subject::Workload(workload),
        Experiment::Partition { workload, .. } => Subject::Workload(workload),
        Experiment::NodeFailure { node } => Subject::Node(node),
        Experiment::CordonFreeze { node } => Subject::Node(node),
    }
}

fn clone_wref(w: &WorkloadRef) -> (r: WorkloadRef)
    ensures
        r == *w,
{
    WorkloadRef { kind: w.kind.clone(), namespace: w.namespace.clone(), name: w.name.clone() }
}

fn same_wref_exec(a: &WorkloadRef, b: &WorkloadRef) -> (r: bool)
    ensures
        r == same_wref(*a, *b),
{
    a.kind == b.kind && a.namespace == b.namespace && a.name == b.name
}

impl Experiment {
    /// The subject this experiment targets.
    pub fn subject(&self) -> (r: Subject)
        ensures
            r == experiment_subject(*self),
    {
        match self {
            Experiment::Outage { workload } => Subject::Workload(clone_wref(workload)),
            Experiment::KillOne { workload } => Subject::Workload(clone_wref(workload)),
            Experiment::KillAll { workload } => Subject::Workload(clone_wref(workload)),
            Experiment::KillPercent { workload, .. } => Subject::Workload(clone_wref(workload)),
            Experiment::ScaleSpike { workload, .. } => Subject::Workload(clone_wref(workload)),
            Experiment::BrokenImage { workload } => Subject::Workload(clone_wref(workload)),
            Experiment::Partition { workload, .. } => Subject::Workload(clone_wref(workload)),
            Experiment::NodeFailure { node } => Subject::Node(node.clone()),
            Experiment::CordonFreeze { node } => Subject::Node(node.clone()),
        }
    }
}

/// Whether two subjects are the same target.
pub fn subject_eq(a: &Subject, b: &Subject) -> (r: bool)
    ensures
        r == same_subject(*a, *b),
{
    match (a, b) {
        (Subject::Workload(x), Subject::Workload(y)) => same_wref_exec(x, y),
        (Subject::Node(x), Subject::Node(y)) => *x == *y,
        _ => false,
    }
}

/// The default kill percentage.
pub const DEFAULT_KILL_PCT: u8 = 50;
/// The default surge factor.
pub const DEFAULT_SPIKE_FACTOR: u32 = 3;

/// The Game Day console's state: the chosen target(s), drill kind and
/// per-drill knobs.
#[derive(Debug, Clone)]
pub struct Chaos {
    pub target: Option<WorkloadRef>,
    pub node_target: Option<String>,
    pub kind: ChaosKind,
    /// Kill percentage, a multiple of ten within `[10, 100]`.
    pub kill_pct: u8,
    /// Surge factor within `[2, 10]`.
    pub spike_factor: u32,
    pub partition_dir: PartitionDir,
    /// Arm an automatic restore of a restorable drill after a delay.
    pub auto_restore: bool,
}

/// The knobs stay in range.
pub open spec fn knobs_ok(c: Chaos) -> bool {
    10 <= c.kill_pct <= 100 && 2 <= c.spike_factor <= 10
}

/// The experiment for the chosen kind and target, if a target is chosen.
pub open spec fn experiment_spec(c: Chaos) -> Option<Experiment> {
    if kind_is_node(c.kind) {
        match c.node_target {
            Some(n) => Some(
                if c.kind == ChaosKind::NodeFailure {
                    Experiment::NodeFailure { node: n }
                } else {
                    Experiment::CordonFreeze { node: n }
                },
            ),
            None => None,
        }
    } else {
        match c.target {
            Some(w) => Some(
                match c.kind {
                    ChaosKind::Outage => Experiment::Outage { workload: w },
                    ChaosKind::KillOne => Experiment::KillOne { workload: w },
                    ChaosKind::KillAll => Experiment::KillAll { workload: w },
                    ChaosKind::KillPercent => Experiment::KillPercent { workload: w, pct: c.kill_pct },
                    ChaosKind::ScaleSpike => Experiment::ScaleSpike {
                        workload: w,
                        factor: c.spike_factor,
                    },
                    ChaosKind::BrokenImage => Experiment::BrokenImage { workload: w },
                    _ => Experiment::Partition { workload: w, dir: c.partition_dir },
                },
            ),
            None => None,
        }
    }
}

/// What a frame's interaction asks the caller to do.
#[derive(Debug, Clone)]
pub enum ChaosAction {
    Nothing,
    Close,
    /// Raise the confirm for this experiment, then run it, arming an
    /// automatic restore when asked.
    Run { exp: Experiment, auto_restore: bool },
    /// Undo the live drill now.
    Restore,
}

impl Chaos {
    /// A console aimed at `target` (if any), on the outage drill with the
    /// default knobs.
    pub fn new(target: Option<WorkloadRef>) -> (r: Chaos)
        ensures
            r.target == target,
            r.node_target is None,
            r.kind == ChaosKind::Outage,
            r.kill_pct == DEFAULT_KILL_PCT,
            r.spike_factor == DEFAULT_SPIKE_FACTOR,
            r.partition_dir == PartitionDir::Both,
            !r.auto_restore,
            knobs_ok(r),
    {
        Chaos {
            target,
            node_target: None,
            kind: ChaosKind::Outage,
            kill_pct: DEFAULT_KILL_PCT,
            spike_factor: DEFAULT_SPIKE_FACTOR,
            partition_dir: PartitionDir::Both,
            auto_restore: false,
        }
    }

    /// Pre-selects a drill kind.
    pub fn set_kind(&mut self, kind: ChaosKind)
        ensures
            *final(self) == (Chaos { kind, ..*old(self) }),
    {
        self.kind = kind;
    }

    /// Aims the console at a workload.
    pub fn pick_target(&mut self, target: WorkloadRef)
        ensures
            *final(self) == (Chaos { target: Some(target), ..*old(self) }),
    {
        self.target = Some(target);
    }

    /// Aims the console at a node.
    pub fn pick_node(&mut self, node: String)
        ensures
            *final(self) == (Chaos { node_target: Some(node), ..*old(self) }),
    {
        self.node_target = Some(node);
    }

    /// Chooses the partition direction.
    pub fn set_partition_dir(&mut self, dir: PartitionDir)
        ensures
            *final(self) == (Chaos { partition_dir: dir, ..*old(self) }),
    {
        self.partition_dir = dir;
    }

    /// Flips the automatic-restore box.
    pub fn toggle_auto_restore(&mut self)
        ensures
            *final(self) == (Chaos { auto_restore: !old(self).auto_restore, ..*old(self) }),
    {
        self.auto_restore = !self.auto_restore;
    }

    /// One click of the kill-percentage stepper: ten points up or down,
    /// clamped to `[10, 100]`.
    pub fn step_kill_pct(&mut self, up: bool)
        ensures
            final(self).kill_pct == (if up {
                if old(self).kill_pct + 10 > 100 {
                    100
                } else if old(self).kill_pct + 10 < 10 {
                    10
                } else {
                    old(self).kill_pct + 10
                }
            } else {
                if old(self).kill_pct - 10 < 10 {
                    10
                } else if old(self).kill_pct - 10 > 100 {
                    100
                } else {
                    old(self).kill_pct - 10
                }
            }),
            *final(self) == (Chaos { kill_pct: final(self).kill_pct, ..*old(self) }),
    {
        let v: i32 = self.kill_pct as i32 + if up { 10 } else { -10 };
        let c: i32 = if v < 10 {
            10
        } else if v > 100 {
            100
        } else {
            v
        };
        self.kill_pct = c as u8;
    }

    /// One click of the surge-factor stepper: one up or down, clamped to
    /// `[2, 10]`.
    pub fn step_spike_factor(&mut self, up: bool)
        ensures
            final(self).spike_factor == (if up {
                if old(self).spike_factor + 1 > 10 {
                    10
                } else if old(self).spike_factor + 1 < 2 {
                    2
                } else {
                    old(self).spike_factor + 1
                }
            } else {
                if old(self).spike_factor - 1 < 2 {
                    2
                } else if old(self).spike_factor - 1 > 10 {
                    10
                } else {
                    old(self).spike_factor - 1
                }
            }),
            *final(self) == (Chaos { spike_factor: final(self).spike_factor, ..*old(self) }),
    {
        let v: i64 = self.spike_factor as i64 + if up { 1 } else { -1 };
        let c: i64 = if v < 2 {
            2
        } else if v > 10 {
            10
        } else {
            v
        };
        self.spike_factor = c as u32;
    }

    /// The experiment for the current kind and selection, if a target is
    /// chosen.
    pub fn experiment(&self) -> (r: Option<Experiment>)
        ensures
            r == experiment_spec(*self),
    {
        if self.kind.is_node() {
            match &self.node_target {
                Some(n) => {
                    let n2 = n.clone();
                    match self.kind {
                        ChaosKind::NodeFailure => Some(Experiment::NodeFailure { node: n2 }),
                        _ => Some(Experiment::CordonFreeze { node: n2 }),
                    }
                },
                None => None,
            }
        } else {
            match &self.target {
                Some(w0) => {
                    let w = clone_wref(w0);
                    Some(
                        match self.kind {
                            ChaosKind::Outage => Experiment::Outage { workload: w },
                            ChaosKind::KillOne => Experiment::KillOne { workload: w },
                            ChaosKind::KillAll => Experiment::KillAll { workload: w },
                            ChaosKind::KillPercent => Experiment::KillPercent {
                                workload: w,
                                pct: self.kill_pct,
                            },
                            ChaosKind::ScaleSpike => Experiment::ScaleSpike {
                                workload: w,
                                factor: self.spike_factor,
                            },
                            ChaosKind::BrokenImage => Experiment::BrokenImage { workload: w },
                            _ => Experiment::Partition { workload: w, dir: self.partition_dir },
                        },
                    )
                },
                None => None,
            }
        }
    }

    /// The subject the current experiment targets.
    pub fn subject(&self) -> (r: Option<Subject>)
        ensures
            match experiment_spec(*self) {
                Some(e) => r == Some(experiment_subject(e)),
                None => r is None,
            },
    {
        match self.experiment() {
            Some(e) => Some(e.subject()),
            None => None,
        }
    }

    /// Whether a live drill session's scorecard belongs under the current
    /// preview: only for the subject currently selected.
    pub fn shows_scorecard(&self, session_subject: &Subject) -> (r: bool)
        ensures
            r == match experiment_spec(*self) {
                Some(e) => same_subject(experiment_subject(e), *session_subject),
                None => false,
            },
    {
        match self.subject() {
            Some(s) => subject_eq(&s, session_subject),
            None => false,
        }
    }

    /// The drill the Run button would start, given the planner's verdict
    /// on the current experiment: none without a target or when the plan
    /// was refused; otherwise the experiment, with the automatic restore
    /// armed only for a restorable drill whose box is ticked.
    pub fn runnable(&self, refused: bool, restorable: bool) -> (r: Option<(Experiment, bool)>)
        ensures
            match experiment_spec(*self) {
                Some(e) => if refused {
                    r is None
                } else {
                    r == Some((e, restorable && self.auto_restore))
                },
                None => r is None,
            },
    {
        match self.experiment() {
            Some(e) => if refused {
                None
            } else {
                Some((e, restorable && self.auto_restore))
            },
            None => None,
        }
    }
}

/// A frame's action, by precedence: a run beats a restore beats a close.
pub open spec fn resolve_action_spec(run: Option<(Experiment, bool)>, restore: bool, close: bool) -> ChaosAction {
    match run {
        Some((exp, auto_restore)) => ChaosAction::Run { exp, auto_restore },
        None => if restore {
            ChaosAction::Restore
        } else if close {
            ChaosAction::Close
        } else {
            ChaosAction::Nothing
        },
    }
}

/// Resolves a frame's clicks into one action: the Run button (if it was
/// clicked while enabled), then Restore, then closing the window.
pub fn resolve_action(run: Option<(Experiment, bool)>, restore: bool, close: bool) -> (r: ChaosAction)
    ensures
        r == resolve_action_spec(run, restore, close),
{
    match run {
        Some((exp, auto_restore)) => ChaosAction::Run { exp, auto_restore },
        None => if restore {
            ChaosAction::Restore
        } else if close {
            ChaosAction::Close
        } else {
            ChaosAction::Nothing
        },
    }
}

/// The knobs never leave their ranges, whatever is clicked.
pub proof fn lemma_steppers_keep_knobs_in_range(c: Chaos, up: bool)
    requires
        knobs_ok(c),
    ensures
        ({
            let k = if up {
                if c.kill_pct + 10 > 100 {
                    100
                } else {
                    c.kill_pct + 10
                }
            } else {
                if c.kill_pct - 10 < 10 {
                    10
                } else {
                    c.kill_pct - 10
                }
            };
            10 <= k <= 100
        }),
{
}

/// A node drill runs only against a chosen node, a workload drill only
/// against a chosen workload: the experiment always targets what the
/// console selected.
pub proof fn lemma_experiment_targets_the_selection(c: Chaos)
    ensures
        match experiment_spec(c) {
            Some(e) => match experiment_subject(e) {
                Subject::Node(n) => kind_is_node(c.kind) && c.node_target == Some(n),
                Subject::Workload(w) => !kind_is_node(c.kind) && c.target == Some(w),
            },
            None => if kind_is_node(c.kind) {
                c.node_target is None
            } else {
                c.target is None
            },
        },
{
}

/// The drill kind an experiment is.
pub open spec fn experiment_kind(e: Experiment) -> ChaosKind {
    match e {
        Experiment::Outage { .. } => ChaosKind::Outage,
        Experiment::KillOne { .. } => ChaosKind::KillOne,
        Experiment::KillAll { .. } => ChaosKind::KillAll,
        Experiment::KillPercent { .. } => ChaosKind::KillPercent,
        Experiment::ScaleSpike { .. } => ChaosKind::ScaleSpike,
        Experiment::BrokenImage { .. } => ChaosKind::BrokenImage,
        Experiment::Partition { .. } => ChaosKind::Partition,
        Experiment::NodeFailure { .. } => ChaosKind::NodeFailure,
        Experiment::CordonFreeze { .. } => ChaosKind::CordonFreeze,
    }
}

/// The console runs the drill it shows: whenever the chosen target gives
/// an experiment, that experiment is of the selected kind and carries the
/// console's own knobs (kill percentage, surge factor, partition
/// direction); and a target of the right sort always gives one.
pub proof fn lemma_experiment_is_the_selected_drill(c: Chaos)
    ensures
        experiment_spec(c) matches Some(e) ==> experiment_kind(e) == c.kind,
        experiment_spec(c) matches Some(Experiment::KillPercent { pct, .. }) ==> pct == c.kill_pct,
        experiment_spec(c) matches Some(Experiment::ScaleSpike { factor, .. }) ==> factor
            == c.spike_factor,
        experiment_spec(c) matches Some(Experiment::Partition { dir, .. }) ==> dir
            == c.partition_dir,
        (kind_is_node(c.kind) && c.node_target is Some) ==> experiment_spec(c) is Some,
        (!kind_is_node(c.kind) && c.target is Some) ==> experiment_spec(c) is Some,
{
}

/// One action per frame, by precedence: an enabled Run click starts that
/// drill with its restore flag; otherwise Restore; otherwise closing;
/// otherwise nothing.
pub proof fn lemma_run_beats_restore_beats_close(
    run: Option<(Experiment, bool)>,
    restore: bool,
    close: bool,
)
    ensures
        run matches Some((e, a)) ==> resolve_action_spec(run, restore, close) == (ChaosAction::Run {
            exp: e,
            auto_restore: a,
        }),
        run is None && restore ==> resolve_action_spec(run, restore, close) is Restore,
        run is None && !restore && close ==> resolve_action_spec(run, restore, close) is Close,
        run is None && !restore && !close ==> resolve_action_spec(run, restore, close) is Nothing,
{
}

// --- the target pickers -------------------------------------------------

/// The candidates a picker offers: those not in a protected scope, in
/// order.
pub open spec fn eligible<T>(items: Seq<(T, bool)>) -> Seq<T>
    decreases items.len(),
{
    if items.len() == 0 {
        Seq::empty()
    } else if items.last().1 {
        eligible(items.drop_last())
    } else {
        eligible(items.drop_last()).push(items.last().0)
    }
}

/// The pickers offer exactly the candidates outside a protected scope, in
/// their order: a protected workload or node is never offered, and no
/// other is dropped.
pub proof fn lemma_pickers_offer_exactly_the_unprotected<T>(items: Seq<(T, bool)>)
    ensures
        eligible(items) == items.filter(|x: (T, bool)| !x.1).map_values(|x: (T, bool)| x.0),
    decreases items.len(),
{
    reveal(Seq::filter);
    if items.len() > 0 {
        let init = items.drop_last();
        lemma_pickers_offer_exactly_the_unprotected(init);
        let f0 = init.filter(|x: (T, bool)| !x.1);
        if !items.last().1 {
            assert(f0.push(items.last()).map_values(|x: (T, bool)| x.0) =~= f0.map_values(
                |x: (T, bool)| x.0,
            ).push(items.last().0));
        }
    }
}

/// A workload's picker row: `kind ns/name` with the name cut.
pub open spec fn workload_row(w: WorkloadRef) -> Seq<char> {
    w.kind@ + " "@ + w.namespace@ + "/"@ + cut_spec(w.name@, 22, '~')
}

/// One picker row: its text and whether it is the chosen target.
#[derive(Debug, Clone, PartialEq, Eq)]
pub struct PickRow {
    pub text: String,
    pub chosen: bool,
}

/// The workload picker: the eligible workloads (protected namespaces left
/// out), the first `max_rows` shown, the chosen one marked, and how many
/// more there are.
pub fn workload_picker(items: &Vec<(WorkloadRef, bool)>, target: &Option<WorkloadRef>, max_rows: usize) -> (r: (Vec<WorkloadRef>, Vec<PickRow>, Option<String>))
    ensures
        r.0@ == eligible(items@),
        r.1@.len() == if r.0@.len() > max_rows { max_rows as int } else { r.0@.len() as int },
        forall|k: int|
            0 <= k < r.1@.len() ==> (#[trigger] r.1@[k]).text@ == workload_row(r.0@[k]) && r.1@[k].chosen
                == match *target {
                Some(t) => same_wref(t, r.0@[k]),
                None => false,
            },
        r.0@.len() > max_rows ==> (r.2 matches Some(m) && m@ == "+"@ + dec((r.0@.len() - max_rows) as nat)
            + " more"@),
        r.0@.len() <= max_rows ==> r.2 is None,
{
    let mut el: Vec<WorkloadRef> = Vec::new();
    let mut i: usize = 0;
    while i < items.len()
        invariant
            i <= items@.len(),
            el@ == eligible(items@.take(i as int)),
        decreases items.len() - i,
    {
        assert(items@.take(i + 1).drop_last() == items@.take(i as int));
        assert(items@.take(i + 1).last() == items@[i as int]);
        if !items[i].1 {
            el.push(clone_wref(&items[i].0));
        }
        i = i + 1;
    }
    assert(items@.take(items@.len() as int) == items@);
    let shown = if el.len() > max_rows {
        max_rows
    } else {
        el.len()
    };
    let mut rows: Vec<PickRow> = Vec::new();
    let mut k: usize = 0;
    while k < shown
        invariant
            shown <= el@.len(),
            k <= shown,
            rows@.len() == k,
            forall|j: int|
                0 <= j < k ==> (#[trigger] rows@[j]).text@ == workload_row(el@[j]) && rows@[j].chosen
                    == match *target {
                    Some(t) => same_wref(t, el@[j]),
                    None => false,
                },
        decreases shown - k,
    {
        let w = &el[k];
        let mut t = String::new();
        push_str(&mut t, w.kind.as_str());
        push_str(&mut t, " ");
        push_str(&mut t, w.namespace.as_str());
        push_str(&mut t, "/");
        let cut = truncate_str(w.name.as_str(), 22);
        push_str(&mut t, cut.as_str());
        let chosen = match target {
            Some(tg) => same_wref_exec(tg, w),
            None => false,
        };
        rows.push(PickRow { text: t, chosen });
        k = k + 1;
    }
    let more = if el.len() > max_rows {
        let mut m = String::new();
        push_str(&mut m, "+");
        push_dec(&mut m, (el.len() - max_rows) as u64);
        push_str(&mut m, " more");
        Some(m)
    } else {
        None
    };
    (el, rows, more)
}

/// The node picker: the eligible nodes (control-plane nodes left out),
/// the first `max_rows` shown with their names cut, the chosen one marked;
/// then a note that none can be drained, or how many more there are.
pub fn node_picker(items: &Vec<(String, bool)>, target: &Option<String>, max_rows: usize) -> (r: (Vec<String>, Vec<PickRow>, Option<String>))
    ensures
        r.0@.map_values(|s: String| s@) == eligible(items@).map_values(|s: String| s@),
        r.1@.len() == if r.0@.len() > max_rows { max_rows as int } else { r.0@.len() as int },
        forall|k: int|
            0 <= k < r.1@.len() ==> (#[trigger] r.1@[k]).text@ == cut_spec(r.0@[k]@, 32, '~')
                && r.1@[k].chosen == match *target {
                Some(t) => t@ == r.0@[k]@,
                None => false,
            },
        r.0@.len() == 0 ==> (r.2 matches Some(m) && m@ == "no drainable nodes"@),
        r.0@.len() > max_rows ==> (r.2 matches Some(m) && m@ == "+"@ + dec(
            (r.0@.len() - max_rows) as nat,
        ) + " more"@),
        0 < r.0@.len() <= max_rows ==> r.2 is None,
{
    let mut el: Vec<String> = Vec::new();
    let mut i: usize = 0;
    while i < items.len()
        invariant
            i <= items@.len(),
            el@.map_values(|s: String| s@) == eligible(items@.take(i as int)).map_values(|s: String| s@),
        decreases items.len() - i,
    {
        assert(items@.take(i + 1).drop_last() == items@.take(i as int));
        assert(items@.take(i + 1).last() == items@[i as int]);
        if !items[i].1 {
            let ghost before = el@;
            el.push(items[i].0.clone());
            assert(el@.map_values(|s: String| s@) == before.map_values(|s: String| s@).push(items@[i as int].0@));
        }
        i = i + 1;
    }
    assert(items@.take(items@.len() as int) == items@);
    let shown = if el.len() > max_rows {
        max_rows
    } else {
        el.len()
    };
    let mut rows: Vec<PickRow> = Vec::new();
    let mut k: usize = 0;
    while k < shown
        invariant
            shown <= el@.len(),
            k <= shown,
            rows@.len() == k,
            forall|j: int|
                0 <= j < k ==> (#[trigger] rows@[j]).text@ == cut_spec(el@[j]@, 32, '~')
                    && rows@[j].chosen == match *target {
                    Some(t) => t@ == el@[j]@,
                    None => false,
                },
        decreases shown - k,
    {
        let n = &el[k];
        let chosen = match target {
            Some(t) => *t == *n,
            None => false,
        };
        rows.push(PickRow { text: truncate_str(n.as_str(), 32), chosen });
        k = k + 1;
    }
    let note = if el.len() == 0 {
        Some(String::from_str("no drainable nodes"))
    } else if el.len() > max_rows {
        let mut m = String::new();
        push_str(&mut m, "+");
        push_dec(&mut m, (el.len() - max_rows) as u64);
        push_str(&mut m, " more");
        Some(m)
    } else {
        None
    };
    (el, rows, note)
}

} // verus!
