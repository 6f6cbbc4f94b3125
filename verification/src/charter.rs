//! The Charter: the user's self-scoped RBAC ("what can I do here?") as a
//! resource x verb grid. The probes are resolved elsewhere; this module
//! turns resolved cells into grid rows and the header banner, and steps the
//! namespace the grid is focused on.

use vstd::prelude::*;
use crate::text::{dec, push_char, push_dec, push_str};

verus! {

/// How dangerous a probed capability is when granted.
#[derive(Debug, Clone, Copy, PartialEq, Eq, Structural)]
pub enum Risk {
    Normal,
    High,
    Critical,
}

/// The apiserver's answer to one access probe.
#[derive(Debug, Clone, Copy, PartialEq, Eq, Structural)]
pub enum Access {
    Allowed,
    Denied,
    Unknown,
}

/// One curated `can-i` probe: a verb on a resource (or subresource).
#[derive(Debug, Clone)]
pub struct Probe {
    pub resource: String,
    pub subresource: Option<String>,
    pub verb: String,
    pub risk: Risk,
}

/// A resolved probe.
#[derive(Debug, Clone)]
pub struct CharterCell {
    pub probe: Probe,
    pub access: Access,
    /// Whether this capability is on the dangerous list.
    pub dangerous: bool,
}

/// Whether the access reviews could be read at all.
#[derive(Debug, Clone)]
pub enum CharterTrust {
    /// The apiserver answered the access reviews.
    Answered,
    /// The apiserver did not answer; the payload is its error.
    Unavailable(String),
}

/// The resolved grid for one namespace plus the cluster-scoped band.
#[derive(Debug, Clone)]
pub struct Charter {
    pub namespace: String,
    pub trust: CharterTrust,
    pub allowed: usize,
    pub denied: usize,
    pub unknown: usize,
    pub dangerous_granted: usize,
    pub ns_cells: Vec<CharterCell>,
    pub cluster_cells: Vec<CharterCell>,
}

/// The mark drawn in a cell: allowed / denied / unknown.
#[derive(Debug, Clone, Copy, PartialEq, Eq, Structural)]
pub enum Mark {
    Yes,
    No,
    Maybe,
}

/// The theme role a cell or banner line is drawn in.
#[derive(Debug, Clone, Copy, PartialEq, Eq, Structural)]
pub enum Role {
    Good,
    Crit,
    Warn,
    Dim,
}

/// One rendered grid row: a resource label and its verb cells.
#[derive(Debug, Clone, PartialEq, Eq)]
pub struct CharterLine {
    pub label: String,
    /// (verb, mark, role) per probed verb, in probe order.
    pub cells: Vec<(String, Mark, Role)>,
}

/// A cell's resource label: `resource` or `resource/subresource`.
pub open spec fn cell_label_spec(c: CharterCell) -> Seq<char> {
    match c.probe.subresource {
        Some(sub) => c.probe.resource@ + "/"@ + sub@,
        None => c.probe.resource@,
    }
}

/// A cell's mark and role: a granted dangerous capability pops (Crit for a
/// critical-risk grant, Warn otherwise), a granted benign one is Good, and
/// denied or unanswered cells are Dim.
pub open spec fn cell_mark_spec(c: CharterCell) -> (Mark, Role) {
    match c.access {
        Access::Allowed => (
            Mark::Yes,
            if c.dangerous && c.probe.risk == Risk::Critical {
                Role::Crit
            } else if c.dangerous {
                Role::Warn
            } else {
                Role::Good
            },
        ),
        Access::Denied => (Mark::No, Role::Dim),
        Access::Unknown => (Mark::Maybe, Role::Dim),
    }
}

/// The (verb, mark, role) token a cell contributes to its row.
pub open spec fn tok_spec(c: CharterCell) -> (Seq<char>, Mark, Role) {
    (c.probe.verb@, cell_mark_spec(c).0, cell_mark_spec(c).1)
}

/// The distinct labels of `cells`, in first-seen order.
pub open spec fn labels_spec(cells: Seq<CharterCell>) -> Seq<Seq<char>>
    decreases cells.len(),
{
    if cells.len() == 0 {
        Seq::empty()
    } else {
        let prev = labels_spec(cells.drop_last());
        if prev.contains(cell_label_spec(cells.last())) {
            prev
        } else {
            prev.push(cell_label_spec(cells.last()))
        }
    }
}

/// The tokens of the cells labelled `l`, in order.
pub open spec fn line_toks(cells: Seq<CharterCell>, l: Seq<char>) -> Seq<(Seq<char>, Mark, Role)>
    decreases cells.len(),
{
    if cells.len() == 0 {
        Seq::empty()
    } else {
        let rest = line_toks(cells.drop_last(), l);
        if cell_label_spec(cells.last()) == l {
            rest.push(tok_spec(cells.last()))
        } else {
            rest
        }
    }
}

/// The view of a row's cells.
pub open spec fn toks_view(v: Seq<(String, Mark, Role)>) -> Seq<(Seq<char>, Mark, Role)> {
    v.map_values(|t: (String, Mark, Role)| (t.0@, t.1, t.2))
}

/// `lines` is the grouping of `cells`: one row per distinct label in
/// first-seen order, each holding exactly the tokens of its cells, in order.
pub open spec fn grouped(lines: Seq<CharterLine>, cells: Seq<CharterCell>) -> bool {
    &&& lines.len() == labels_spec(cells).len()
    &&& forall|k: int|
        0 <= k < lines.len() ==> {
            &&& (#[trigger] lines[k]).label@ == labels_spec(cells)[k]
            &&& toks_view(lines[k].cells@) == line_toks(cells, labels_spec(cells)[k])
        }
}

fn cell_label(c: &CharterCell) -> (r: String)
    ensures
        r@ == cell_label_spec(*c),
{
    match &c.probe.subresource {
        Some(sub) => {
            let mut s = c.probe.resource.clone();
            push_char(&mut s, '/');
            push_str(&mut s, sub.as_str());
            proof {
                reveal_strlit("/");
                assert(s@ == c.probe.resource@ + "/"@ + sub@);
            }
            s
        },
        None => c.probe.resource.clone(),
    }
}

/// Maps one cell to its mark and role.
pub fn cell_mark(c: &CharterCell) -> (r: (Mark, Role))
    ensures
        r == cell_mark_spec(*c),
{
    match c.access {
        Access::Allowed => {
            let role = if c.dangerous && c.probe.risk == Risk::Critical {
                Role::Crit
            } else if c.dangerous {
                Role::Warn
            } else {
                Role::Good
            };
            (Mark::Yes, role)
        },
        Access::Denied => (Mark::No, Role::Dim),
        Access::Unknown => (Mark::Maybe, Role::Dim),
    }
}

fn position_of(labels: &Vec<String>, l: &String) -> (r: Option<usize>)
    ensures
        match r {
            Some(i) => i < labels@.len() && labels@[i as int]@ == l@,
            None => forall|i: int| 0 <= i < labels@.len() ==> labels@[i]@ != l@,
        },
{
    let mut i: usize = 0;
    while i < labels.len()
        invariant
            i <= labels@.len(),
            forall|j: int| 0 <= j < i ==> labels@[j]@ != l@,
        decreases labels.len() - i,
    {
        if labels[i] == *l {
            return Some(i);
        }
        i = i + 1;
    }
    None
}

fn first_seen_labels(cells: &Vec<CharterCell>) -> (r: Vec<String>)
    ensures
        r@.map_values(|s: String| s@) == labels_spec(cells@),
{
    let mut labels: Vec<String> = Vec::new();
    let mut i: usize = 0;
    while i < cells.len()
        invariant
            i <= cells@.len(),
            labels@.map_values(|s: String| s@) == labels_spec(cells@.take(i as int)),
        decreases cells.len() - i,
    {
        let l = cell_label(&cells[i]);
        let ghost prev = labels_spec(cells@.take(i as int));
        assert(cells@.take(i + 1).drop_last() == cells@.take(i as int));
        assert(cells@.take(i + 1).last() == cells@[i as int]);
        match position_of(&labels, &l) {
            Some(j) => {
                assert(prev[j as int] == l@);
            },
            None => {
                assert(!prev.contains(l@)) by {
                    if prev.contains(l@) {
                        let j = choose|j: int| 0 <= j < prev.len() && prev[j] == l@;
                        assert(labels@[j]@ == prev[j]);
                    }
                }
                labels.push(l);
                assert(labels@.map_values(|s: String| s@) == prev.push(cell_label_spec(cells@[i as int])));
            },
        }
        i = i + 1;
    }
    assert(cells@.take(cells@.len() as int) == cells@);
    labels
}

fn toks_for(cells: &Vec<CharterCell>, l: &String) -> (r: Vec<(String, Mark, Role)>)
    ensures
        toks_view(r@) == line_toks(cells@, l@),
{
    let mut out: Vec<(String, Mark, Role)> = Vec::new();
    let mut i: usize = 0;
    while i < cells.len()
        invariant
            i <= cells@.len(),
            toks_view(out@) == line_toks(cells@.take(i as int), l@),
        decreases cells.len() - i,
    {
        assert(cells@.take(i + 1).drop_last() == cells@.take(i as int));
        assert(cells@.take(i + 1).last() == cells@[i as int]);
        let c = &cells[i];
        let lab = cell_label(c);
        if lab == *l {
            let (mark, role) = cell_mark(c);
            let ghost before = out@;
            out.push((c.probe.verb.clone(), mark, role));
            assert(toks_view(out@) == toks_view(before).push(tok_spec(*c)));
        }
        i = i + 1;
    }
    assert(cells@.take(cells@.len() as int) == cells@);
    out
}

/// Groups a band's cells into per-resource rows, in first-seen order.
/// Grouping is by label irrespective of position, so a resource whose
/// probes are not contiguous still gets one row.
pub fn charter_lines(cells: &Vec<CharterCell>) -> (r: Vec<CharterLine>)
    ensures
        grouped(r@, cells@),
{
    let labels = first_seen_labels(cells);
    let ghost ls = labels_spec(cells@);
    let mut lines: Vec<CharterLine> = Vec::new();
    let mut k: usize = 0;
    while k < labels.len()
        invariant
            labels@.map_values(|s: String| s@) == ls,
            ls == labels_spec(cells@),
            k <= labels@.len(),
            lines@.len() == k,
            forall|j: int|
                0 <= j < k ==> {
                    &&& (#[trigger] lines@[j]).label@ == ls[j]
                    &&& toks_view(lines@[j].cells@) == line_toks(cells@, ls[j])
                },
        decreases labels.len() - k,
    {
        let l = labels[k].clone();
        assert(l@ == ls[k as int]);
        let toks = toks_for(cells, &l);
        lines.push(CharterLine { label: l, cells: toks });
        k = k + 1;
    }
    lines
}


/// The view of a list of (text, role) lines.
pub open spec fn lines_view(v: Seq<(String, Role)>) -> Seq<(Seq<char>, Role)> {
    v.map_values(|t: (String, Role)| (t.0@, t.1))
}

/// Green when the count is non-zero, else Dim.
pub open spec fn good_if(n: nat) -> Role {
    if n > 0 {
        Role::Good
    } else {
        Role::Dim
    }
}

/// The header banner: a single Crit line when the reviews could not be
/// read; otherwise the capability breadth (green only when something is
/// actually allowed), the dangerous grants (Crit when any), and a note on
/// unanswered cells when there are some.
pub open spec fn charter_banner_spec(c: Charter) -> Seq<(Seq<char>, Role)> {
    match c.trust {
        CharterTrust::Unavailable(err) => seq![
            (
                "couldn't read your access \u{2014} the apiserver didn't answer access reviews ("@
                    + err@ + "). needs authorization.k8s.io/v1."@,
                Role::Crit,
            ),
        ],
        CharterTrust::Answered => {
            let probed = c.allowed + c.denied + c.unknown;
            let base = seq![
                (
                    "you can do "@ + dec(c.allowed as nat) + " of "@ + dec(probed as nat)
                        + " probed actions here"@,
                    good_if(c.allowed as nat),
                ),
                (
                    dec(c.dangerous_granted as nat) + " dangerous capabilities granted"@,
                    if c.dangerous_granted > 0 {
                        Role::Crit
                    } else {
                        Role::Dim
                    },
                ),
            ];
            if c.unknown > 0 {
                base.push(
                    (
                        dec(c.unknown as nat) + " cell(s) the apiserver didn't answer (shown ?)"@,
                        Role::Dim,
                    ),
                )
            } else {
                base
            }
        },
    }
}

/// The header/trust banner lines.
pub fn charter_banner(c: &Charter) -> (r: Vec<(String, Role)>)
    requires
        c.allowed + c.denied + c.unknown <= usize::MAX,
    ensures
        lines_view(r@) == charter_banner_spec(*c),
{
    let mut out: Vec<(String, Role)> = Vec::new();
    match &c.trust {
        CharterTrust::Unavailable(err) => {
            let mut s = String::new();
            push_str(
                &mut s,
                "couldn't read your access \u{2014} the apiserver didn't answer access reviews (",
            );
            push_str(&mut s, err.as_str());
            push_str(&mut s, "). needs authorization.k8s.io/v1.");
            out.push((s, Role::Crit));
            assert(lines_view(out@) =~= charter_banner_spec(*c));
            return out;
        },
        CharterTrust::Answered => {},
    }
    let probed = c.allowed + c.denied + c.unknown;
    let mut s1 = String::new();
    push_str(&mut s1, "you can do ");
    push_dec(&mut s1, c.allowed as u64);
    push_str(&mut s1, " of ");
    push_dec(&mut s1, probed as u64);
    push_str(&mut s1, " probed actions here");
    out.push((s1, if c.allowed > 0 { Role::Good } else { Role::Dim }));
    let mut s2 = String::new();
    push_dec(&mut s2, c.dangerous_granted as u64);
    push_str(&mut s2, " dangerous capabilities granted");
    out.push((s2, if c.dangerous_granted > 0 { Role::Crit } else { Role::Dim }));
    if c.unknown > 0 {
        let mut s3 = String::new();
        push_dec(&mut s3, c.unknown as u64);
        push_str(&mut s3, " cell(s) the apiserver didn't answer (shown ?)");
        out.push((s3, Role::Dim));
    }
    assert(lines_view(out@) =~= charter_banner_spec(*c));
    out
}

/// Never paint "0 of N" green: the capability line is Good exactly when
/// something is allowed, and an unavailable charter is a single Crit line.
pub proof fn lemma_banner_never_green_when_powerless(c: Charter)
    ensures
        c.trust is Answered ==> (charter_banner_spec(c)[0].1 == Role::Good <==> c.allowed > 0),
        c.trust is Answered ==> (charter_banner_spec(c)[1].1 == Role::Crit
            <==> c.dangerous_granted > 0),
        c.trust is Unavailable ==> charter_banner_spec(c).len() == 1 && charter_banner_spec(
            c,
        )[0].1 == Role::Crit,
{
}

proof fn lemma_labels_distinct_and_cover(cells: Seq<CharterCell>)
    ensures
        forall|a: int, b: int|
            0 <= a < b < labels_spec(cells).len() ==> labels_spec(cells)[a] != labels_spec(
                cells,
            )[b],
        forall|i: int|
            0 <= i < cells.len() ==> labels_spec(cells).contains(cell_label_spec(#[trigger] cells[i])),
    decreases cells.len(),
{
    if cells.len() > 0 {
        let init = cells.drop_last();
        lemma_labels_distinct_and_cover(init);
        let prev = labels_spec(init);
        let l = cell_label_spec(cells.last());
        assert forall|i: int| 0 <= i < cells.len() implies labels_spec(cells).contains(
            cell_label_spec(#[trigger] cells[i]),
        ) by {
            if i < cells.len() - 1 {
                assert(cells[i] == init[i]);
                let j = choose|j: int| 0 <= j < prev.len() && prev[j] == cell_label_spec(init[i]);
                assert(labels_spec(cells)[j] == prev[j]);
            } else {
                if prev.contains(l) {
                } else {
                    assert(labels_spec(cells)[prev.len() as int] == l);
                }
            }
        }
    }
}

/// Every row of a band is a different resource, and every probed cell
/// has its resource's row: grouping never splits a resource in two and
/// never drops one.
pub proof fn lemma_charter_rows_distinct_and_complete(lines: Seq<CharterLine>, cells: Seq<CharterCell>)
    requires
        grouped(lines, cells),
    ensures
        forall|a: int, b: int| 0 <= a < b < lines.len() ==> lines[a].label@ != lines[b].label@,
        forall|i: int|
            0 <= i < cells.len() ==> exists|k: int|
                0 <= k < lines.len() && lines[k].label@ == cell_label_spec(#[trigger] cells[i]),
{
    lemma_labels_distinct_and_cover(cells);
    assert forall|a: int, b: int| 0 <= a < b < lines.len() implies lines[a].label@
        != lines[b].label@ by {
        assert(lines[a].label@ == labels_spec(cells)[a]);
        assert(lines[b].label@ == labels_spec(cells)[b]);
    }
    assert forall|i: int| 0 <= i < cells.len() implies exists|k: int|
        0 <= k < lines.len() && lines[k].label@ == cell_label_spec(#[trigger] cells[i]) by {
        let ls = labels_spec(cells);
        let k = choose|k: int| 0 <= k < ls.len() && ls[k] == cell_label_spec(cells[i]);
        assert(lines[k].label@ == ls[k]);
    }
}

/// How many verb cells the rows hold between them.
pub open spec fn cells_in(lines: Seq<CharterLine>) -> nat
    decreases lines.len(),
{
    if lines.len() == 0 {
        0
    } else {
        cells_in(lines.drop_last()) + lines.last().cells@.len()
    }
}

/// How many tokens the rows labelled `ls` take from `cells`.
spec fn toks_total(cells: Seq<CharterCell>, ls: Seq<Seq<char>>) -> nat
    decreases ls.len(),
{
    if ls.len() == 0 {
        0
    } else {
        toks_total(cells, ls.drop_last()) + line_toks(cells, ls.last()).len()
    }
}

/// How often `l` occurs in `ls`.
spec fn count_of(ls: Seq<Seq<char>>, l: Seq<char>) -> nat
    decreases ls.len(),
{
    if ls.len() == 0 {
        0
    } else {
        count_of(ls.drop_last(), l) + if ls.last() == l {
            1nat
        } else {
            0nat
        }
    }
}

proof fn lemma_count_of_distinct(ls: Seq<Seq<char>>, l: Seq<char>)
    requires
        forall|a: int, b: int| 0 <= a < b < ls.len() ==> ls[a] != ls[b],
    ensures
        count_of(ls, l) == if ls.contains(l) {
            1nat
        } else {
            0nat
        },
    decreases ls.len(),
{
    if ls.len() > 0 {
        let init = ls.drop_last();
        assert forall|a: int, b: int| 0 <= a < b < init.len() implies init[a] != init[b] by {
            assert(init[a] == ls[a] && init[b] == ls[b]);
        }
        lemma_count_of_distinct(init, l);
        if ls.last() == l {
            if init.contains(l) {
                let j = choose|j: int| 0 <= j < init.len() && init[j] == l;
                assert(ls[j] == ls[ls.len() - 1]);
            }
            assert(ls.contains(l)) by {
                assert(ls[ls.len() - 1] == l);
            }
        } else {
            if ls.contains(l) {
                let j = choose|j: int| 0 <= j < ls.len() && ls[j] == l;
                assert(init[j] == l);
            }
            if init.contains(l) {
                let j = choose|j: int| 0 <= j < init.len() && init[j] == l;
                assert(ls[j] == l);
            }
        }
    }
}

proof fn lemma_toks_total_step(cells: Seq<CharterCell>, ls: Seq<Seq<char>>)
    requires
        cells.len() > 0,
    ensures
        toks_total(cells, ls) == toks_total(cells.drop_last(), ls) + count_of(
            ls,
            cell_label_spec(cells.last()),
        ),
    decreases ls.len(),
{
    if ls.len() > 0 {
        lemma_toks_total_step(cells, ls.drop_last());
    }
}

proof fn lemma_unlabelled_has_no_toks(cells: Seq<CharterCell>, m: Seq<char>)
    requires
        !labels_spec(cells).contains(m),
    ensures
        line_toks(cells, m).len() == 0,
    decreases cells.len(),
{
    if cells.len() > 0 {
        let init = cells.drop_last();
        let prev = labels_spec(init);
        let l = cell_label_spec(cells.last());
        if prev.contains(m) {
            let j = choose|j: int| 0 <= j < prev.len() && prev[j] == m;
            assert(labels_spec(cells)[j] == m);
        }
        if l == m {
            if !prev.contains(l) {
                assert(labels_spec(cells)[prev.len() as int] == l);
            }
        }
        lemma_unlabelled_has_no_toks(init, m);
    }
}

proof fn lemma_toks_total_is_len(cells: Seq<CharterCell>)
    ensures
        toks_total(cells, labels_spec(cells)) == cells.len(),
    decreases cells.len(),
{
    if cells.len() > 0 {
        let init = cells.drop_last();
        let prev = labels_spec(init);
        let l = cell_label_spec(cells.last());
        lemma_toks_total_is_len(init);
        lemma_labels_distinct_and_cover(init);
        lemma_labels_distinct_and_cover(cells);
        lemma_toks_total_step(cells, labels_spec(cells));
        lemma_count_of_distinct(labels_spec(cells), l);
        assert(labels_spec(cells).contains(l)) by {
            assert(cells[cells.len() - 1] == cells.last());
        }
        if !prev.contains(l) {
            let ls = prev.push(l);
            assert(ls.drop_last() =~= prev);
            lemma_unlabelled_has_no_toks(init, l);
            assert(toks_total(init, ls) == toks_total(init, prev) + line_toks(init, l).len());
        }
    }
}

proof fn lemma_cells_in_matches(lines: Seq<CharterLine>, cells: Seq<CharterCell>, ls: Seq<Seq<char>>)
    requires
        lines.len() == ls.len(),
        forall|k: int|
            0 <= k < lines.len() ==> toks_view((#[trigger] lines[k]).cells@) == line_toks(
                cells,
                ls[k],
            ),
    ensures
        cells_in(lines) == toks_total(cells, ls),
    decreases lines.len(),
{
    if lines.len() > 0 {
        let k = lines.len() - 1;
        assert(toks_view(lines[k].cells@) == line_toks(cells, ls[k]));
        assert(toks_view(lines[k].cells@).len() == lines[k].cells@.len());
        let a = lines.drop_last();
        let b = ls.drop_last();
        assert forall|j: int| 0 <= j < a.len() implies toks_view((#[trigger] a[j]).cells@)
            == line_toks(cells, b[j]) by {
            assert(a[j] == lines[j] && b[j] == ls[j]);
        }
        lemma_cells_in_matches(a, cells, b);
    }
}

/// The rows of a band hold every probed cell exactly once between them:
/// their cell counts add up to the number of cells probed.
pub proof fn lemma_rows_hold_every_cell(lines: Seq<CharterLine>, cells: Seq<CharterCell>)
    requires
        grouped(lines, cells),
    ensures
        cells_in(lines) == cells.len(),
{
    lemma_cells_in_matches(lines, cells, labels_spec(cells));
    lemma_toks_total_is_len(cells);
}

/// The index of the first namespace equal to `focus`, if any.
pub open spec fn index_of(namespaces: Seq<Seq<char>>, focus: Seq<char>) -> Option<int> {
    if exists|i: int| 0 <= i < namespaces.len() && namespaces[i] == focus {
        Some(
            choose|i: int|
                0 <= i < namespaces.len() && namespaces[i] == focus && forall|j: int|
                    0 <= j < i ==> namespaces[j] != focus,
        )
    } else {
        None
    }
}

/// The namespace the charter focuses on after a step: from the focused
/// namespace one step back or forward (wrapping); from a namespace that is
/// not in the list, the last (back) or the first (forward).
pub open spec fn step_focus_spec(namespaces: Seq<Seq<char>>, focus: Seq<char>, back: bool) -> Seq<char> {
    let n = namespaces.len() as int;
    match index_of(namespaces, focus) {
        Some(i) => namespaces[(i + if back {
            n - 1
        } else {
            1
        }) % n],
        None => if back {
            namespaces[n - 1]
        } else {
            namespaces[0]
        },
    }
}

/// The view of a list of namespace names.
pub open spec fn names_view(v: Seq<String>) -> Seq<Seq<char>> {
    v.map_values(|s: String| s@)
}

/// Steps the charter's namespace focus (the scope toggle's arrows).
pub fn step_focus(namespaces: &Vec<String>, focus: &String, back: bool) -> (r: String)
    requires
        namespaces@.len() > 0,
    ensures
        r@ == step_focus_spec(names_view(namespaces@), focus@, back),
{
    let n = namespaces.len();
    let ghost names = names_view(namespaces@);
    let mut i: usize = 0;
    while i < n
        invariant
            n == namespaces@.len(),
            names == names_view(namespaces@),
            i <= n,
            forall|j: int| 0 <= j < i ==> names[j] != focus@,
        decreases n - i,
    {
        if namespaces[i] == *focus {
            let ghost w = choose|k: int|
                0 <= k < names.len() && names[k] == focus@ && forall|j: int|
                    0 <= j < k ==> names[j] != focus@;
            assert(names[i as int] == focus@);
            assert(w == i as int) by {
                if w < i as int {
                    assert(names[w] != focus@);
                }
                if w > i as int {
                    assert(names[i as int] != focus@);
                }
            }
            let k = if back {
                if i == 0 {
                    n - 1
                } else {
                    i - 1
                }
            } else {
                if i + 1 == n {
                    0
                } else {
                    i + 1
                }
            };
            assert(k as int == (i + if back { n - 1 } else { 1 }) % (n as int)) by (nonlinear_arith)
                requires
                    i < n,
                    k == if back { if i == 0 { n - 1 } else { i - 1 } } else { if i + 1 == n { 0 } else { i + 1 } },
            ;
            return namespaces[k].clone();
        }
        i = i + 1;
    }
    if back {
        namespaces[n - 1].clone()
    } else {
        namespaces[0].clone()
    }
}

/// With distinct namespaces, stepping forward then back (or back then
/// forward) returns to the namespace the charter was focused on.
pub proof fn lemma_step_focus_round_trip(namespaces: Seq<Seq<char>>, focus: Seq<char>, back: bool)
    requires
        namespaces.len() > 0,
        forall|a: int, b: int|
            0 <= a < b < namespaces.len() ==> namespaces[a] != namespaces[b],
        namespaces.contains(focus),
    ensures
        step_focus_spec(namespaces, step_focus_spec(namespaces, focus, back), !back) == focus,
{
    let n = namespaces.len() as int;
    let i = index_of(namespaces, focus)->0;
    assert(index_of(namespaces, focus) is Some);
    let k = (i + if back { n - 1 } else { 1 }) % n;
    let next = namespaces[k];
    assert(index_of(namespaces, next) is Some);
    let k2 = index_of(namespaces, next)->0;
    assert(k2 == k) by {
        if k2 != k {
            assert(namespaces[k2] == next);
        }
    }
    let back_delta = if !back { n - 1 } else { 1 };
    assert((k + back_delta) % n == i) by (nonlinear_arith)
        requires
            0 <= i < n,
            k == (i + if back { n - 1 } else { 1 }) % n,
            back_delta == if !back { n - 1 } else { 1 },
            n > 0,
    ;
}

// --- the charter window -------------------------------------------------

/// The charter window's title.
pub fn charter_title(focus: &str) -> (r: String)
    ensures
        r@ == "Charter \u{2014} your writ in "@ + focus@ + " \u{b7} HOT"@,
{
    let mut s = String::new();
    push_str(&mut s, "Charter \u{2014} your writ in ");
    push_str(&mut s, focus);
    push_str(&mut s, " \u{b7} HOT");
    s
}

/// The glyph of a mark: granted, denied or unanswered.
pub open spec fn mark_glyph(m: Mark) -> char {
    match m {
        Mark::Yes => '\u{2713}',
        Mark::No => '\u{2717}',
        Mark::Maybe => '?',
    }
}

/// A cell's token in its row: the verb and its mark.
pub fn cell_token(verb: &str, mark: Mark) -> (r: String)
    ensures
        r@ == verb@ + " "@ + seq![mark_glyph(mark)],
{
    let mut s = String::new();
    push_str(&mut s, verb);
    push_str(&mut s, " ");
    push_char(&mut s, match mark {
        Mark::Yes => '\u{2713}',
        Mark::No => '\u{2717}',
        Mark::Maybe => '?',
    });
    s
}

/// What a click on the charter window does.
#[derive(Debug, Clone, Copy, PartialEq, Eq, Structural)]
pub enum CharterClick {
    Nothing,
    /// Step the namespace scope (`true` = back).
    Step(bool),
    Close,
}

/// A click on the charter window: the scope arrows step the namespace
/// (they are live only with more than one namespace); the close box, the
/// Close button or a click outside closes the window.
pub fn charter_click(
    namespaces: usize,
    click: bool,
    on_prev: bool,
    on_next: bool,
    on_close: bool,
    on_button: bool,
    in_frame: bool,
) -> (r: CharterClick)
    ensures
        r == if !click {
            CharterClick::Nothing
        } else if namespaces > 1 && (on_prev || on_next) {
            CharterClick::Step(on_prev)
        } else if on_close || on_button || !in_frame {
            CharterClick::Close
        } else {
            CharterClick::Nothing
        },
{
    if !click {
        CharterClick::Nothing
    } else if namespaces > 1 && (on_prev || on_next) {
        CharterClick::Step(on_prev)
    } else if on_close || on_button || !in_frame {
        CharterClick::Close
    } else {
        CharterClick::Nothing
    }
}

} // verus!
