//! The labels of a namespace island: its title, the count badge it shrinks
//! to at world scale, and the legend list of its structures (mark, text
//! and tints per row, with a "+N more" row for what did not fit).

use vstd::prelude::*;
use crate::text::{ascii, ascii_char, dec, push_char, push_dec, push_str};
use crate::city::Tint;

verus! {

/// A structure standing on an island, as the map reports it.
#[derive(Debug, Clone)]
pub struct IsleStructure {
    pub glyph: char,
    pub kind: String,
    pub name: String,
    /// Extra state shown after the name (empty when there is none).
    pub detail: String,
    /// The structure needs attention.
    pub alert: bool,
}

/// One row of an island's legend list.
#[derive(Debug, Clone)]
pub struct IsleRow {
    /// The mark drawn at the row's start (`' '` for none).
    pub glyph: char,
    pub mark: Tint,
    pub text: String,
    pub text_tint: Tint,
}

/// The glyph of a structure that has nothing running yet.
pub open spec fn idle_glyph() -> char {
    '\u{25cc}'
}

/// A structure's mark tint: alerting ones warn, idle ones are dim, the
/// rest take the structure colour.
pub open spec fn structure_tint(s: IsleStructure) -> Tint {
    if s.alert {
        Tint::Warn
    } else if s.glyph == idle_glyph() {
        Tint::Dim
    } else {
        Tint::Struct
    }
}

/// `kind/name`, then the detail after a space when there is one.
pub open spec fn structure_label(s: IsleStructure) -> Seq<char> {
    let base = s.kind@ + "/"@ + s.name@;
    if s.detail@.len() > 0 {
        base + " "@ + s.detail@
    } else {
        base
    }
}

/// `s` with each character made ASCII.
pub open spec fn ascii_spec(s: Seq<char>) -> Seq<char> {
    s.map_values(|c: char| ascii_char(c))
}

/// The view of a row: glyph, mark tint, text, text tint.
pub open spec fn row_view(r: IsleRow) -> (char, Tint, Seq<char>, Tint) {
    (r.glyph, r.mark, r.text@, r.text_tint)
}

/// A structure's row: its glyph and mark tint, its label made ASCII, in
/// warning ink when it alerts.
pub open spec fn structure_row(s: IsleStructure) -> (char, Tint, Seq<char>, Tint) {
    (
        s.glyph,
        structure_tint(s),
        ascii_spec(structure_label(s)),
        if s.alert {
            Tint::Warn
        } else {
            Tint::Ink
        },
    )
}

/// The legend list: one row per structure in order, then a dim
/// "+N more" row when some were left off.
pub open spec fn isle_rows_spec(structures: Seq<IsleStructure>, more: nat) -> Seq<
    (char, Tint, Seq<char>, Tint),
> {
    let rows = structures.map_values(|s: IsleStructure| structure_row(s));
    if more > 0 {
        rows.push((' ', Tint::Dim, "+"@ + dec(more) + " more"@, Tint::Dim))
    } else {
        rows
    }
}

fn structure_row_exec(s: &IsleStructure) -> (r: IsleRow)
    ensures
        row_view(r) == structure_row(*s),
{
    let mut t = String::new();
    push_str(&mut t, s.kind.as_str());
    push_char(&mut t, '/');
    push_str(&mut t, s.name.as_str());
    if s.detail.unicode_len() > 0 {
        push_char(&mut t, ' ');
        push_str(&mut t, s.detail.as_str());
    }
    proof {
        reveal_strlit("/");
        reveal_strlit(" ");
        assert(t@ == structure_label(*s));
    }
    let mark = if s.alert {
        Tint::Warn
    } else if s.glyph == '\u{25cc}' {
        Tint::Dim
    } else {
        Tint::Struct
    };
    let text_tint = if s.alert {
        Tint::Warn
    } else {
        Tint::Ink
    };
    IsleRow { glyph: s.glyph, mark, text: ascii(t.as_str()), text_tint }
}

/// The island's legend list, with the "+N more" row when `more > 0`.
pub fn isle_rows(structures: &Vec<IsleStructure>, more: u64) -> (r: Vec<IsleRow>)
    ensures
        r@.map_values(|x: IsleRow| row_view(x)) == isle_rows_spec(structures@, more as nat),
{
    let mut rows: Vec<IsleRow> = Vec::new();
    let mut i: usize = 0;
    while i < structures.len()
        invariant
            i <= structures@.len(),
            rows@.len() == i,
            forall|j: int|
                0 <= j < i ==> row_view(#[trigger] rows@[j]) == structure_row(structures@[j]),
        decreases structures.len() - i,
    {
        let row = structure_row_exec(&structures[i]);
        rows.push(row);
        i = i + 1;
    }
    if more > 0 {
        let mut t = String::new();
        push_char(&mut t, '+');
        push_dec(&mut t, more);
        push_str(&mut t, " more");
        proof {
            reveal_strlit("+");
            assert(t@ == "+"@ + dec(more as nat) + " more"@);
        }
        rows.push(IsleRow { glyph: ' ', mark: Tint::Dim, text: t, text_tint: Tint::Dim });
    }
    assert(rows@.map_values(|x: IsleRow| row_view(x)) =~= isle_rows_spec(
        structures@,
        more as nat,
    ));
    rows
}

/// The island's title, `isle of <label>`, made ASCII.
pub fn isle_title(label: &str) -> (r: String)
    ensures
        r@ == ascii_spec("isle of "@ + label@),
{
    let mut s = String::new();
    push_str(&mut s, "isle of ");
    push_str(&mut s, label);
    ascii(s.as_str())
}

/// The world-scale badge: the island's structure count, shown ones and
/// left-off ones together, or nothing for an empty island.
pub fn isle_badge(shown: u64, more: u64) -> (r: Option<String>)
    requires
        shown + more <= u64::MAX,
    ensures
        match r {
            Some(t) => shown + more > 0 && t@ == dec((shown + more) as nat),
            None => shown + more == 0,
        },
{
    let total = shown + more;
    if total > 0 {
        let mut t = String::new();
        push_dec(&mut t, total);
        Some(t)
    } else {
        None
    }
}

} // verus!
