//! The log-tail overlay's text: the title, the fetched tail split into
//! lines, the case-insensitive substring filter, and which lines fit (the
//! newest ones). Lower-casing is std's Unicode mapping, named here as
//! [`lowercase`]; everything after it is proved over plain strings.

use vstd::prelude::*;
use crate::text::{dec, push_dec, push_str};
use crate::ui::{cut_spec, truncate_str};

verus! {

/// std's `str::to_lowercase`: the Unicode lower-case mapping of `s`.
pub uninterp spec fn lowercase(s: Seq<char>) -> Seq<char>;

/// std's `str::to_lowercase`, which maps each character by the Unicode
/// lower-case tables; the contract claims only that the result is a
/// function of the argument, named [`lowercase`].
#[verifier::external_body]
fn to_lower(s: &str) -> (r: String)
    ensures
        r@ == lowercase(s@),
{
    s.to_lowercase()
}

// --- lines --------------------------------------------------------------

/// The index of the first newline in `s`, or its length.
pub open spec fn line_end(s: Seq<char>) -> int
    decreases s.len(),
{
    if s.len() == 0 {
        0
    } else if s[0] == '\n' {
        0
    } else {
        1 + line_end(s.subrange(1, s.len() as int))
    }
}

/// `s`'s lines, as std's `str::lines` splits them: at each `\n` (a `\r`
/// just before it is part of the ending), with the final ending optional.
pub open spec fn lines_spec(s: Seq<char>) -> Seq<Seq<char>>
    decreases s.len(),
{
    if s.len() == 0 {
        Seq::empty()
    } else {
        proof {
            lemma_line_end(s);
        }
        let e = line_end(s);
        let raw = s.subrange(0, e);
        if e < s.len() {
            let line = if raw.len() > 0 && raw.last() == '\r' {
                raw.drop_last()
            } else {
                raw
            };
            seq![line] + lines_spec(s.subrange(e + 1, s.len() as int))
        } else {
            seq![raw]
        }
    }
}

/// A line ends at the first newline, or at the end of the text.
pub proof fn lemma_line_end(s: Seq<char>)
    ensures
        0 <= line_end(s) <= s.len(),
        forall|k: int| 0 <= k < line_end(s) ==> s[k] != '\n',
        line_end(s) < s.len() ==> s[line_end(s)] == '\n',
    decreases s.len(),
{
    if s.len() > 0 && s[0] != '\n' {
        let t = s.subrange(1, s.len() as int);
        lemma_line_end(t);
        assert forall|k: int| 0 <= k < line_end(s) implies s[k] != '\n' by {
            if k > 0 {
                assert(s[k] == t[k - 1]);
            }
        }
    }
}

proof fn lemma_line_end_at(s: Seq<char>, i: int, j: int)
    requires
        0 <= i <= j <= s.len(),
        forall|k: int| i <= k < j ==> s[k] != '\n',
        j == s.len() || s[j] == '\n',
    ensures
        line_end(s.subrange(i, s.len() as int)) == j - i,
    decreases j - i,
{
    let t = s.subrange(i, s.len() as int);
    if i < j {
        assert(t.subrange(1, t.len() as int) =~= s.subrange(i + 1, s.len() as int));
        lemma_line_end_at(s, i + 1, j);
    }
}

fn sub_string(v: &Vec<char>, from: usize, to: usize) -> (r: String)
    requires
        from <= to <= v@.len(),
    ensures
        r@ == v@.subrange(from as int, to as int),
{
    let mut out = String::new();
    let mut i = from;
    while i < to
        invariant
            from <= i <= to <= v@.len(),
            out@ == v@.subrange(from as int, i as int),
        decreases to - i,
    {
        assert(v@.subrange(from as int, i + 1) == v@.subrange(from as int, i as int).push(v@[i as int]));
        crate::text::push_char(&mut out, v[i]);
        i = i + 1;
    }
    out
}

/// The view of a list of strings.
pub open spec fn strs(v: Seq<String>) -> Seq<Seq<char>> {
    v.map_values(|s: String| s@)
}

/// Splits `text` into its lines.
pub fn text_lines(text: &str) -> (r: Vec<String>)
    ensures
        strs(r@) == lines_spec(text@),
{
    let mut v: Vec<char> = Vec::new();
    for c in it: text.chars()
        invariant
            it.seq() == text@,
            v@ == text@.take(it.index()),
    {
        assert(text@.take(it.index() + 1) == text@.take(it.index()).push(c));
        v.push(c);
    }
    assert(text@.take(text@.len() as int) == text@);
    let ghost s = v@;
    let n = v.len();
    let mut out: Vec<String> = Vec::new();
    let mut start: usize = 0;
    assert(s.subrange(0, n as int) == s);
    while start < n
        invariant
            s == v@,
            s == text@,
            n == s.len(),
            start <= n,
            lines_spec(s) == strs(out@) + lines_spec(s.subrange(start as int, n as int)),
        decreases n - start,
    {
        let mut e = start;
        while e < n && v[e] != '\n'
            invariant
                s == v@,
                n == s.len(),
                start <= e <= n,
                forall|k: int| start <= k < e ==> s[k] != '\n',
            decreases n - e,
        {
            e = e + 1;
        }
        let ghost rest = s.subrange(start as int, n as int);
        proof {
            lemma_line_end_at(s, start as int, e as int);
            assert(rest.subrange(0, e - start) =~= s.subrange(start as int, e as int));
        }
        let ghost o = strs(out@);
        if e < n {
            let cr = e > start && v[e - 1] == '\r';
            let line = if cr {
                sub_string(&v, start, e - 1)
            } else {
                sub_string(&v, start, e)
            };
            proof {
                if cr {
                    assert(s.subrange(start as int, e as int).drop_last() =~= s.subrange(start as int, e - 1));
                }
                assert(rest.subrange(e - start + 1, rest.len() as int) =~= s.subrange(e + 1, n as int));
            }
            out.push(line);
            assert(strs(out@) == o.push(line@));
            assert(lines_spec(s) == strs(out@) + lines_spec(s.subrange(e + 1, n as int)));
            start = e + 1;
        } else {
            let line = sub_string(&v, start, e);
            out.push(line);
            assert(strs(out@) == o.push(line@));
            assert(lines_spec(s.subrange(n as int, n as int)) == Seq::<Seq<char>>::empty());
            assert(lines_spec(s) == strs(out@) + lines_spec(s.subrange(n as int, n as int)));
            start = n;
        }
    }
    assert(lines_spec(s.subrange(n as int, n as int)) == Seq::<Seq<char>>::empty());
    assert(strs(out@) + Seq::<Seq<char>>::empty() == strs(out@));
    out
}

// --- filter -------------------------------------------------------------

/// `needle` occurs in `hay` starting at `i`.
pub open spec fn occurs_at(hay: Seq<char>, needle: Seq<char>, i: int) -> bool {
    0 <= i && i + needle.len() <= hay.len() && hay.subrange(i, i + needle.len()) == needle
}

/// `needle` occurs somewhere in `hay`.
pub open spec fn has_sub(hay: Seq<char>, needle: Seq<char>) -> bool {
    exists|i: int| occurs_at(hay, needle, i)
}

fn occurs_at_exec(hay: &Vec<char>, needle: &Vec<char>, i: usize) -> (r: bool)
    requires
        i + needle@.len() <= hay@.len(),
    ensures
        r == occurs_at(hay@, needle@, i as int),
{
    let hl = hay.len();
    let mut k: usize = 0;
    while k < needle.len()
        invariant
            hl == hay@.len(),
            i + needle@.len() <= hl,
            k <= needle@.len(),
            forall|j: int| 0 <= j < k ==> hay@[i + j] == needle@[j],
        decreases needle.len() - k,
    {
        if hay[i + k] != needle[k] {
            assert(hay@.subrange(i as int, i + needle@.len())[k as int] != needle@[k as int]);
            return false;
        }
        k = k + 1;
    }
    assert(hay@.subrange(i as int, i + needle@.len()) =~= needle@);
    true
}

fn chars_of(s: &str) -> (r: Vec<char>)
    ensures
        r@ == s@,
{
    let mut v: Vec<char> = Vec::new();
    for c in it: s.chars()
        invariant
            it.seq() == s@,
            v@ == s@.take(it.index()),
    {
        assert(s@.take(it.index() + 1) == s@.take(it.index()).push(c));
        v.push(c);
    }
    assert(s@.take(s@.len() as int) == s@);
    v
}

/// Whether `needle` occurs in `hay`.
pub fn contains_sub(hay: &str, needle: &str) -> (r: bool)
    ensures
        r == has_sub(hay@, needle@),
{
    let h = chars_of(hay);
    let n = chars_of(needle);
    if n.len() > h.len() {
        assert forall|i: int| !occurs_at(hay@, needle@, i) by {}
        return false;
    }
    let last = h.len() - n.len();
    let mut i: usize = 0;
    loop
        invariant
            h@ == hay@,
            n@ == needle@,
            last == h@.len() - n@.len(),
            i <= last,
            forall|j: int| 0 <= j < i ==> !occurs_at(hay@, needle@, j),
        ensures
            forall|j: int| 0 <= j <= last ==> !occurs_at(hay@, needle@, j),
        decreases last - i,
    {
        if occurs_at_exec(&h, &n, i) {
            return true;
        }
        if i == last {
            break;
        }
        i = i + 1;
    }
    assert forall|j: int| !occurs_at(hay@, needle@, j) by {
        if 0 <= j && j + needle@.len() <= hay@.len() {
            assert(j <= last);
        }
    }
    false
}

/// The indices of the lines whose lower-cased form contains `needle`
/// (every line when `needle` is empty).
pub open spec fn matching(lowered: Seq<Seq<char>>, needle: Seq<char>) -> Seq<int>
    decreases lowered.len(),
{
    if lowered.len() == 0 {
        Seq::empty()
    } else {
        let rest = matching(lowered.drop_last(), needle);
        if needle.len() == 0 || has_sub(lowered.last(), needle) {
            rest.push(lowered.len() - 1)
        } else {
            rest
        }
    }
}

proof fn lemma_matching_bounds(lowered: Seq<Seq<char>>, needle: Seq<char>)
    ensures
        matching(lowered, needle).len() <= lowered.len(),
        forall|k: int|
            0 <= k < matching(lowered, needle).len() ==> 0 <= #[trigger] matching(lowered, needle)[k]
                < lowered.len(),
    decreases lowered.len(),
{
    if lowered.len() > 0 {
        lemma_matching_bounds(lowered.drop_last(), needle);
    }
}

/// How many characters of a log line are shown.
pub const LOG_LINE_MAX: usize = 150;

/// What the overlay shows of the tail.
#[derive(Debug, Clone)]
pub struct LogView {
    /// The newest matching lines that fit, oldest first, each cut.
    pub shown: Vec<String>,
    /// How many matching lines are older than the shown ones.
    pub earlier: usize,
    /// How many lines match the filter.
    pub matched: usize,
    /// How many lines were fetched.
    pub total: usize,
}

/// `a - b`, floored at zero.
pub open spec fn floor_sub(a: int, b: int) -> int {
    if a > b {
        a - b
    } else {
        0
    }
}

/// The view of the tail: the matching lines (by `lowered`, the lines'
/// lower-cased forms, against the lower-cased `needle`), of which the
/// newest `rows` are shown, each cut to [`LOG_LINE_MAX`] characters.
pub open spec fn log_view_spec(
    lines: Seq<Seq<char>>,
    lowered: Seq<Seq<char>>,
    needle: Seq<char>,
    rows: nat,
    v: LogView,
) -> bool {
    let m = matching(lowered, needle);
    let start = floor_sub(m.len() as int, rows as int);
    &&& v.total == lines.len()
    &&& v.matched == m.len()
    &&& v.earlier == start
    &&& strs(v.shown@) == m.subrange(start, m.len() as int).map_values(
        |k: int| cut_spec(lines[k], LOG_LINE_MAX as nat, '~'),
    )
}

/// Selects what the overlay shows, given each line's lower-cased form and
/// the lower-cased filter.
pub fn select_tail(lines: &Vec<String>, lowered: &Vec<String>, needle: &str, rows: usize) -> (v: LogView)
    requires
        lowered@.len() == lines@.len(),
    ensures
        log_view_spec(strs(lines@), strs(lowered@), needle@, rows as nat, v),
{
    let ghost low = strs(lowered@);
    let mut idx: Vec<usize> = Vec::new();
    let mut i: usize = 0;
    while i < lowered.len()
        invariant
            i <= lowered@.len(),
            low == strs(lowered@),
            idx@.map_values(|k: usize| k as int) == matching(low.take(i as int), needle@),
        decreases lowered.len() - i,
    {
        assert(low.take(i + 1).drop_last() == low.take(i as int));
        assert(low.take(i + 1).last() == lowered@[i as int]@);
        let keep = needle.unicode_len() == 0 || contains_sub(lowered[i].as_str(), needle);
        if keep {
            let ghost before = idx@;
            idx.push(i);
            assert(idx@.map_values(|k: usize| k as int) == before.map_values(|k: usize| k as int).push(
                i as int,
            ));
        }
        i = i + 1;
    }
    assert(low.take(lowered@.len() as int) == low);
    let ghost m = matching(low, needle@);
    proof {
        lemma_matching_bounds(low, needle@);
    }
    let matched = idx.len();
    let start = if matched > rows {
        matched - rows
    } else {
        0
    };
    let mut shown: Vec<String> = Vec::new();
    let mut j = start;
    while j < matched
        invariant
            start <= j <= matched,
            matched == idx@.len(),
            idx@.map_values(|k: usize| k as int) == m,
            m.len() == matched,
            forall|k: int| 0 <= k < m.len() ==> 0 <= #[trigger] m[k] < lines@.len(),
            strs(shown@) == m.subrange(start as int, j as int).map_values(
                |k: int| cut_spec(strs(lines@)[k], LOG_LINE_MAX as nat, '~'),
            ),
        decreases matched - j,
    {
        let k = idx[j];
        assert(m[j as int] == k as int);
        let line = truncate_str(lines[k].as_str(), LOG_LINE_MAX);
        let ghost before = shown@;
        shown.push(line);
        assert(strs(shown@) == strs(before).push(line@));
        assert(m.subrange(start as int, j + 1) == m.subrange(start as int, j as int).push(m[j as int]));
        j = j + 1;
    }
    LogView { shown, earlier: start, matched, total: lines.len() }
}

/// The lower-cased forms of `lines`.
pub open spec fn lowered_all(lines: Seq<Seq<char>>) -> Seq<Seq<char>> {
    lines.map_values(|l: Seq<char>| lowercase(l))
}

/// The overlay's view of a fetched tail: split into lines, filtered
/// case-insensitively by `filter`, the newest `rows` shown.
pub fn log_view(text: &str, filter: &str, rows: usize) -> (v: LogView)
    ensures
        log_view_spec(lines_spec(text@), lowered_all(lines_spec(text@)), lowercase(filter@), rows as nat, v),
{
    let lines = text_lines(text);
    let mut lowered: Vec<String> = Vec::new();
    let mut i: usize = 0;
    while i < lines.len()
        invariant
            i <= lines@.len(),
            strs(lowered@) == lowered_all(strs(lines@)).take(i as int),
        decreases lines.len() - i,
    {
        let l = to_lower(lines[i].as_str());
        let ghost before = lowered@;
        lowered.push(l);
        assert(strs(lowered@) == strs(before).push(l@));
        assert(lowered_all(strs(lines@)).take(i + 1) == lowered_all(strs(lines@)).take(i as int).push(
            lowercase(lines@[i as int]@),
        ));
        i = i + 1;
    }
    assert(lowered_all(strs(lines@)).take(lines@.len() as int) == lowered_all(strs(lines@)));
    let needle = to_lower(filter);
    select_tail(&lines, &lowered, needle.as_str(), rows)
}

// --- chrome -------------------------------------------------------------

/// The overlay's title: the pod tailed (its world tagged when it is the
/// warm one, and `<previous>` when the previous container is shown).
pub fn log_title(target: Option<(bool, &str, &str)>, previous: bool) -> (r: String)
    ensures
        r@ == match target {
            Some((warm, ns, pod)) => "logs \u{b7} "@ + (if warm {
                "WARM "@
            } else {
                Seq::empty()
            }) + ns@ + "/"@ + pod@ + if previous {
                " <previous>"@
            } else {
                Seq::empty()
            },
            None => "logs"@,
        },
{
    let mut s = String::new();
    match target {
        Some((warm, ns, pod)) => {
            push_str(&mut s, "logs \u{b7} ");
            if warm {
                push_str(&mut s, "WARM ");
            }
            push_str(&mut s, ns);
            push_str(&mut s, "/");
            push_str(&mut s, pod);
            if previous {
                push_str(&mut s, " <previous>");
            }
            proof {
                let tag: Seq<char> = if warm { "WARM "@ } else { Seq::empty() };
                let prev: Seq<char> = if previous { " <previous>"@ } else { Seq::empty() };
                assert(s@ =~= "logs \u{b7} "@ + tag + ns@ + "/"@ + pod@ + prev);
            }
        },
        None => push_str(&mut s, "logs"),
    }
    s
}

/// The filter's note: the live editor with its cursor, or the active
/// filter with how many of the fetched lines match; nothing without one.
pub fn filter_note(filter: &str, editing: bool, matched: usize, total: usize) -> (r: Option<String>)
    ensures
        editing ==> r is Some && r->0@ == "filter: "@ + filter@ + "_"@,
        !editing && filter@.len() > 0 ==> r is Some && r->0@ == "filter: "@ + filter@ + "  ("@ + dec(
            matched as nat,
        ) + "/"@ + dec(total as nat) + ")"@,
        !editing && filter@.len() == 0 ==> r is None,
{
    let mut s = String::new();
    if editing {
        push_str(&mut s, "filter: ");
        push_str(&mut s, filter);
        push_str(&mut s, "_");
        Some(s)
    } else if filter.unicode_len() > 0 {
        push_str(&mut s, "filter: ");
        push_str(&mut s, filter);
        push_str(&mut s, "  (");
        push_dec(&mut s, matched as u64);
        push_str(&mut s, "/");
        push_dec(&mut s, total as u64);
        push_str(&mut s, ")");
        Some(s)
    } else {
        None
    }
}

/// The body line when nothing matches the filter.
pub fn no_match_line(filter: &str) -> (r: String)
    ensures
        r@ == "(no lines match \""@ + filter@ + "\")"@,
{
    let mut s = String::new();
    push_str(&mut s, "(no lines match \"");
    push_str(&mut s, filter);
    push_str(&mut s, "\")");
    s
}

/// The note counting the matching lines above the shown ones.
pub fn earlier_note(earlier: usize) -> (r: Option<String>)
    ensures
        earlier > 0 ==> r is Some && r->0@ == "\u{2026} "@ + dec(earlier as nat) + " earlier lines"@,
        earlier == 0 ==> r is None,
{
    if earlier > 0 {
        let mut s = String::new();
        push_str(&mut s, "\u{2026} ");
        push_dec(&mut s, earlier as u64);
        push_str(&mut s, " earlier lines");
        Some(s)
    } else {
        None
    }
}

/// The filter keeps exactly the lines whose lower-cased form contains the
/// needle, in their original order.
pub proof fn lemma_filter_keeps_exactly_the_matches(lowered: Seq<Seq<char>>, needle: Seq<char>)
    ensures
        forall|k: int|
            0 <= k < lowered.len() ==> (matching(lowered, needle).contains(k) <==> (needle.len()
                == 0 || has_sub(lowered[k], needle))),
        forall|a: int, b: int|
            0 <= a < b < matching(lowered, needle).len() ==> matching(lowered, needle)[a]
                < matching(lowered, needle)[b],
    decreases lowered.len(),
{
    lemma_matching_bounds(lowered, needle);
    if lowered.len() > 0 {
        let init = lowered.drop_last();
        lemma_filter_keeps_exactly_the_matches(init, needle);
        lemma_matching_bounds(init, needle);
        let rest = matching(init, needle);
        let m = matching(lowered, needle);
        let last = lowered.len() - 1;
        assert forall|k: int| 0 <= k < lowered.len() implies (m.contains(k) <==> (needle.len() == 0
            || has_sub(lowered[k], needle))) by {
            if k < last {
                assert(lowered[k] == init[k]);
                if m.contains(k) {
                    let p = choose|p: int| 0 <= p < m.len() && m[p] == k;
                    if p < rest.len() {
                        assert(rest[p] == k);
                    }
                }
                if rest.contains(k) {
                    let p = choose|p: int| 0 <= p < rest.len() && rest[p] == k;
                    assert(m[p] == k);
                }
            } else {
                if m.contains(k) {
                    let p = choose|p: int| 0 <= p < m.len() && m[p] == k;
                    if p < rest.len() {
                        assert(rest[p] < init.len());
                    }
                }
                if needle.len() == 0 || has_sub(lowered[k], needle) {
                    assert(m[m.len() - 1] == k);
                }
            }
        }
    }
}

/// An empty filter hides nothing: every line is kept.
pub proof fn lemma_an_empty_filter_keeps_every_line(lowered: Seq<Seq<char>>)
    ensures
        matching(lowered, Seq::empty()) == Seq::new(lowered.len(), |k: int| k),
    decreases lowered.len(),
{
    if lowered.len() > 0 {
        lemma_an_empty_filter_keeps_every_line(lowered.drop_last());
        assert(Seq::new((lowered.len() - 1) as nat, |k: int| k).push(lowered.len() - 1) =~= Seq::new(
            lowered.len(),
            |k: int| k,
        ));
    } else {
        assert(Seq::<int>::empty() =~= Seq::new(0, |k: int| k));
    }
}

} // verus!
