//! Where the client keeps its state on disk: the log directory, the
//! per-context layout directory, and the one-file-per-context layout name.
//!
//! The environment is read by the caller and handed in as a [`StateEnv`];
//! paths are carried as text and joined with the Unix `PathBuf::push` rule
//! (an absolute part replaces, an empty base takes the part as-is, and a
//! separator is added only when the base does not already end in one).

use vstd::prelude::*;
use crate::text::push_char;
use crate::text::push_str;

verus! {

/// The environment variables the state directory is derived from, as the
/// caller read them (`None` = unset).
#[derive(Debug, Clone)]
pub struct StateEnv {
    /// `$XDG_STATE_HOME`.
    pub xdg_state_home: Option<String>,
    /// `%LOCALAPPDATA%`, read on Windows only (`None` elsewhere): per-machine
    /// state there lives under it.
    pub local_app_data: Option<String>,
    /// `$HOME`.
    pub home: Option<String>,
}

/// Unix path join: `base` pushed with `part`.
pub open spec fn join_spec(base: Seq<char>, part: Seq<char>) -> Seq<char> {
    if part.len() > 0 && part[0] == '/' {
        part
    } else if base.len() == 0 {
        part
    } else if base.last() == '/' {
        base + part
    } else {
        base.push('/') + part
    }
}

/// Joins `part` onto `base` by the Unix `PathBuf::push` rule.
pub fn path_join(base: &str, part: &str) -> (r: String)
    ensures
        r@ == join_spec(base@, part@),
{
    let mut out = String::new();
    let part_abs = part.unicode_len() > 0 && part.get_char(0) == '/';
    if part_abs {
        push_str(&mut out, part);
        return out;
    }
    let n = base.unicode_len();
    push_str(&mut out, base);
    if n > 0 && base.get_char(n - 1) != '/' {
        push_char(&mut out, '/');
    }
    push_str(&mut out, part);
    proof {
        if n > 0 && base@.last() != '/' {
            assert(out@ == base@.push('/') + part@);
        }
    }
    out
}

/// The base of the log directory: `$XDG_STATE_HOME`, else
/// `%LOCALAPPDATA%`, else `$HOME/.local/state`, else the working directory.
pub open spec fn log_state_base(env: StateEnv) -> Seq<char> {
    match env.xdg_state_home {
        Some(x) => x@,
        None => match env.local_app_data {
            Some(l) => l@,
            None => match env.home {
                Some(h) => join_spec(h@, ".local/state"@),
                None => "."@,
            },
        },
    }
}

/// The base of the layouts directory: `$XDG_STATE_HOME/kubernation`, else
/// `%LOCALAPPDATA%/kubernation`, else `$HOME/.local/state/kubernation`, else
/// the working directory.
pub open spec fn layout_state_base(env: StateEnv) -> Seq<char> {
    match env.xdg_state_home {
        Some(x) => join_spec(x@, "kubernation"@),
        None => match env.local_app_data {
            Some(l) => join_spec(l@, "kubernation"@),
            None => match env.home {
                Some(h) => join_spec(h@, ".local/state/kubernation"@),
                None => "."@,
            },
        },
    }
}

/// The state directory holding the log and the session marker.
pub fn log_dir(env: &StateEnv) -> (r: String)
    ensures
        r@ == join_spec(log_state_base(*env), "kubernation"@),
{
    let base = match &env.xdg_state_home {
        Some(x) => x.clone(),
        None => match &env.local_app_data {
            Some(l) => l.clone(),
            None => match &env.home {
                Some(h) => path_join(h.as_str(), ".local/state"),
                None => String::from_str("."),
            },
        },
    };
    path_join(base.as_str(), "kubernation")
}

/// The directory holding one saved layout per context.
pub fn layouts_dir(env: &StateEnv) -> (r: String)
    ensures
        r@ == join_spec(layout_state_base(*env), "layouts"@),
{
    let base = match &env.xdg_state_home {
        Some(x) => path_join(x.as_str(), "kubernation"),
        None => match &env.local_app_data {
            Some(l) => path_join(l.as_str(), "kubernation"),
            None => match &env.home {
                Some(h) => path_join(h.as_str(), ".local/state/kubernation"),
                None => String::from_str("."),
            },
        },
    };
    path_join(base.as_str(), "layouts")
}

/// Whether `c` may stand in a file name unchanged.
pub open spec fn path_safe(c: char) -> bool {
    ||| ('a' <= c && c <= 'z')
    ||| ('A' <= c && c <= 'Z')
    ||| ('0' <= c && c <= '9')
    ||| c == '-'
    ||| c == '_'
    ||| c == '.'
}

/// One character of a context name as it appears in the file name.
pub open spec fn safe_char(c: char) -> char {
    if path_safe(c) {
        c
    } else {
        '_'
    }
}

/// `s` without its leading dots.
pub open spec fn trim_front_dots(s: Seq<char>) -> Seq<char>
    decreases s.len(),
{
    if s.len() > 0 && s[0] == '.' {
        trim_front_dots(s.subrange(1, s.len() as int))
    } else {
        s
    }
}

/// `s` without its trailing dots.
pub open spec fn trim_back_dots(s: Seq<char>) -> Seq<char>
    decreases s.len(),
{
    if s.len() > 0 && s.last() == '.' {
        trim_back_dots(s.drop_last())
    } else {
        s
    }
}

/// The sanitised stem of a context's file: every unsafe character replaced
/// by `_`, the dots at either end trimmed.
pub open spec fn layout_stem(context: Seq<char>) -> Seq<char> {
    trim_back_dots(trim_front_dots(context.map_values(|c: char| safe_char(c))))
}

/// The file name for a context's layout: the stem (or `unnamed` when
/// nothing usable is left) with a `.json` extension.
pub open spec fn layout_file_name_spec(context: Seq<char>) -> Seq<char> {
    let stem = layout_stem(context);
    if stem.len() == 0 {
        "unnamed.json"@
    } else {
        stem + ".json"@
    }
}

fn safe_char_exec(c: char) -> (r: char)
    ensures
        r == safe_char(c),
{
    if ('a' <= c && c <= 'z') || ('A' <= c && c <= 'Z') || ('0' <= c && c <= '9') || c == '-'
        || c == '_' || c == '.' {
        c
    } else {
        '_'
    }
}

proof fn lemma_trim_front_step(s: Seq<char>, start: int)
    requires
        0 <= start < s.len(),
        s[start] == '.',
    ensures
        trim_front_dots(s.subrange(start, s.len() as int)) == trim_front_dots(
            s.subrange(start + 1, s.len() as int),
        ),
{
    let t = s.subrange(start, s.len() as int);
    assert(t.subrange(1, t.len() as int) =~= s.subrange(start + 1, s.len() as int));
}

proof fn lemma_trim_back_step(s: Seq<char>, start: int, end: int)
    requires
        0 <= start < end <= s.len(),
        s[end - 1] == '.',
    ensures
        trim_back_dots(s.subrange(start, end)) == trim_back_dots(s.subrange(start, end - 1)),
{
    let t = s.subrange(start, end);
    assert(t.drop_last() =~= s.subrange(start, end - 1));
}

/// The file name (one path component) a context's layout is saved under.
pub fn layout_file_name(context: &str) -> (r: String)
    ensures
        r@ == layout_file_name_spec(context@),
{
    let mut v: Vec<char> = Vec::new();
    for c in it: context.chars()
        invariant
            it.seq() == context@,
            v@ == context@.take(it.index()).map_values(|c: char| safe_char(c)),
    {
        proof {
            assert(context@.take(it.index() + 1) == context@.take(it.index()).push(c));
            assert(context@.take(it.index() + 1).map_values(|c: char| safe_char(c))
                == context@.take(it.index()).map_values(|c: char| safe_char(c)).push(
                safe_char(c),
            ));
        }
        v.push(safe_char_exec(c));
    }
    let ghost m = context@.map_values(|c: char| safe_char(c));
    assert(context@.take(context@.len() as int) == context@);
    assert(v@ == m);
    let len = v.len();
    let mut start: usize = 0;
    assert(m.subrange(0, len as int) == m);
    while start < len && v[start] == '.'
        invariant
            v@ == m,
            len == m.len(),
            start <= len,
            trim_front_dots(m.subrange(start as int, len as int)) == trim_front_dots(m),
        decreases len - start,
    {
        proof {
            lemma_trim_front_step(m, start as int);
        }
        start = start + 1;
    }
    let ghost front = trim_front_dots(m);
    assert(front == m.subrange(start as int, len as int));
    let mut end: usize = len;
    while end > start && v[end - 1] == '.'
        invariant
            v@ == m,
            len == m.len(),
            start <= end <= len,
            front == m.subrange(start as int, len as int),
            trim_back_dots(m.subrange(start as int, end as int)) == trim_back_dots(front),
        decreases end - start,
    {
        proof {
            lemma_trim_back_step(m, start as int, end as int);
        }
        end = end - 1;
    }
    let ghost stem = m.subrange(start as int, end as int);
    assert(trim_back_dots(stem) == stem);
    assert(stem == layout_stem(context@));
    let mut out = String::new();
    if start == end {
        push_str(&mut out, "unnamed.json");
        return out;
    }
    let mut i = start;
    while i < end
        invariant
            v@ == m,
            start <= i <= end <= len,
            len == m.len(),
            out@ == m.subrange(start as int, i as int),
        decreases end - i,
    {
        proof {
            assert(m.subrange(start as int, i + 1) == m.subrange(start as int, i as int).push(
                m[i as int],
            ));
        }
        push_char(&mut out, v[i]);
        i = i + 1;
    }
    push_str(&mut out, ".json");
    out
}

/// The path of a context's saved layout: one file directly inside
/// `layouts_dir`.
pub fn layout_path(env: &StateEnv, context: &str) -> (r: String)
    ensures
        r@ == join_spec(
            join_spec(layout_state_base(*env), "layouts"@),
            layout_file_name_spec(context@),
        ),
{
    let dir = layouts_dir(env);
    let name = layout_file_name(context);
    path_join(dir.as_str(), name.as_str())
}


proof fn lemma_trim_front_shape(s: Seq<char>)
    ensures
        exists|k: int|
            0 <= k <= s.len() && #[trigger] trim_front_dots(s) == s.subrange(k, s.len() as int),
        trim_front_dots(s).len() > 0 ==> trim_front_dots(s)[0] != '.',
    decreases s.len(),
{
    if s.len() > 0 && s[0] == '.' {
        let t = s.subrange(1, s.len() as int);
        lemma_trim_front_shape(t);
        let k = choose|k: int| 0 <= k <= t.len() && #[trigger] trim_front_dots(t) == t.subrange(k, t.len() as int);
        assert(t.subrange(k, t.len() as int) =~= s.subrange(k + 1, s.len() as int));
    } else {
        assert(s.subrange(0, s.len() as int) =~= s);
    }
}

proof fn lemma_trim_back_shape(s: Seq<char>)
    ensures
        exists|k: int| 0 <= k <= s.len() && #[trigger] trim_back_dots(s) == s.subrange(0, k),
        trim_back_dots(s).len() > 0 ==> trim_back_dots(s).last() != '.',
    decreases s.len(),
{
    if s.len() > 0 && s.last() == '.' {
        let t = s.drop_last();
        lemma_trim_back_shape(t);
        let k = choose|k: int| 0 <= k <= t.len() && #[trigger] trim_back_dots(t) == t.subrange(0, k);
        assert(t.subrange(0, k) =~= s.subrange(0, k));
    } else {
        assert(s.subrange(0, s.len() as int) =~= s);
    }
}

proof fn lemma_trim_back_keeps_front(s: Seq<char>)
    requires
        s.len() > 0 ==> s[0] != '.',
    ensures
        trim_back_dots(s).len() > 0 ==> trim_back_dots(s)[0] != '.',
{
    lemma_trim_back_shape(s);
}

/// A context's layout lives in exactly one path component: every character
/// of the file name is path-safe (so it holds no separator), it does not
/// begin with a dot (so it is never `.` or `..`), and it ends in `.json`.
pub proof fn lemma_layout_file_is_one_component(context: Seq<char>)
    ensures
        forall|i: int|
            0 <= i < layout_file_name_spec(context).len() ==> path_safe(
                #[trigger] layout_file_name_spec(context)[i],
            ),
        layout_file_name_spec(context)[0] != '.',
        !layout_file_name_spec(context).contains('/'),
        layout_file_name_spec(context).len() > 5,
        layout_file_name_spec(context).subrange(
            layout_file_name_spec(context).len() - 5,
            layout_file_name_spec(context).len() as int,
        ) == ".json"@,
{
    reveal_strlit("unnamed.json");
    reveal_strlit(".json");
    let m = context.map_values(|c: char| safe_char(c));
    let f = trim_front_dots(m);
    lemma_trim_front_shape(m);
    let k1 = choose|k: int| 0 <= k <= m.len() && #[trigger] trim_front_dots(m) == m.subrange(k, m.len() as int);
    let stem = trim_back_dots(f);
    lemma_trim_back_shape(f);
    lemma_trim_back_keeps_front(f);
    let k2 = choose|k: int| 0 <= k <= f.len() && #[trigger] trim_back_dots(f) == f.subrange(0, k);
    assert forall|i: int| 0 <= i < stem.len() implies path_safe(#[trigger] stem[i]) by {
        assert(stem[i] == m[k1 + i]);
    }
    let name = layout_file_name_spec(context);
    if stem.len() == 0 {
        assert forall|i: int| 0 <= i < name.len() implies path_safe(#[trigger] name[i]) by {}
    } else {
        assert(name == stem + ".json"@);
        assert forall|i: int| 0 <= i < name.len() implies path_safe(#[trigger] name[i]) by {
            if i < stem.len() {
                assert(name[i] == stem[i]);
            }
        }
        assert(name.subrange(name.len() - 5, name.len() as int) =~= ".json"@);
    }
    if name.contains('/') {
        let j = choose|j: int| 0 <= j < name.len() && name[j] == '/';
        assert(path_safe(name[j]));
    }
}

/// A context name that is already a clean file stem (non-empty, path-safe
/// throughout, no dot at either end) is used verbatim, so two such names
/// never share a layout file.
pub proof fn lemma_clean_context_kept_verbatim(context: Seq<char>)
    requires
        context.len() > 0,
        forall|i: int| 0 <= i < context.len() ==> path_safe(#[trigger] context[i]),
        context[0] != '.',
        context.last() != '.',
    ensures
        layout_file_name_spec(context) == context + ".json"@,
{
    let m = context.map_values(|c: char| safe_char(c));
    assert(m =~= context);
    assert(trim_front_dots(m) == m);
    assert(trim_back_dots(m) == m);
}

/// Two different clean context names get different layout files.
pub proof fn lemma_clean_contexts_do_not_collide(a: Seq<char>, b: Seq<char>)
    requires
        a.len() > 0,
        forall|i: int| 0 <= i < a.len() ==> path_safe(#[trigger] a[i]),
        a[0] != '.',
        a.last() != '.',
        b.len() > 0,
        forall|i: int| 0 <= i < b.len() ==> path_safe(#[trigger] b[i]),
        b[0] != '.',
        b.last() != '.',
        a != b,
    ensures
        layout_file_name_spec(a) != layout_file_name_spec(b),
{
    lemma_clean_context_kept_verbatim(a);
    lemma_clean_context_kept_verbatim(b);
    if layout_file_name_spec(a) == layout_file_name_spec(b) {
        let x = a + ".json"@;
        let y = b + ".json"@;
        reveal_strlit(".json");
        assert(x.len() == y.len());
        assert(a =~= x.subrange(0, a.len() as int));
        assert(b =~= y.subrange(0, b.len() as int));
    }
}

} // verus!
