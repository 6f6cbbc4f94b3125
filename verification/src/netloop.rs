//! The network thread's decisions, tick by tick: whether to watch a warm
//! world, the status label, when a log tail or a resource LIST is fetched
//! again, what the eviction toast says and when it clears, when the models
//! are rebuilt, and the order the merged attention list is shown in. The
//! thread itself (connecting, watching, awaiting) runs outside; it asks
//! these functions what to do and hands back what happened.

use vstd::prelude::*;
use crate::text::push_str;
use crate::screens::ClusterId;
use crate::ui::NamespaceFilter;
use crate::perms::PermCache;
use crate::order::{lex_le, lex_le_exec, lemma_lex_total, lemma_lex_trans, lemma_lex_antisym};

verus! {

/// Whether to connect the warm world: only when one was asked for and it
/// is not the hot context itself (then the session runs single-world).
pub fn warm_wanted(warm: Option<&str>, hot_context: &str) -> (r: bool)
    ensures
        r == match warm {
            Some(w) => w@ != hot_context@,
            None => false,
        },
{
    match warm {
        Some(w) => {
            let a = String::from_str(w);
            let b = String::from_str(hot_context);
            !(a == b)
        },
        None => false,
    }
}

/// The status label: both contexts in a paired session, else the hot
/// context and its platform.
pub fn session_label(hot_context: &str, platform: &str, warm_context: Option<&str>) -> (r: String)
    ensures
        r@ == match warm_context {
            Some(w) => "HOT "@ + hot_context@ + " / WARM "@ + w@,
            None => hot_context@ + " \u{b7} "@ + platform@,
        },
{
    let mut s = String::new();
    match warm_context {
        Some(w) => {
            push_str(&mut s, "HOT ");
            push_str(&mut s, hot_context);
            push_str(&mut s, " / WARM ");
            push_str(&mut s, w);
        },
        None => {
            push_str(&mut s, hot_context);
            push_str(&mut s, " \u{b7} ");
            push_str(&mut s, platform);
        },
    }
    s
}

/// What the network thread is started with: the hot context (or the
/// kubeconfig's current one), the kubeconfig path as text, the warm context
/// to pair with, and the CRDs to project onto the map.
#[derive(Debug, Clone)]
pub struct NetArgs {
    pub context: Option<String>,
    pub kubeconfig: Option<String>,
    pub warm: Option<String>,
    pub projections: Vec<String>,
}

/// Which pod's logs the UI wants tailed.
#[derive(Debug, Clone, PartialEq, Eq)]
pub struct LogReq {
    pub cluster: ClusterId,
    pub namespace: String,
    pub pod: String,
    /// Tail the previously terminated container.
    pub previous: bool,
}

/// Two log requests name the same tail.
pub open spec fn same_req(a: LogReq, b: LogReq) -> bool {
    a.cluster == b.cluster && a.namespace@ == b.namespace@ && a.pod@ == b.pod@ && a.previous
        == b.previous
}

/// Two optional log requests are the same.
pub open spec fn same_opt_req(a: Option<LogReq>, b: Option<LogReq>) -> bool {
    match (a, b) {
        (Some(x), Some(y)) => same_req(x, y),
        (None, None) => true,
        _ => false,
    }
}

/// Whether two log requests name the same tail.
pub fn same_log_req(a: &LogReq, b: &LogReq) -> (r: bool)
    ensures
        r == same_req(*a, *b),
{
    a.cluster == b.cluster && a.namespace == b.namespace && a.pod == b.pod && a.previous == b.previous
}

/// How many ticks (of a quarter second) pass between periodic refreshes.
pub const REFRESH_TICKS: u64 = 8;

/// A log tail is fetched when one is requested and either the request
/// changed since the last tick or the periodic refresh is due.
pub fn should_fetch_logs(req: &Option<LogReq>, last: &Option<LogReq>, ticks: u64) -> (r: bool)
    ensures
        r == (req is Some && (!same_opt_req(*req, *last) || ticks % REFRESH_TICKS == 0)),
{
    match req {
        None => false,
        Some(q) => {
            let changed = match last {
                Some(l) => !same_log_req(q, l),
                None => true,
            };
            changed || ticks % REFRESH_TICKS == 0
        },
    }
}

/// A fetched tail is stored only while it is still the one requested.
pub fn keep_fetched_tail(fetched_for: &LogReq, requested_now: &Option<LogReq>) -> (r: bool)
    ensures
        r == match requested_now {
            Some(q) => same_req(*q, *fetched_for),
            None => false,
        },
{
    match requested_now {
        Some(q) => same_log_req(q, fetched_for),
        None => false,
    }
}

/// The resource browser's LIST runs again when its result slot is empty
/// (a fresh request), when the kind changed, or on the periodic refresh.
pub fn should_list(pending: bool, kind: &str, last_kind: &Option<String>, ticks: u64) -> (r: bool)
    ensures
        r == (pending || match last_kind {
            Some(k) => k@ != kind@,
            None => true,
        } || ticks % REFRESH_TICKS == 0),
{
    let changed = match last_kind {
        Some(k) => {
            let now = String::from_str(kind);
            !(*k == now)
        },
        None => true,
    };
    pending || changed || ticks % REFRESH_TICKS == 0
}

/// How many ticks the eviction toast stays up.
pub const TOAST_TICKS: u64 = 12;

/// The eviction toast clears once more than [`TOAST_TICKS`] ticks have
/// passed since it was set.
pub fn toast_expired(set_at: Option<u64>, ticks: u64) -> (r: bool)
    ensures
        r == match set_at {
            Some(t0) => (if ticks >= t0 { ticks - t0 } else { 0 }) > TOAST_TICKS,
            None => false,
        },
{
    match set_at {
        Some(t0) => {
            let d = if ticks >= t0 {
                ticks - t0
            } else {
                0
            };
            d > TOAST_TICKS
        },
        None => false,
    }
}

/// The toast while an eviction runs.
pub fn evicting_toast(namespace: &str, pod: &str) -> (r: String)
    ensures
        r@ == "evicting "@ + namespace@ + "/"@ + pod@ + " \u{2026}"@,
{
    let mut s = String::new();
    push_str(&mut s, "evicting ");
    push_str(&mut s, namespace);
    push_str(&mut s, "/");
    push_str(&mut s, pod);
    push_str(&mut s, " \u{2026}");
    s
}

/// The toast once an eviction finished.
pub fn evicted_toast(namespace: &str, pod: &str, result: Result<(), String>) -> (r: String)
    ensures
        r@ == match result {
            Ok(_) => "evicted "@ + namespace@ + "/"@ + pod@,
            Err(e) => "evict failed: "@ + e@,
        },
{
    let mut s = String::new();
    match result {
        Ok(_) => {
            push_str(&mut s, "evicted ");
            push_str(&mut s, namespace);
            push_str(&mut s, "/");
            push_str(&mut s, pod);
        },
        Err(e) => {
            push_str(&mut s, "evict failed: ");
            push_str(&mut s, e.as_str());
        },
    }
    s
}

/// The cluster whose client serves a request: the warm one when asked for
/// and connected, else the hot one.
pub fn serving_cluster(asked: ClusterId, warm_connected: bool) -> (r: ClusterId)
    ensures
        r == if asked == ClusterId::Warm && warm_connected {
            ClusterId::Warm
        } else {
            ClusterId::Hot
        },
{
    match asked {
        ClusterId::Warm => if warm_connected {
            ClusterId::Warm
        } else {
            ClusterId::Hot
        },
        ClusterId::Hot => ClusterId::Hot,
    }
}

/// Two namespace filters select the same namespaces.
pub open spec fn same_filter(a: NamespaceFilter, b: NamespaceFilter) -> bool {
    match (a, b) {
        (NamespaceFilter::All, NamespaceFilter::All) => true,
        (NamespaceFilter::Only(x), NamespaceFilter::Only(y)) => x@.map_values(|s: String| s@)
            == y@.map_values(|s: String| s@),
        _ => false,
    }
}

/// Whether two namespace filters select the same namespaces.
pub fn filters_equal(a: &NamespaceFilter, b: &NamespaceFilter) -> (r: bool)
    ensures
        r == same_filter(*a, *b),
{
    match (a, b) {
        (NamespaceFilter::All, NamespaceFilter::All) => true,
        (NamespaceFilter::Only(x), NamespaceFilter::Only(y)) => {
            let ghost xv = x@.map_values(|s: String| s@);
            let ghost yv = y@.map_values(|s: String| s@);
            if x.len() != y.len() {
                assert(xv.len() != yv.len());
                return false;
            }
            let mut i: usize = 0;
            while i < x.len()
                invariant
                    *a == NamespaceFilter::Only(*x),
                    *b == NamespaceFilter::Only(*y),
                    x@.len() == y@.len(),
                    xv == x@.map_values(|s: String| s@),
                    yv == y@.map_values(|s: String| s@),
                    i <= x@.len(),
                    forall|k: int| 0 <= k < i ==> xv[k] == yv[k],
                decreases x.len() - i,
            {
                if !(x[i] == y[i]) {
                    assert(xv[i as int] != yv[i as int]);
                    return false;
                }
                i = i + 1;
            }
            assert(xv =~= yv);
            true
        },
        _ => false,
    }
}

/// The models are rebuilt once the hot world has synced, when it changed
/// or the namespace filter changed since the last build.
pub fn should_rebuild(hot_ready: bool, dirty: bool, filter: &NamespaceFilter, last: &NamespaceFilter) -> (r: bool)
    ensures
        r == (hot_ready && (dirty || !same_filter(*filter, *last))),
{
    hot_ready && (dirty || !filters_equal(filter, last))
}

// --- the merged attention list -----------------------------------------

/// What orders a concern in the merged list: its severity's rank (higher
/// is more severe), its key, and its world.
#[derive(Debug, Clone)]
pub struct ConcernKey {
    pub rank: u8,
    pub key: String,
    pub cluster: ClusterId,
}

/// The hot world sorts before the warm one.
pub open spec fn cluster_rank(c: ClusterId) -> int {
    match c {
        ClusterId::Hot => 0,
        ClusterId::Warm => 1,
    }
}

/// `a` may come before `b`: more severe first, then by key, then hot
/// before warm.
pub open spec fn concern_le(a: ConcernKey, b: ConcernKey) -> bool {
    ||| a.rank > b.rank
    ||| (a.rank == b.rank && a.key@ != b.key@ && lex_le(a.key@, b.key@))
    ||| (a.rank == b.rank && a.key@ == b.key@ && cluster_rank(a.cluster) <= cluster_rank(b.cluster))
}

proof fn lemma_concern_total(a: ConcernKey, b: ConcernKey)
    ensures
        concern_le(a, b) || concern_le(b, a),
{
    lemma_lex_total(a.key@, b.key@);
}

proof fn lemma_concern_trans(a: ConcernKey, b: ConcernKey, c: ConcernKey)
    requires
        concern_le(a, b),
        concern_le(b, c),
    ensures
        concern_le(a, c),
{
    if a.rank == b.rank && b.rank == c.rank {
        if a.key@ != b.key@ && b.key@ != c.key@ {
            lemma_lex_trans(a.key@, b.key@, c.key@);
            if a.key@ == c.key@ {
                lemma_lex_antisym(a.key@, b.key@);
            }
        }
    }
}

fn concern_le_exec(a: &ConcernKey, b: &ConcernKey) -> (r: bool)
    ensures
        r == concern_le(*a, *b),
{
    if a.rank != b.rank {
        return a.rank > b.rank;
    }
    if !(a.key == b.key) {
        return lex_le_exec(&a.key, &b.key);
    }
    let ca: u8 = match a.cluster {
        ClusterId::Hot => 0,
        ClusterId::Warm => 1,
    };
    let cb: u8 = match b.cluster {
        ClusterId::Hot => 0,
        ClusterId::Warm => 1,
    };
    ca <= cb
}

/// `order` lists each of `0..n` exactly once.
pub open spec fn is_permutation(order: Seq<usize>, n: nat) -> bool {
    &&& order.len() == n
    &&& forall|i: int| 0 <= i < order.len() ==> #[trigger] order[i] < n
    &&& forall|i: int, j: int| 0 <= i < j < order.len() ==> order[i] != order[j]
}

/// `order` lists the keys' indices in display order.
pub open spec fn in_display_order(keys: Seq<ConcernKey>, order: Seq<usize>) -> bool {
    forall|i: int, j: int|
        0 <= i < j < order.len() ==> concern_le(keys[order[i] as int], keys[order[j] as int])
}

/// Concerns that order alike keep their input order.
pub open spec fn keeps_ties_in_input_order(keys: Seq<ConcernKey>, order: Seq<usize>) -> bool {
    forall|i: int, j: int|
        0 <= i < j < order.len() && concern_le(keys[order[j] as int], keys[order[i] as int])
            ==> order[i] < order[j]
}

/// The order the merged attention list is shown in: every concern once,
/// the most severe first, then by key, hot before warm; concerns that
/// order alike stay in the order they were given.
pub fn attention_order(keys: &Vec<ConcernKey>) -> (order: Vec<usize>)
    ensures
        is_permutation(order@, keys@.len()),
        in_display_order(keys@, order@),
        keeps_ties_in_input_order(keys@, order@),
{
    let mut order: Vec<usize> = Vec::new();
    let mut n: usize = 0;
    while n < keys.len()
        invariant
            n <= keys@.len(),
            order@.len() == n,
            forall|i: int| 0 <= i < order@.len() ==> #[trigger] order@[i] < n,
            forall|i: int, j: int| 0 <= i < j < order@.len() ==> order@[i] != order@[j],
            in_display_order(keys@, order@),
            keeps_ties_in_input_order(keys@, order@),
        decreases keys.len() - n,
    {
        let mut p: usize = 0;
        while p < order.len() && concern_le_exec(&keys[order[p]], &keys[n])
            invariant
                n < keys@.len(),
                order@.len() == n,
                forall|i: int| 0 <= i < order@.len() ==> #[trigger] order@[i] < n,
                p <= order@.len(),
                forall|i: int| 0 <= i < p ==> concern_le(keys@[order@[i] as int], keys@[n as int]),
            decreases order.len() - p,
        {
            p = p + 1;
        }
        let ghost before = order@;
        order.insert(p, n);
        proof {
            let after = order@;
            assert(after =~= before.insert(p as int, n));
            let x = keys@[n as int];
            if p < before.len() {
                lemma_concern_total(keys@[before[p as int] as int], x);
            }
            assert forall|i: int| 0 <= i < after.len() implies #[trigger] after[i] < n + 1 by {
                if i < p {
                    assert(after[i] == before[i]);
                } else if i > p {
                    assert(after[i] == before[i - 1]);
                }
            }
            assert forall|i: int, j: int| 0 <= i < j < after.len() implies after[i] != after[j] by {
                if i < p && j < p {
                    assert(after[i] == before[i] && after[j] == before[j]);
                } else if i < p && j == p {
                    assert(after[i] == before[i]);
                } else if i < p && j > p {
                    assert(after[i] == before[i] && after[j] == before[j - 1]);
                } else if i == p {
                    assert(after[j] == before[j - 1]);
                } else {
                    assert(after[i] == before[i - 1] && after[j] == before[j - 1]);
                }
            }
            assert forall|i: int, j: int| 0 <= i < j < after.len() implies concern_le(
                keys@[after[i] as int],
                keys@[after[j] as int],
            ) by {
                if i < p && j < p {
                    assert(after[i] == before[i] && after[j] == before[j]);
                } else if i < p && j == p {
                    assert(after[i] == before[i]);
                } else if i < p && j > p {
                    assert(after[i] == before[i] && after[j] == before[j - 1]);
                    lemma_concern_trans(keys@[before[i] as int], x, keys@[before[p as int] as int]);
                    if j - 1 > p {
                        lemma_concern_trans(
                            keys@[before[i] as int],
                            keys@[before[p as int] as int],
                            keys@[before[j - 1] as int],
                        );
                    }
                } else if i == p {
                    assert(after[j] == before[j - 1]);
                    if j - 1 > p {
                        lemma_concern_trans(
                            x,
                            keys@[before[p as int] as int],
                            keys@[before[j - 1] as int],
                        );
                    }
                } else {
                    assert(after[i] == before[i - 1] && after[j] == before[j - 1]);
                }
            }
            assert forall|i: int, j: int|
                0 <= i < j < after.len() && concern_le(
                    keys@[after[j] as int],
                    keys@[after[i] as int],
                ) implies after[i] < after[j] by {
                if i < p && j < p {
                    assert(after[i] == before[i] && after[j] == before[j]);
                } else if i < p && j == p {
                    assert(after[i] == before[i]);
                } else if i < p && j > p {
                    assert(after[i] == before[i] && after[j] == before[j - 1]);
                } else if i == p {
                    assert(after[j] == before[j - 1]);
                    assert(before[j - 1] < n);
                    if j - 1 > p {
                        lemma_concern_trans(
                            keys@[before[p as int] as int],
                            keys@[before[j - 1] as int],
                            x,
                        );
                    }
                    assert(false);
                } else {
                    assert(after[i] == before[i - 1] && after[j] == before[j - 1]);
                }
            }
        }
        n = n + 1;
    }
    order
}

// --- switching the hot cluster ---------------------------------------

/// What the network thread holds about the hot cluster that a context
/// switch must reset.
#[derive(Debug, Clone)]
pub struct HotState {
    /// The hot world has reported its initial sync.
    pub ready_hot: bool,
    /// A snapshot is published for the UI.
    pub has_snapshot: bool,
    /// The status line.
    pub status: String,
    /// The eviction-permission answers and queued probes.
    pub perms: PermCache,
    pub ns_filter: NamespaceFilter,
    /// The discovered resource kinds, by label (`None` = not discovered).
    pub kinds: Option<Vec<String>>,
    pub discover_warnings: Vec<String>,
    /// The kind the browser asked to list.
    pub browse_req: Option<String>,
    /// The browser's last listing was kept.
    pub has_browse_out: bool,
}

/// The status while a switch to `ctx` connects.
pub fn switching_status(ctx: &str) -> (r: String)
    ensures
        r@ == "switching \u{2192} "@ + ctx@ + " \u{2026}"@,
{
    let mut s = String::new();
    push_str(&mut s, "switching \u{2192} ");
    push_str(&mut s, ctx);
    push_str(&mut s, " \u{2026}");
    s
}

/// The status after a switch whose connection failed: the rest of the
/// state is kept.
pub fn switch_failed_status(err: &str) -> (r: String)
    ensures
        r@ == "switch failed: "@ + err@,
{
    let mut s = String::new();
    push_str(&mut s, "switch failed: ");
    push_str(&mut s, err);
    s
}

/// A switch connected to `hot_context`: everything learned about the old
/// cluster is dropped. The world is not ready and no snapshot is shown
/// (fog until the new world syncs); the permission answers, the namespace
/// filter, the discovered kinds, their warnings and any browse are reset;
/// the status names the new session, exploring.
pub fn apply_switch(st: &mut HotState, hot_context: &str, platform: &str, warm_context: Option<&str>)
    ensures
        !final(st).ready_hot,
        !final(st).has_snapshot,
        final(st).perms.wf(),
        final(st).perms.known@.len() == 0,
        final(st).perms.pending@.len() == 0,
        final(st).ns_filter == NamespaceFilter::All,
        final(st).kinds is None,
        final(st).discover_warnings@.len() == 0,
        final(st).browse_req is None,
        !final(st).has_browse_out,
        final(st).status@ == (match warm_context {
            Some(w) => "HOT "@ + hot_context@ + " / WARM "@ + w@,
            None => hot_context@ + " \u{b7} "@ + platform@,
        }) + " \u{b7} exploring\u{2026}"@,
{
    st.ready_hot = false;
    let mut label = session_label(hot_context, platform, warm_context);
    push_str(&mut label, " \u{b7} exploring\u{2026}");
    st.status = label;
    st.has_snapshot = false;
    st.perms.clear();
    st.ns_filter = NamespaceFilter::All;
    st.kinds = None;
    st.discover_warnings = Vec::new();
    st.browse_req = None;
    st.has_browse_out = false;
}

} // verus!
