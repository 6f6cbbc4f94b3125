//! The eviction-permission cache shared by the render loop and the network
//! thread: may the user delete pods in (cluster, namespace)? Asking answers
//! from the cache, or queues an access probe and answers "not yet"; the
//! network thread takes the queued probes and records their answers.

use vstd::prelude::*;
use crate::screens::ClusterId;

verus! {

/// A (cluster, namespace) scope.
pub type Scope = (ClusterId, Seq<char>);

/// The recorded answer for `k`: the latest one recorded, if any.
pub open spec fn lookup(known: Seq<(ClusterId, String, bool)>, k: Scope) -> Option<bool>
    decreases known.len(),
{
    if known.len() == 0 {
        None
    } else if (known.last().0, known.last().1@) == k {
        Some(known.last().2)
    } else {
        lookup(known.drop_last(), k)
    }
}

/// The scopes awaiting a probe.
pub open spec fn scopes(v: Seq<(ClusterId, String)>) -> Seq<Scope> {
    v.map_values(|e: (ClusterId, String)| (e.0, e.1@))
}

/// The cache: recorded answers and the scopes awaiting a probe (each
/// once).
#[derive(Debug, Clone)]
pub struct PermCache {
    pub known: Vec<(ClusterId, String, bool)>,
    pub pending: Vec<(ClusterId, String)>,
}

impl PermCache {
    /// The cache's invariant: no scope awaits a probe twice.
    pub open spec fn wf(&self) -> bool {
        scopes(self.pending@).no_duplicates()
    }

    /// An empty cache.
    pub fn new() -> (r: PermCache)
        ensures
            r.wf(),
            r.known@.len() == 0,
            r.pending@.len() == 0,
    {
        PermCache { known: Vec::new(), pending: Vec::new() }
    }

    fn find_known(&self, cluster: ClusterId, namespace: &str) -> (r: Option<bool>)
        ensures
            r == lookup(self.known@, (cluster, namespace@)),
    {
        let ns = String::from_str(namespace);
        let mut i: usize = self.known.len();
        assert(self.known@.take(self.known@.len() as int) == self.known@);
        while i > 0
            invariant
                i <= self.known@.len(),
                ns@ == namespace@,
                lookup(self.known@, (cluster, namespace@)) == lookup(
                    self.known@.take(i as int),
                    (cluster, namespace@),
                ),
            decreases i,
        {
            let e = &self.known[i - 1];
            assert(self.known@.take(i as int).drop_last() == self.known@.take(i - 1));
            assert(self.known@.take(i as int).last() == self.known@[i - 1]);
            if e.0 == cluster && e.1 == ns {
                return Some(e.2);
            }
            i = i - 1;
        }
        None
    }

    fn is_pending(&self, cluster: ClusterId, namespace: &str) -> (r: bool)
        ensures
            r == scopes(self.pending@).contains((cluster, namespace@)),
    {
        let ns = String::from_str(namespace);
        let mut i: usize = 0;
        while i < self.pending.len()
            invariant
                i <= self.pending@.len(),
                ns@ == namespace@,
                forall|j: int| 0 <= j < i ==> scopes(self.pending@)[j] != (cluster, namespace@),
            decreases self.pending.len() - i,
        {
            let e = &self.pending[i];
            if e.0 == cluster && e.1 == ns {
                assert(scopes(self.pending@)[i as int] == (cluster, namespace@));
                return true;
            }
            i = i + 1;
        }
        false
    }

    /// May the user evict pods in (cluster, namespace)? The recorded answer
    /// when there is one; otherwise `None`, and the scope is queued for a
    /// probe (once).
    pub fn ask(&mut self, cluster: ClusterId, namespace: &str) -> (r: Option<bool>)
        requires
            old(self).wf(),
        ensures
            final(self).wf(),
            r == lookup(old(self).known@, (cluster, namespace@)),
            final(self).known@ == old(self).known@,
            r is Some ==> final(self).pending@ == old(self).pending@,
            r is None ==> scopes(final(self).pending@) == if scopes(old(self).pending@).contains(
                (cluster, namespace@),
            ) {
                scopes(old(self).pending@)
            } else {
                scopes(old(self).pending@).push((cluster, namespace@))
            },
    {
        match self.find_known(cluster, namespace) {
            Some(b) => Some(b),
            None => {
                if !self.is_pending(cluster, namespace) {
                    let ghost before = scopes(self.pending@);
                    self.pending.push((cluster, String::from_str(namespace)));
                    assert(scopes(self.pending@) =~= before.push((cluster, namespace@)));
                }
                None
            },
        }
    }

    /// Hands the queued scopes to the prober, leaving none queued.
    pub fn take_pending(&mut self) -> (r: Vec<(ClusterId, String)>)
        ensures
            final(self).wf(),
            scopes(r@) == scopes(old(self).pending@),
            final(self).pending@.len() == 0,
            final(self).known@ == old(self).known@,
    {
        let mut out: Vec<(ClusterId, String)> = Vec::new();
        std::mem::swap(&mut out, &mut self.pending);
        assert(scopes(self.pending@) =~= Seq::<Scope>::empty());
        out
    }

    /// Records a probe's answer for (cluster, namespace).
    pub fn answer(&mut self, cluster: ClusterId, namespace: String, allowed: bool)
        requires
            old(self).wf(),
        ensures
            final(self).wf(),
            forall|k: Scope|
                lookup(final(self).known@, k) == if k == (cluster, namespace@) {
                    Some(allowed)
                } else {
                    lookup(old(self).known@, k)
                },
            final(self).pending@ == old(self).pending@,
    {
        let ghost before = self.known@;
        let ghost ns = namespace@;
        self.known.push((cluster, namespace, allowed));
        assert forall|k: Scope| lookup(self.known@, k) == if k == (cluster, ns) {
            Some(allowed)
        } else {
            lookup(before, k)
        } by {
            assert(self.known@.drop_last() == before);
        }
    }

    /// Forgets every answer and queued probe (the hot cluster changed).
    pub fn clear(&mut self)
        ensures
            final(self).wf(),
            final(self).known@.len() == 0,
            final(self).pending@.len() == 0,
    {
        self.known = Vec::new();
        self.pending = Vec::new();
    }
}

/// Asking twice queues one probe: a scope already awaiting an answer is not
/// queued again, and an answered scope is never queued.
pub proof fn lemma_a_scope_is_probed_once(pending: Seq<Scope>, k: Scope)
    requires
        pending.no_duplicates(),
    ensures
        pending.contains(k) ==> pending.no_duplicates(),
        !pending.contains(k) ==> pending.push(k).no_duplicates(),
{
    if !pending.contains(k) {
        assert forall|i: int, j: int| 0 <= i < j < pending.push(k).len() implies pending.push(k)[i]
            != pending.push(k)[j] by {
            if j == pending.len() {
                assert(pending[i] == pending.push(k)[i]);
            }
        }
    }
}

} // verus!
