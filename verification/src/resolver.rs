//! Matching inbound responses to outbound pending calls, and expiring stale
//! pendings.
//!
//! Two variants share one contract. The id-based resolver correlates by a
//! 64-bit per-message id and supports out-of-order responses. The queue-based
//! resolver is the fallback for servers lacking per-message ids: it
//! correlates by operation tag, distinguishing key and arrival order, and a
//! response completes the first still-pending request it matches.

use vstd::prelude::*;
use crate::ops::RpcApiOps;

verus! {

/// A request awaiting its response: operation tag, optional correlation id,
/// optional distinguishing key, deadline, and the completion handle token the
/// caller awaits.
#[derive(Clone, Copy, Debug, PartialEq, Eq, Structural)]
pub struct Pending {
    pub op: RpcApiOps,
    pub id: Option<u64>,
    pub key: Option<u64>,
    pub deadline: u64,
    pub waiter: u64,
}

/// Pairwise-distinct correlation ids: the id-based resolver holds at most one
/// pending per id.
pub open spec fn distinct_ids(s: Seq<Pending>) -> bool {
    forall|i: int, j: int| 0 <= i < j < s.len() ==> s[i].id != s[j].id
}

/// Every element of a filtered sequence occurs in the original.
proof fn lemma_filter_subset(s: Seq<Pending>, pred: spec_fn(Pending) -> bool)
    ensures
        forall|i: int|
            0 <= i < s.filter(pred).len() ==> s.contains(#[trigger] s.filter(pred)[i]),
    decreases s.len(),
{
    reveal(Seq::filter);
    if s.len() > 0 {
        let d = s.drop_last();
        lemma_filter_subset(d, pred);
        assert forall|i: int| 0 <= i < s.filter(pred).len() implies s.contains(
            #[trigger] s.filter(pred)[i],
        ) by {
            let x = s.filter(pred)[i];
            if i < d.filter(pred).len() {
                assert(d.contains(x));
                let k = choose|k: int| 0 <= k < d.len() && d[k] == x;
                assert(s[k] == x);
            } else {
                assert(x == s.last());
                assert(s[s.len() - 1] == x);
            }
        }
    }
}

/// Filtering keeps correlation ids pairwise distinct.
proof fn lemma_filter_distinct_ids(s: Seq<Pending>, pred: spec_fn(Pending) -> bool)
    requires
        distinct_ids(s),
    ensures
        distinct_ids(s.filter(pred)),
    decreases s.len(),
{
    reveal(Seq::filter);
    if s.len() > 0 {
        let d = s.drop_last();
        assert(distinct_ids(d)) by {
            assert forall|i: int, j: int| 0 <= i < j < d.len() implies d[i].id != d[j].id by {
                assert(s[i].id != s[j].id);
            }
        }
        lemma_filter_distinct_ids(d, pred);
        if pred(s.last()) {
            lemma_filter_subset(d, pred);
            let f = d.filter(pred);
            assert forall|i: int, j: int|
                0 <= i < j < s.filter(pred).len() implies s.filter(pred)[i].id != s.filter(
                pred,
            )[j].id by {
                if j < f.len() {
                } else {
                    assert(s.filter(pred)[j] == s.last());
                    assert(d.contains(f[i]));
                    let k = choose|k: int| 0 <= k < d.len() && d[k] == f[i];
                    assert(s[k] == f[i]);
                    assert(s[k].id != s[s.len() - 1].id);
                }
            }
        }
    }
}

/// Removes every pending whose deadline is at or before `now`, keeping the
/// others in order; returns the expired ones in order.
#[verifier::loop_isolation(false)]
fn remove_expired_from(pendings: &mut Vec<Pending>, now: u64) -> (expired: Vec<Pending>)
    ensures
        final(pendings)@ == old(pendings)@.filter(|p: Pending| p.deadline > now),
        expired@ == old(pendings)@.filter(|p: Pending| p.deadline <= now),
{
    let ghost orig = pendings@;
    let ghost keep_pred = |p: Pending| p.deadline > now;
    let ghost drop_pred = |p: Pending| p.deadline <= now;
    let mut kept: Vec<Pending> = Vec::new();
    let mut expired: Vec<Pending> = Vec::new();
    let mut i: usize = 0;
    while i < pendings.len()
        invariant
            i <= orig.len(),
            pendings@ == orig,
            kept@ == orig.subrange(0, i as int).filter(keep_pred),
            expired@ == orig.subrange(0, i as int).filter(drop_pred),
        decreases orig.len() - i,
    {
        let p = pendings[i];
        proof {
            let prefix = orig.subrange(0, i as int);
            assert(orig.subrange(0, i + 1) =~= prefix.push(orig[i as int]));
            prefix.lemma_filter_push(orig[i as int], keep_pred);
            prefix.lemma_filter_push(orig[i as int], drop_pred);
        }
        if p.deadline <= now {
            expired.push(p);
        } else {
            kept.push(p);
        }
        i = i + 1;
    }
    proof {
        assert(orig.subrange(0, orig.len() as int) =~= orig);
    }
    *pendings = kept;
    expired
}

/// Removes every pending, returning them in order. Shutdown completes each
/// with a Cancelled error.
fn drain_all(pendings: &mut Vec<Pending>) -> (out: Vec<Pending>)
    ensures
        out@ == old(pendings)@,
        final(pendings)@.len() == 0,
{
    let mut out: Vec<Pending> = Vec::new();
    core::mem::swap(pendings, &mut out);
    out
}

/// The id-based resolver: at most one pending per correlation id.
#[derive(Clone, Debug)]
pub struct IdResolver {
    pub pendings: Vec<Pending>,
}

impl IdResolver {
    pub open spec fn wf(self) -> bool {
        &&& distinct_ids(self.pendings@)
        &&& forall|i: int| 0 <= i < self.pendings@.len() ==> self.pendings@[i].id is Some
    }

    /// Whether some pending already carries this correlation id.
    pub open spec fn spec_contains_id(self, id: u64) -> bool {
        exists|i: int| 0 <= i < self.pendings@.len() && self.pendings@[i].id == Some(id)
    }

    pub fn new() -> (r: IdResolver)
        ensures
            r.wf(),
            r.pendings@.len() == 0,
    {
        IdResolver { pendings: Vec::new() }
    }

    /// Inserts a pending under a fresh id. A collision with a live pending is
    /// programmer error: it is detected and the request dropped, never
    /// silently merged.
    #[verifier::loop_isolation(false)]
    pub fn register_request(&mut self, p: Pending) -> (ok: bool)
        requires
            old(self).wf(),
            p.id is Some,
        ensures
            final(self).wf(),
            !ok ==> old(self).spec_contains_id(p.id->0) && *final(self) == *old(self),
            ok ==> !old(self).spec_contains_id(p.id->0) && final(self).pendings@ == old(
                self,
            ).pendings@.push(p),
    {
        let id = match p.id {
            Some(v) => v,
            None => 0,
        };
        let mut i: usize = 0;
        while i < self.pendings.len()
            invariant
                i <= self.pendings@.len(),
                *self == *old(self),
                p.id == Some(id),
                forall|j: int| 0 <= j < i ==> self.pendings@[j].id != Some(id),
            decreases self.pendings@.len() - i,
        {
            let q = self.pendings[i];
            let hit = match q.id {
                Some(v) => v == id,
                None => false,
            };
            if hit {
                proof {
                    assert(old(self).pendings@[i as int].id == Some(id));
                }
                return false;
            }
            i = i + 1;
        }
        self.pendings.push(p);
        true
    }
}

/// The queue-based resolver: pendings form per-(operation, key) FIFO queues
/// inside one arrival-ordered list.
#[derive(Clone, Debug)]
pub struct QueueResolver {
    pub pendings: Vec<Pending>,
}

impl QueueResolver {
    pub fn new() -> (r: QueueResolver)
        ensures
            r.pendings@.len() == 0,
    {
        QueueResolver { pendings: Vec::new() }
    }

    /// Appends a pending; arrival order is the correlation order.
    pub fn register_request(&mut self, p: Pending)
        ensures
            final(self).pendings@ == old(self).pendings@.push(p),
    {
        self.pendings.push(p);
    }
}

/// How a response is matched against a pending, by variant. In the id-based
/// variant a response must carry the pending's id and operation tag; in the
/// queue-based variant it must carry the pending's operation tag and
/// distinguishing key.
pub open spec fn response_matches(
    r: DynResolver,
    p: Pending,
    op: RpcApiOps,
    id: Option<u64>,
    key: Option<u64>,
) -> bool {
    match r {
        DynResolver::Ids(_) => id is Some && p.id == id && p.op == op,
        DynResolver::Queues(_) => p.op == op && p.key == key,
    }
}

/// The resolver variant chosen once per session at handshake time.
#[derive(Clone, Debug)]
pub enum DynResolver {
    Ids(IdResolver),
    Queues(QueueResolver),
}

impl DynResolver {
    pub open spec fn spec_pendings(self) -> Seq<Pending> {
        match self {
            DynResolver::Ids(r) => r.pendings@,
            DynResolver::Queues(r) => r.pendings@,
        }
    }

    pub open spec fn wf(self) -> bool {
        match self {
            DynResolver::Ids(r) => r.wf(),
            DynResolver::Queues(_) => true,
        }
    }

    pub open spec fn is_id_based(self) -> bool {
        self is Ids
    }

    /// Whether some pending already carries this correlation id.
    pub open spec fn spec_contains_id(self, id: u64) -> bool {
        exists|i: int| 0 <= i < self.spec_pendings().len() && self.spec_pendings()[i].id == Some(
            id,
        )
    }

    /// The resolver variant is chosen by the server's handshake capability:
    /// id-based iff the server supports per-message ids.
    pub fn new(handle_message_id: bool) -> (r: DynResolver)
        ensures
            r.wf(),
            r.spec_pendings().len() == 0,
            r.is_id_based() == handle_message_id,
    {
        if handle_message_id {
            DynResolver::Ids(IdResolver::new())
        } else {
            DynResolver::Queues(QueueResolver::new())
        }
    }

    pub fn pendings_len(&self) -> (r: usize)
        ensures
            r == self.spec_pendings().len(),
    {
        match self {
            DynResolver::Ids(r) => r.pendings.len(),
            DynResolver::Queues(r) => r.pendings.len(),
        }
    }

    /// Inserts a pending. In the id-based variant a collision with a live
    /// pending id is detected and reported by returning false, and the
    /// resolver is left unchanged.
    pub fn register_request(&mut self, p: Pending) -> (ok: bool)
        requires
            old(self).wf(),
            old(self).is_id_based() ==> p.id is Some,
        ensures
            final(self).wf(),
            final(self).is_id_based() == old(self).is_id_based(),
            ok ==> final(self).spec_pendings() == old(self).spec_pendings().push(p),
            ok && old(self).is_id_based() ==> !old(self).spec_contains_id(p.id->0),
            !ok ==> *final(self) == *old(self) && old(self).is_id_based() && old(
                self,
            ).spec_contains_id(p.id->0),
            old(self).is_id_based() && (p.id matches Some(v) && !old(self).spec_contains_id(v))
                ==> ok,
            !old(self).is_id_based() ==> ok,
    {
        match self {
            DynResolver::Ids(r) => r.register_request(p),
            DynResolver::Queues(r) => {
                r.register_request(p);
                true
            },
        }
    }

    /// Delivers a response to the matching pending and removes it. The match
    /// is the first still-pending request the response's correlation data
    /// fits; when none fits, the resolver is unchanged and the response is
    /// discarded by the caller with a diagnostic.
    pub fn handle_response(&mut self, op: RpcApiOps, id: Option<u64>, key: Option<u64>) -> (r:
        Option<Pending>)
        requires
            old(self).wf(),
        ensures
            final(self).wf(),
            final(self).is_id_based() == old(self).is_id_based(),
            r is None ==> *final(self) == *old(self) && forall|i: int|
                0 <= i < old(self).spec_pendings().len() ==> !response_matches(
                    *old(self),
                    old(self).spec_pendings()[i],
                    op,
                    id,
                    key,
                ),
            r matches Some(p) ==> response_matches(*old(self), p, op, id, key) && exists|i: int|
                #![trigger old(self).spec_pendings()[i]]
                {
                    &&& 0 <= i < old(self).spec_pendings().len()
                    &&& old(self).spec_pendings()[i] == p
                    &&& final(self).spec_pendings() == old(self).spec_pendings().remove(i)
                    &&& forall|j: int|
                        0 <= j < i ==> !response_matches(
                            *old(self),
                            old(self).spec_pendings()[j],
                            op,
                            id,
                            key,
                        )
                },
    {
        let ghost pre = *self;
        let found: Option<usize> = match self {
            DynResolver::Ids(r) => {
                match id {
                    None => None,
                    Some(idv) => {
                        let mut i: usize = 0;
                        let mut res: Option<usize> = None;
                        while i < r.pendings.len()
                            invariant
                                i <= r.pendings@.len(),
                                *r == pre->Ids_0,
                                pre is Ids,
                                r.wf(),
                                res is None ==> forall|j: int|
                                    0 <= j < i ==> !(r.pendings@[j].id == Some(idv)
                                        && r.pendings@[j].op == op),
                                res matches Some(k) ==> 0 <= (k as int) < i
                                    && r.pendings@[k as int].id == Some(idv)
                                    && r.pendings@[k as int].op == op && forall|j: int|
                                    0 <= j < k ==> !(r.pendings@[j].id == Some(idv)
                                        && r.pendings@[j].op == op),
                            decreases r.pendings@.len() - i,
                        {
                            let p = r.pendings[i];
                            let same_id = match p.id {
                                Some(v) => v == idv,
                                None => false,
                            };
                            if res.is_none() && same_id && p.op == op {
                                res = Some(i);
                            }
                            i = i + 1;
                        }
                        res
                    },
                }
            },
            DynResolver::Queues(r) => {
                let mut i: usize = 0;
                let mut res: Option<usize> = None;
                while i < r.pendings.len()
                    invariant
                        i <= r.pendings@.len(),
                        *r == pre->Queues_0,
                        pre is Queues,
                        res is None ==> forall|j: int|
                            0 <= j < i ==> !(r.pendings@[j].op == op && r.pendings@[j].key
                                == key),
                        res matches Some(k) ==> 0 <= (k as int) < i && r.pendings@[k as int].op
                            == op && r.pendings@[k as int].key == key && forall|j: int|
                            0 <= j < k ==> !(r.pendings@[j].op == op && r.pendings@[j].key
                                == key),
                    decreases r.pendings@.len() - i,
                {
                    let p = r.pendings[i];
                    if res.is_none() && p.op == op && p.key == key {
                        res = Some(i);
                    }
                    i = i + 1;
                }
                res
            },
        };
        match found {
            None => None,
            Some(i) => {
                proof {
                    assert(0 <= (i as int) && (i as int) < pre.spec_pendings().len());
                }
                let p = match self {
                    DynResolver::Ids(r) => r.pendings.remove(i),
                    DynResolver::Queues(r) => r.pendings.remove(i),
                };
                proof {
                    if pre is Ids {
                        lemma_remove_distinct_ids(pre.spec_pendings(), i as int);
                    }
                    assert(pre.spec_pendings()[i as int] == p);
                    assert(response_matches(pre, p, op, id, key));
                    assert(forall|j: int|
                        0 <= j < i ==> !response_matches(pre, pre.spec_pendings()[j], op, id, key));
                }
                Some(p)
            },
        }
    }

    /// Removes every pending whose deadline is at or before `now`; the reaper
    /// completes each with a Timeout error.
    pub fn remove_expired_requests(&mut self, now: u64) -> (expired: Vec<Pending>)
        requires
            old(self).wf(),
        ensures
            final(self).wf(),
            final(self).is_id_based() == old(self).is_id_based(),
            final(self).spec_pendings() == old(self).spec_pendings().filter(
                |p: Pending| p.deadline > now,
            ),
            expired@ == old(self).spec_pendings().filter(|p: Pending| p.deadline <= now),
    {
        proof {
            if *old(self) is Ids {
                lemma_filter_distinct_ids(
                    old(self).spec_pendings(),
                    |p: Pending| p.deadline > now,
                );
                lemma_filter_subset(old(self).spec_pendings(), |p: Pending| p.deadline > now);
            }
        }
        match self {
            DynResolver::Ids(r) => remove_expired_from(&mut r.pendings, now),
            DynResolver::Queues(r) => remove_expired_from(&mut r.pendings, now),
        }
    }

    /// Removes every pending; shutdown completes each with a Cancelled error.
    pub fn cancel_all(&mut self) -> (cancelled: Vec<Pending>)
        requires
            old(self).wf(),
        ensures
            final(self).wf(),
            final(self).is_id_based() == old(self).is_id_based(),
            final(self).spec_pendings().len() == 0,
            cancelled@ == old(self).spec_pendings(),
    {
        match self {
            DynResolver::Ids(r) => drain_all(&mut r.pendings),
            DynResolver::Queues(r) => drain_all(&mut r.pendings),
        }
    }
}

/// Removing an element keeps correlation ids pairwise distinct and keeps
/// every id an id.
proof fn lemma_remove_distinct_ids(s: Seq<Pending>, i: int)
    requires
        0 <= i < s.len(),
        distinct_ids(s),
        forall|k: int| 0 <= k < s.len() ==> s[k].id is Some,
    ensures
        distinct_ids(s.remove(i)),
        forall|k: int| 0 <= k < s.remove(i).len() ==> s.remove(i)[k].id is Some,
{
    let t = s.remove(i);
    assert forall|a: int, b: int| 0 <= a < b < t.len() implies t[a].id != t[b].id by {
        let a0 = if a < i {
            a
        } else {
            a + 1
        };
        let b0 = if b < i {
            b
        } else {
            b + 1
        };
        assert(t[a] == s[a0]);
        assert(t[b] == s[b0]);
    }
    assert forall|k: int| 0 <= k < t.len() implies t[k].id is Some by {
        let k0 = if k < i {
            k
        } else {
            k + 1
        };
        assert(t[k] == s[k0]);
    }
}

} // verus!
