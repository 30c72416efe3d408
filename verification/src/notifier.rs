//! The notifier: listener registry, per-listener event subscriptions, and
//! fan-out of inbound notifications with per-listener filtering.

use vstd::prelude::*;
use crate::address::Address;
use crate::errors::RpcClientError;
use crate::notification::Notification;
use crate::ops::EventType;
use crate::subscription::{
    NotificationType, OverallSubscription, UtxosChangedSubscription,
    VirtualSelectedParentChainChangedSubscription,
};

verus! {

/// The bound of a listener channel the notifier creates itself.
pub const DEFAULT_NOTIFICATION_CHANNEL_CAPACITY: usize = 256;

/// A bounded channel of outbound notifications for one listener. Delivery is
/// a non-blocking send: a full channel drops the notification for this
/// listener so that a slow consumer never backpressures the receive task.
#[derive(Clone, Debug)]
pub struct NotificationChannel {
    pub capacity: usize,
    pub queue: Vec<Notification>,
}

impl NotificationChannel {
    pub fn new(capacity: usize) -> (r: NotificationChannel)
        ensures
            r.capacity == capacity,
            r.queue@.len() == 0,
    {
        NotificationChannel { capacity, queue: Vec::new() }
    }

    /// Non-blocking send: delivers iff the channel has room.
    pub fn try_send(&mut self, n: Notification) -> (ok: bool)
        ensures
            final(self).capacity == old(self).capacity,
            ok == (old(self).queue@.len() < old(self).capacity),
            ok ==> final(self).queue@ == old(self).queue@.push(n),
            !ok ==> *final(self) == *old(self),
    {
        if self.queue.len() < self.capacity {
            self.queue.push(n);
            true
        } else {
            false
        }
    }
}

/// One listener's subscription records, one per event type.
#[derive(Clone, Debug)]
pub struct ListenerSubscriptions {
    pub block_added: OverallSubscription,
    pub chain_changed: VirtualSelectedParentChainChangedSubscription,
    pub finality_conflict: OverallSubscription,
    pub finality_conflict_resolved: OverallSubscription,
    pub utxos_changed: UtxosChangedSubscription,
    pub blue_score_changed: OverallSubscription,
    pub daa_score_changed: OverallSubscription,
    pub pruning_point_override: OverallSubscription,
    pub new_block_template: OverallSubscription,
}

/// The record one listener holds for one event type, as contracts read it:
/// the active flag, the chain-changed inclusion flag, and the watched
/// addresses. Event types without the latter two report their defaults.
pub open spec fn spec_record(subs: ListenerSubscriptions, e: EventType) -> (
    bool,
    bool,
    Seq<Address>,
) {
    match e {
        EventType::BlockAdded => (subs.block_added.active, false, Seq::empty()),
        EventType::VirtualSelectedParentChainChanged => (
            subs.chain_changed.active,
            subs.chain_changed.include_accepted_transaction_ids,
            Seq::empty(),
        ),
        EventType::FinalityConflict => (subs.finality_conflict.active, false, Seq::empty()),
        EventType::FinalityConflictResolved => (
            subs.finality_conflict_resolved.active,
            false,
            Seq::empty(),
        ),
        EventType::UtxosChanged => (
            subs.utxos_changed.active,
            false,
            subs.utxos_changed.addresses@,
        ),
        EventType::VirtualSelectedParentBlueScoreChanged => (
            subs.blue_score_changed.active,
            false,
            Seq::empty(),
        ),
        EventType::VirtualDaaScoreChanged => (subs.daa_score_changed.active, false, Seq::empty()),
        EventType::PruningPointUtxoSetOverride => (
            subs.pruning_point_override.active,
            false,
            Seq::empty(),
        ),
        EventType::NewBlockTemplate => (subs.new_block_template.active, false, Seq::empty()),
    }
}

/// The inactive default record.
pub open spec fn spec_inactive_record() -> (bool, bool, Seq<Address>) {
    (false, false, Seq::empty())
}

/// The record installed by `start_notify` for a scope.
pub open spec fn spec_started_record(nt: NotificationType) -> (bool, bool, Seq<Address>) {
    match nt {
        NotificationType::VirtualSelectedParentChainChanged(wanted) => (
            true,
            wanted,
            Seq::empty(),
        ),
        NotificationType::UtxosChanged(addresses) => (true, false, addresses@),
        _ => (true, false, Seq::empty()),
    }
}

/// Whether the listener's record for this event type is active.
pub open spec fn is_active(subs: ListenerSubscriptions, e: EventType) -> bool {
    spec_record(subs, e).0
}

impl ListenerSubscriptions {
    /// All records inactive, all filters default.
    pub fn new() -> (r: ListenerSubscriptions)
        ensures
            forall|e: EventType| spec_record(r, e) == spec_inactive_record(),
    {
        ListenerSubscriptions {
            block_added: OverallSubscription::new(),
            chain_changed: VirtualSelectedParentChainChangedSubscription::new(),
            finality_conflict: OverallSubscription::new(),
            finality_conflict_resolved: OverallSubscription::new(),
            utxos_changed: UtxosChangedSubscription::new(),
            blue_score_changed: OverallSubscription::new(),
            daa_score_changed: OverallSubscription::new(),
            pruning_point_override: OverallSubscription::new(),
            new_block_template: OverallSubscription::new(),
        }
    }

    /// Installs the scope's started record, leaving the records of every
    /// other event type as they were.
    #[verifier::rlimit(100)]
    pub fn install(&mut self, nt: NotificationType)
        ensures
            spec_record(*final(self), nt.spec_event_type()) == spec_started_record(nt),
            forall|e2: EventType|
                e2 != nt.spec_event_type() ==> spec_record(*final(self), e2) == spec_record(
                    *old(self),
                    e2,
                ),
    {
        match nt {
            NotificationType::BlockAdded => {
                self.block_added = OverallSubscription { active: true };
            },
            NotificationType::VirtualSelectedParentChainChanged(wanted) => {
                self.chain_changed = VirtualSelectedParentChainChangedSubscription {
                    active: true,
                    include_accepted_transaction_ids: wanted,
                };
            },
            NotificationType::FinalityConflict => {
                self.finality_conflict = OverallSubscription { active: true };
            },
            NotificationType::FinalityConflictResolved => {
                self.finality_conflict_resolved = OverallSubscription { active: true };
            },
            NotificationType::UtxosChanged(addresses) => {
                self.utxos_changed = UtxosChangedSubscription { active: true, addresses };
            },
            NotificationType::VirtualSelectedParentBlueScoreChanged => {
                self.blue_score_changed = OverallSubscription { active: true };
            },
            NotificationType::VirtualDaaScoreChanged => {
                self.daa_score_changed = OverallSubscription { active: true };
            },
            NotificationType::PruningPointUtxoSetOverride => {
                self.pruning_point_override = OverallSubscription { active: true };
            },
            NotificationType::NewBlockTemplate => {
                self.new_block_template = OverallSubscription { active: true };
            },
        }
    }

    /// Returns the record for the event type to the inactive default, leaving
    /// the records of every other event type as they were.
    #[verifier::rlimit(100)]
    pub fn clear(&mut self, e: EventType)
        ensures
            spec_record(*final(self), e) == spec_inactive_record(),
            forall|e2: EventType|
                e2 != e ==> spec_record(*final(self), e2) == spec_record(*old(self), e2),
    {
        match e {
            EventType::BlockAdded => {
                self.block_added = OverallSubscription::new();
            },
            EventType::VirtualSelectedParentChainChanged => {
                self.chain_changed = VirtualSelectedParentChainChangedSubscription::new();
            },
            EventType::FinalityConflict => {
                self.finality_conflict = OverallSubscription::new();
            },
            EventType::FinalityConflictResolved => {
                self.finality_conflict_resolved = OverallSubscription::new();
            },
            EventType::UtxosChanged => {
                self.utxos_changed = UtxosChangedSubscription::new();
            },
            EventType::VirtualSelectedParentBlueScoreChanged => {
                self.blue_score_changed = OverallSubscription::new();
            },
            EventType::VirtualDaaScoreChanged => {
                self.daa_score_changed = OverallSubscription::new();
            },
            EventType::PruningPointUtxoSetOverride => {
                self.pruning_point_override = OverallSubscription::new();
            },
            EventType::NewBlockTemplate => {
                self.new_block_template = OverallSubscription::new();
            },
        }
    }
}

/// A local consumer of notifications: a monotonic id, one subscription record
/// per event type, and a bounded outbound channel.
#[derive(Clone, Debug)]
pub struct Listener {
    pub id: u64,
    pub subscriptions: ListenerSubscriptions,
    pub channel: NotificationChannel,
}

/// This listener's contribution to the global active count of an event type.
pub open spec fn weight(l: Listener, e: EventType) -> nat {
    if is_active(l.subscriptions, e) {
        1
    } else {
        0
    }
}

/// The number of listeners whose subscription record for `e` is active.
pub open spec fn spec_active_count(s: Seq<Listener>, e: EventType) -> nat
    decreases s.len(),
{
    if s.len() == 0 {
        0
    } else {
        spec_active_count(s.drop_last(), e) + weight(s.last(), e)
    }
}

pub proof fn lemma_active_count_push(s: Seq<Listener>, l: Listener, e: EventType)
    ensures
        spec_active_count(s.push(l), e) == spec_active_count(s, e) + weight(l, e),
{
    assert(s.push(l).drop_last() =~= s);
    assert(s.push(l).last() == l);
}

pub proof fn lemma_active_count_update(s: Seq<Listener>, i: int, l: Listener, e: EventType)
    requires
        0 <= i < s.len(),
    ensures
        spec_active_count(s.update(i, l), e) + weight(s[i], e) == spec_active_count(s, e)
            + weight(l, e),
    decreases s.len(),
{
    let t = s.update(i, l);
    if i == s.len() - 1 {
        assert(t.drop_last() =~= s.drop_last());
        assert(t.last() == l);
    } else {
        assert(t.drop_last() =~= s.drop_last().update(i, l));
        assert(t.last() == s.last());
        lemma_active_count_update(s.drop_last(), i, l, e);
    }
}

pub proof fn lemma_active_count_remove(s: Seq<Listener>, i: int, e: EventType)
    requires
        0 <= i < s.len(),
    ensures
        spec_active_count(s.remove(i), e) + weight(s[i], e) == spec_active_count(s, e),
    decreases s.len(),
{
    let t = s.remove(i);
    if i == s.len() - 1 {
        assert(t =~= s.drop_last());
    } else {
        assert(t.drop_last() =~= s.drop_last().remove(i));
        assert(t.last() == s.last());
        lemma_active_count_remove(s.drop_last(), i, e);
    }
}

/// An active listener makes the global count positive.
pub proof fn lemma_active_count_lower(s: Seq<Listener>, i: int, e: EventType)
    requires
        0 <= i < s.len(),
    ensures
        spec_active_count(s, e) >= weight(s[i], e),
    decreases s.len(),
{
    if i == s.len() - 1 {
    } else {
        lemma_active_count_lower(s.drop_last(), i, e);
    }
}

/// Listener sequences with the same subscriptions have the same counts.
pub proof fn lemma_active_count_same_subs(s1: Seq<Listener>, s2: Seq<Listener>, e: EventType)
    requires
        s1.len() == s2.len(),
        forall|k: int| 0 <= k < s1.len() ==> s1[k].subscriptions == s2[k].subscriptions,
    ensures
        spec_active_count(s1, e) == spec_active_count(s2, e),
    decreases s1.len(),
{
    if s1.len() > 0 {
        assert(forall|k: int|
            0 <= k < s1.drop_last().len() ==> s1.drop_last()[k].subscriptions == s2.drop_last()[
                k
            ].subscriptions);
        lemma_active_count_same_subs(s1.drop_last(), s2.drop_last(), e);
    }
}

/// Whether a notification passes a listener's subscription: the record for
/// the notification's event type is active.
pub open spec fn spec_passes(n: Notification, subs: ListenerSubscriptions) -> bool {
    is_active(subs, n.spec_event_type())
}

/// What filtering `n` through `subs` delivers: the notification itself,
/// except that a chain-changed payload whose accepted transaction ids the
/// subscription declines is delivered with that field replaced by an empty
/// list and the other fields shared.
pub open spec fn delivered_rel(
    n: Notification,
    subs: ListenerSubscriptions,
    d: Notification,
) -> bool {
    if n.spec_chain_changed_trims(subs.chain_changed) {
        match (n, d) {
            (
                Notification::VirtualSelectedParentChainChanged(p),
                Notification::VirtualSelectedParentChainChanged(q),
            ) => {
                &&& q.added_chain_block_hashes == p.added_chain_block_hashes
                &&& q.removed_chain_block_hashes == p.removed_chain_block_hashes
                &&& q.accepted_transaction_ids@.len() == 0
            },
            _ => false,
        }
    } else {
        d == n
    }
}

/// How `dispatch` treats one listener: subscriptions, id and capacity are
/// untouched; an active listener with room receives the filtered
/// notification at the tail of its channel; every other listener's channel is
/// unchanged.
pub open spec fn dispatch_rel(l0: Listener, l1: Listener, n: Notification) -> bool {
    &&& l1.id == l0.id
    &&& l1.subscriptions == l0.subscriptions
    &&& l1.channel.capacity == l0.channel.capacity
    &&& if spec_passes(n, l0.subscriptions) && l0.channel.queue@.len()
        < l0.channel.capacity {
        &&& l1.channel.queue@.len() == l0.channel.queue@.len() + 1
        &&& l1.channel.queue@.drop_last() == l0.channel.queue@
        &&& delivered_rel(n, l0.subscriptions, l1.channel.queue@.last())
    } else {
        l1.channel == l0.channel
    }
}

/// Grants a mutable borrow of one element.
fn entry_mut<T>(items: &mut Vec<T>, at: usize) -> (r: &mut T)
    requires
        at < old(items).len(),
    ensures
        *r == old(items)@[at as int],
        final(items)@ == old(items)@.update(at as int, *final(r)),
{
    &mut items[at]
}

/// The effect of `register_new_listener`: one listener appended with the next
/// monotonic id, every record inactive, and no global count moved.
pub open spec fn register_rel(pre: Notifier, post: Notifier, id: u64) -> bool {
    &&& id == pre.next_listener_id
    &&& post.next_listener_id == pre.next_listener_id + 1
    &&& post.listeners@.len() == pre.listeners@.len() + 1
    &&& post.listeners@ == pre.listeners@.push(post.listeners@.last())
    &&& post.listeners@.last().id == id
    &&& forall|e: EventType|
        spec_record(post.listeners@.last().subscriptions, e) == spec_inactive_record()
    &&& forall|e: EventType| post.spec_count(e) == pre.spec_count(e)
}

/// The effect of `unregister_listener` on success: the listener is removed,
/// ids and order of the others are kept, and no global count grows.
pub open spec fn unregister_rel(pre: Notifier, post: Notifier, id: u64) -> bool {
    &&& exists|i: int|
        #![trigger pre.listeners@[i]]
        {
            &&& 0 <= i < pre.listeners@.len()
            &&& pre.listeners@[i].id == id
            &&& post.listeners@ == pre.listeners@.remove(i)
            &&& forall|e: EventType|
                post.spec_count(e) + weight(pre.listeners@[i], e) == pre.spec_count(e)
        }
    &&& post.next_listener_id == pre.next_listener_id
    &&& forall|e: EventType| post.spec_count(e) <= pre.spec_count(e)
}

/// The effect of `start_notify` on success: the addressed listener's record
/// for the scope's event type becomes the started record, nothing else moves,
/// and the event's global count grows by one unless the record was already
/// active.
pub open spec fn start_rel(pre: Notifier, post: Notifier, id: u64, nt: NotificationType) -> bool {
    let e = nt.spec_event_type();
    &&& exists|i: int|
        #![trigger pre.listeners@[i]]
        {
            &&& 0 <= i < pre.listeners@.len()
            &&& pre.listeners@[i].id == id
            &&& post.listeners@.len() == pre.listeners@.len()
            &&& (forall|k: int|
                0 <= k < pre.listeners@.len() && k != i ==> post.listeners@[k]
                    == pre.listeners@[k])
            &&& post.listeners@[i].id == pre.listeners@[i].id
            &&& post.listeners@[i].channel == pre.listeners@[i].channel
            &&& spec_record(post.listeners@[i].subscriptions, e) == spec_started_record(nt)
            &&& (forall|e2: EventType|
                e2 != e ==> spec_record(post.listeners@[i].subscriptions, e2) == spec_record(
                    pre.listeners@[i].subscriptions,
                    e2,
                ))
            &&& post.spec_count(e) + weight(pre.listeners@[i], e) == pre.spec_count(e) + 1
        }
    &&& post.next_listener_id == pre.next_listener_id
    &&& post.spec_count(e) >= 1
    &&& pre.spec_count(e) <= post.spec_count(e) <= pre.spec_count(e) + 1
    &&& forall|e2: EventType| e2 != e ==> post.spec_count(e2) == pre.spec_count(e2)
}

/// The effect of `stop_notify` on success: the addressed listener's record
/// for the event type returns to the inactive default, nothing else moves,
/// and the event's global count drops by one unless the record was already
/// inactive.
pub open spec fn stop_rel(pre: Notifier, post: Notifier, id: u64, e: EventType) -> bool {
    &&& exists|i: int|
        #![trigger pre.listeners@[i]]
        {
            &&& 0 <= i < pre.listeners@.len()
            &&& pre.listeners@[i].id == id
            &&& post.listeners@.len() == pre.listeners@.len()
            &&& (forall|k: int|
                0 <= k < pre.listeners@.len() && k != i ==> post.listeners@[k]
                    == pre.listeners@[k])
            &&& post.listeners@[i].id == pre.listeners@[i].id
            &&& post.listeners@[i].channel == pre.listeners@[i].channel
            &&& spec_record(post.listeners@[i].subscriptions, e) == spec_inactive_record()
            &&& (forall|e2: EventType|
                e2 != e ==> spec_record(post.listeners@[i].subscriptions, e2) == spec_record(
                    pre.listeners@[i].subscriptions,
                    e2,
                ))
            &&& post.spec_count(e) + weight(pre.listeners@[i], e) == pre.spec_count(e)
        }
    &&& post.next_listener_id == pre.next_listener_id
    &&& pre.spec_count(e) <= post.spec_count(e) + 1
    &&& post.spec_count(e) <= pre.spec_count(e)
    &&& forall|e2: EventType| e2 != e ==> post.spec_count(e2) == pre.spec_count(e2)
}

/// The listener registry and the per-event subscription state. The global
/// active count per event type is derived from the records and recomputed on
/// mutation.
#[derive(Clone, Debug)]
pub struct Notifier {
    pub listeners: Vec<Listener>,
    /// The next listener id; ids are local and monotonic.
    pub next_listener_id: u64,
}

impl Notifier {
    pub open spec fn wf(self) -> bool {
        &&& forall|i: int, j: int|
            0 <= i < j < self.listeners@.len() ==> self.listeners@[i].id != self.listeners@[j].id
        &&& forall|i: int|
            0 <= i < self.listeners@.len() ==> self.listeners@[i].id < self.next_listener_id
    }

    /// The global subscription count for an event type: the number of
    /// listeners whose record for it is active.
    pub open spec fn spec_count(self, e: EventType) -> nat {
        spec_active_count(self.listeners@, e)
    }

    pub fn new() -> (r: Notifier)
        ensures
            r.wf(),
            r.listeners@.len() == 0,
            r.next_listener_id == 0,
            forall|e: EventType| r.spec_count(e) == 0,
    {
        Notifier { listeners: Vec::new(), next_listener_id: 0 }
    }

    /// The global subscription count for an event type, recomputed from the
    /// records: the number of listeners whose record for `e` is active.
    pub fn active_count(&self, e: EventType) -> (r: usize)
        ensures
            r == self.spec_count(e),
    {
        let ghost s = self.listeners@;
        let mut cnt: usize = 0;
        let mut i: usize = 0;
        while i < self.listeners.len()
            invariant
                i <= s.len(),
                self.listeners@ == s,
                cnt <= i,
                cnt == spec_active_count(s.subrange(0, i as int), e),
            decreases s.len() - i,
        {
            proof {
                assert(s.subrange(0, i + 1).drop_last() =~= s.subrange(0, i as int));
                assert(s.subrange(0, i + 1).last() == s[i as int]);
            }
            let l = &self.listeners[i];
            let active = match e {
                EventType::BlockAdded => l.subscriptions.block_added.active,
                EventType::VirtualSelectedParentChainChanged => l.subscriptions.chain_changed.active,
                EventType::FinalityConflict => l.subscriptions.finality_conflict.active,
                EventType::FinalityConflictResolved => l.subscriptions.finality_conflict_resolved.active,
                EventType::UtxosChanged => l.subscriptions.utxos_changed.active,
                EventType::VirtualSelectedParentBlueScoreChanged => l.subscriptions.blue_score_changed.active,
                EventType::VirtualDaaScoreChanged => l.subscriptions.daa_score_changed.active,
                EventType::PruningPointUtxoSetOverride => l.subscriptions.pruning_point_override.active,
                EventType::NewBlockTemplate => l.subscriptions.new_block_template.active,
            };
            if active {
                cnt = cnt + 1;
            }
            i = i + 1;
        }
        proof {
            assert(s.subrange(0, s.len() as int) =~= s);
        }
        cnt
    }

    /// Finds the index of the listener with the given id.
    fn find_listener(&self, id: u64) -> (r: Option<usize>)
        ensures
            r matches Some(i) ==> i < self.listeners@.len() && self.listeners@[i as int].id == id,
            r is None ==> forall|i: int|
                0 <= i < self.listeners@.len() ==> self.listeners@[i].id != id,
    {
        let mut i: usize = 0;
        while i < self.listeners.len()
            invariant
                i <= self.listeners@.len(),
                forall|j: int| 0 <= j < i ==> self.listeners@[j].id != id,
            decreases self.listeners@.len() - i,
        {
            if self.listeners[i].id == id {
                return Some(i);
            }
            i = i + 1;
        }
        None
    }

    /// Allocates a monotonic id, creates or adopts the outbound channel, and
    /// appends the listener with every record inactive.
    pub fn register_new_listener(&mut self, channel: Option<NotificationChannel>) -> (id: u64)
        requires
            old(self).wf(),
            old(self).next_listener_id < u64::MAX,
        ensures
            final(self).wf(),
            register_rel(*old(self), *final(self), id),
            final(self).listeners@.last().channel.queue@.len()
                == match channel {
                Some(c) => c.queue@.len(),
                None => 0,
            },
            final(self).listeners@.last().channel.capacity == match channel {
                Some(c) => c.capacity,
                None => DEFAULT_NOTIFICATION_CHANNEL_CAPACITY,
            },
    {
        let id = self.next_listener_id;
        let ch = match channel {
            Some(c) => c,
            None => NotificationChannel::new(DEFAULT_NOTIFICATION_CHANNEL_CAPACITY),
        };
        let l = Listener { id, subscriptions: ListenerSubscriptions::new(), channel: ch };
        proof {
            lemma_active_count_push_all(self.listeners@, l);
        }
        self.listeners.push(l);
        self.next_listener_id = self.next_listener_id + 1;
        id
    }

    /// Tears the listener down: its records stop counting toward the global
    /// counts and its channel is dropped. The caller issues the wire
    /// unsubscribes for event types whose count reached zero, where the
    /// server supports them.
    pub fn unregister_listener(&mut self, id: u64) -> (r: Result<(), RpcClientError>)
        requires
            old(self).wf(),
        ensures
            final(self).wf(),
            r matches Err(e) ==> e == RpcClientError::ListenerNotFound && *final(self) == *old(
                self,
            ) && forall|i: int|
                0 <= i < old(self).listeners@.len() ==> old(self).listeners@[i].id != id,
            r is Ok ==> unregister_rel(*old(self), *final(self), id),
    {
        let at = match self.find_listener(id) {
            Some(i) => i,
            None => {
                return Err(RpcClientError::ListenerNotFound);
            },
        };
        proof {
            lemma_active_count_remove_all(self.listeners@, at as int);
        }
        let _ = self.listeners.remove(at);
        Ok(())
    }

    /// Records the listener's interest in the scope's event type, installing
    /// the scope's filter. The caller issues a wire subscribe when the global
    /// count rose from zero.
    pub fn start_notify(&mut self, id: u64, nt: NotificationType) -> (r: Result<
        (),
        RpcClientError,
    >)
        requires
            old(self).wf(),
        ensures
            final(self).wf(),
            r matches Err(e) ==> e == RpcClientError::ListenerNotFound && *final(self) == *old(
                self,
            ) && forall|i: int|
                0 <= i < old(self).listeners@.len() ==> old(self).listeners@[i].id != id,
            r is Ok ==> start_rel(*old(self), *final(self), id, nt),
    {
        let at = match self.find_listener(id) {
            Some(i) => i,
            None => {
                return Err(RpcClientError::ListenerNotFound);
            },
        };
        let ghost pre = self.listeners@;
        let ghost e = nt.spec_event_type();
        let l = entry_mut(&mut self.listeners, at);
        l.subscriptions.install(nt);
        proof {
            let post = self.listeners@;
            assert(post == pre.update(at as int, post[at as int]));
            lemma_active_count_update_all(pre, at as int, post[at as int]);
            lemma_active_count_lower(post, at as int, e);
            assert(is_active(post[at as int].subscriptions, e));
            assert forall|e2: EventType|
                e2 != e implies weight(post[at as int], e2) == weight(pre[at as int], e2) by {
                assert(spec_record(post[at as int].subscriptions, e2) == spec_record(
                    pre[at as int].subscriptions,
                    e2,
                ));
            }
            assert(pre[at as int].id == id);
        }
        Ok(())
    }

    /// Withdraws the listener's interest in the event type, returning its
    /// record to the inactive default. The caller issues a wire unsubscribe
    /// when the global count reached zero and the server supports it.
    pub fn stop_notify(&mut self, id: u64, e: EventType) -> (r: Result<(), RpcClientError>)
        requires
            old(self).wf(),
        ensures
            final(self).wf(),
            r matches Err(err) ==> err == RpcClientError::ListenerNotFound && *final(self) == *old(
                self,
            ) && forall|i: int|
                0 <= i < old(self).listeners@.len() ==> old(self).listeners@[i].id != id,
            r is Ok ==> stop_rel(*old(self), *final(self), id, e),
    {
        let at = match self.find_listener(id) {
            Some(i) => i,
            None => {
                return Err(RpcClientError::ListenerNotFound);
            },
        };
        let ghost pre = self.listeners@;
        let l = entry_mut(&mut self.listeners, at);
        l.subscriptions.clear(e);
        proof {
            let post = self.listeners@;
            assert(post == pre.update(at as int, post[at as int]));
            lemma_active_count_update_all(pre, at as int, post[at as int]);
            assert(!is_active(post[at as int].subscriptions, e));
            assert forall|e2: EventType|
                e2 != e implies weight(post[at as int], e2) == weight(pre[at as int], e2) by {
                assert(spec_record(post[at as int].subscriptions, e2) == spec_record(
                    pre[at as int].subscriptions,
                    e2,
                ));
            }
            assert(pre[at as int].id == id);
        }
        Ok(())
    }

    /// Fans one notification out: every listener whose record for the
    /// notification's event type is active receives the filtered notification
    /// through a non-blocking send; a full channel drops it for that listener
    /// and leaves the others unaffected; listeners with inactive records
    /// receive nothing.
    pub fn dispatch(&mut self, n: &Notification)
        requires
            old(self).wf(),
        ensures
            final(self).wf(),
            final(self).next_listener_id == old(self).next_listener_id,
            final(self).listeners@.len() == old(self).listeners@.len(),
            forall|k: int|
                0 <= k < old(self).listeners@.len() ==> dispatch_rel(
                    old(self).listeners@[k],
                    #[trigger] final(self).listeners@[k],
                    *n,
                ),
            forall|e: EventType| final(self).spec_count(e) == old(self).spec_count(e),
    {
        let ev = n.event_type();
        let mut i: usize = 0;
        while i < self.listeners.len()
            invariant
                old(self).wf(),
                i <= old(self).listeners@.len(),
                self.listeners@.len() == old(self).listeners@.len(),
                self.next_listener_id == old(self).next_listener_id,
                ev == n.spec_event_type(),
                forall|k: int|
                    i <= k < old(self).listeners@.len() ==> self.listeners@[k] == old(
                        self,
                    ).listeners@[k],
                forall|k: int|
                    0 <= k < i ==> dispatch_rel(
                        old(self).listeners@[k],
                        #[trigger] self.listeners@[k],
                        *n,
                    ),
            decreases old(self).listeners@.len() - i,
        {
            let filtered: Option<Notification> = {
                let l = &self.listeners[i];
                match ev {
                    EventType::BlockAdded => n.apply_overall_subscription(
                        &l.subscriptions.block_added,
                    ),
                    EventType::VirtualSelectedParentChainChanged => {
                        n.apply_virtual_selected_parent_chain_changed_subscription(
                            &l.subscriptions.chain_changed,
                        )
                    },
                    EventType::FinalityConflict => n.apply_overall_subscription(
                        &l.subscriptions.finality_conflict,
                    ),
                    EventType::FinalityConflictResolved => n.apply_overall_subscription(
                        &l.subscriptions.finality_conflict_resolved,
                    ),
                    EventType::UtxosChanged => {
                        if l.subscriptions.utxos_changed.active {
                            n.apply_utxos_changed_subscription(&l.subscriptions.utxos_changed)
                        } else {
                            None
                        }
                    },
                    EventType::VirtualSelectedParentBlueScoreChanged => {
                        n.apply_overall_subscription(&l.subscriptions.blue_score_changed)
                    },
                    EventType::VirtualDaaScoreChanged => n.apply_overall_subscription(
                        &l.subscriptions.daa_score_changed,
                    ),
                    EventType::PruningPointUtxoSetOverride => n.apply_overall_subscription(
                        &l.subscriptions.pruning_point_override,
                    ),
                    EventType::NewBlockTemplate => n.apply_overall_subscription(
                        &l.subscriptions.new_block_template,
                    ),
                }
            };
            let ghost dopt = filtered;
            match filtered {
                Some(d) => {
                    let l = entry_mut(&mut self.listeners, i);
                    let _ = l.channel.try_send(d);
                },
                None => {},
            }
            proof {
                let l0 = old(self).listeners@[i as int];
                let l1 = self.listeners@[i as int];
                match dopt {
                    Some(dg) => {
                        assert(spec_passes(*n, l0.subscriptions));
                        assert(delivered_rel(*n, l0.subscriptions, dg));
                        if l0.channel.queue@.len() < l0.channel.capacity {
                            assert(l1.channel.queue@ == l0.channel.queue@.push(dg));
                            assert(l1.channel.queue@.drop_last() =~= l0.channel.queue@);
                        } else {
                            assert(l1.channel == l0.channel);
                        }
                    },
                    None => {
                        assert(!spec_passes(*n, l0.subscriptions));
                        assert(l1 == l0);
                    },
                }
                assert(dispatch_rel(l0, l1, *n));
            }
            i = i + 1;
        }
        proof {
            assert forall|k: int|
                0 <= k < self.listeners@.len() implies self.listeners@[k].subscriptions == old(
                self,
            ).listeners@[k].subscriptions by {
                assert(dispatch_rel(old(self).listeners@[k], self.listeners@[k], *n));
            }
            assert forall|e: EventType|
                spec_active_count(self.listeners@, e) == spec_active_count(
                old(self).listeners@,
                e,
            ) by {
                lemma_active_count_same_subs(self.listeners@, old(self).listeners@, e);
            }
            assert forall|i2: int, j2: int|
                0 <= i2 < j2 < self.listeners@.len() implies self.listeners@[i2].id
                != self.listeners@[j2].id by {
                assert(dispatch_rel(old(self).listeners@[i2], self.listeners@[i2], *n));
                assert(dispatch_rel(old(self).listeners@[j2], self.listeners@[j2], *n));
            }
            assert forall|i2: int|
                0 <= i2 < self.listeners@.len() implies self.listeners@[i2].id
                < self.next_listener_id by {
                assert(dispatch_rel(old(self).listeners@[i2], self.listeners@[i2], *n));
            }
        }
    }
}

/// Registering a listener and then unregistering it leaves the listener
/// registry and every global subscription count unchanged.
pub proof fn lemma_register_unregister_round_trip(
    n0: Notifier,
    n1: Notifier,
    n2: Notifier,
    id: u64,
)
    requires
        n0.wf(),
        register_rel(n0, n1, id),
        unregister_rel(n1, n2, id),
    ensures
        n2.listeners@ == n0.listeners@,
        forall|e: EventType| n2.spec_count(e) == n0.spec_count(e),
{
    let i = choose|i: int|
        #![trigger n1.listeners@[i]]
        {
            &&& 0 <= i < n1.listeners@.len()
            &&& n1.listeners@[i].id == id
            &&& n2.listeners@ == n1.listeners@.remove(i)
            &&& forall|e: EventType|
                n2.spec_count(e) + weight(n1.listeners@[i], e) == n1.spec_count(e)
        };
    if i < n0.listeners@.len() {
        assert(n1.listeners@[i] == n0.listeners@[i]);
        assert(n0.listeners@[i].id < n0.next_listener_id);
        assert(false);
    }
    assert(i == n0.listeners@.len());
    assert(n1.listeners@.remove(i) =~= n0.listeners@);
}

/// Starting a subscription on a listener whose record for the event type is
/// the inactive default, then stopping it, leaves that record and every
/// global subscription count unchanged.
pub proof fn lemma_start_stop_round_trip(
    n0: Notifier,
    n1: Notifier,
    n2: Notifier,
    id: u64,
    nt: NotificationType,
    at: int,
)
    requires
        n0.wf(),
        0 <= at < n0.listeners@.len(),
        n0.listeners@[at].id == id,
        spec_record(n0.listeners@[at].subscriptions, nt.spec_event_type())
            == spec_inactive_record(),
        start_rel(n0, n1, id, nt),
        stop_rel(n1, n2, id, nt.spec_event_type()),
    ensures
        n2.listeners@.len() == n0.listeners@.len(),
        forall|e: EventType|
            spec_record(n2.listeners@[at].subscriptions, e) == spec_record(
                n0.listeners@[at].subscriptions,
                e,
            ),
        forall|e: EventType| n2.spec_count(e) == n0.spec_count(e),
{
    let e = nt.spec_event_type();
    let i1 = choose|i: int|
        #![trigger n0.listeners@[i]]
        {
            &&& 0 <= i < n0.listeners@.len()
            &&& n0.listeners@[i].id == id
            &&& n1.listeners@.len() == n0.listeners@.len()
            &&& (forall|k: int|
                0 <= k < n0.listeners@.len() && k != i ==> n1.listeners@[k] == n0.listeners@[k])
            &&& n1.listeners@[i].id == n0.listeners@[i].id
            &&& n1.listeners@[i].channel == n0.listeners@[i].channel
            &&& spec_record(n1.listeners@[i].subscriptions, e) == spec_started_record(nt)
            &&& (forall|e2: EventType|
                e2 != e ==> spec_record(n1.listeners@[i].subscriptions, e2) == spec_record(
                    n0.listeners@[i].subscriptions,
                    e2,
                ))
            &&& n1.spec_count(e) + weight(n0.listeners@[i], e) == n0.spec_count(e) + 1
        };
    assert(i1 == at);
    let i2 = choose|i: int|
        #![trigger n1.listeners@[i]]
        {
            &&& 0 <= i < n1.listeners@.len()
            &&& n1.listeners@[i].id == id
            &&& n2.listeners@.len() == n1.listeners@.len()
            &&& (forall|k: int|
                0 <= k < n1.listeners@.len() && k != i ==> n2.listeners@[k] == n1.listeners@[k])
            &&& n2.listeners@[i].id == n1.listeners@[i].id
            &&& n2.listeners@[i].channel == n1.listeners@[i].channel
            &&& spec_record(n2.listeners@[i].subscriptions, e) == spec_inactive_record()
            &&& (forall|e2: EventType|
                e2 != e ==> spec_record(n2.listeners@[i].subscriptions, e2) == spec_record(
                    n1.listeners@[i].subscriptions,
                    e2,
                ))
            &&& n2.spec_count(e) + weight(n1.listeners@[i], e) == n1.spec_count(e)
        };
    assert forall|k: int, j: int|
        0 <= k < j < n1.listeners@.len() implies n1.listeners@[k].id != n1.listeners@[j].id by {
        if k != at && j != at {
            assert(n1.listeners@[k] == n0.listeners@[k]);
            assert(n1.listeners@[j] == n0.listeners@[j]);
        }
    }
    assert(i2 == at);
    assert(weight(n0.listeners@[at], e) == 0);
    assert(weight(n1.listeners@[at], e) == 1);
}

/// Pushing a listener with inactive records moves no global count.
proof fn lemma_active_count_push_all(s: Seq<Listener>, l: Listener)
    ensures
        forall|e: EventType|
            spec_active_count(s.push(l), e) == spec_active_count(s, e) + weight(l, e),
{
    assert forall|e: EventType|
        spec_active_count(s.push(l), e) == spec_active_count(s, e) + weight(l, e) by {
        lemma_active_count_push(s, l, e);
    }
}

proof fn lemma_active_count_remove_all(s: Seq<Listener>, i: int)
    requires
        0 <= i < s.len(),
    ensures
        forall|e: EventType|
            spec_active_count(s.remove(i), e) + weight(s[i], e) == spec_active_count(s, e),
{
    assert forall|e: EventType|
        spec_active_count(s.remove(i), e) + weight(s[i], e) == spec_active_count(s, e) by {
        lemma_active_count_remove(s, i, e);
    }
}

proof fn lemma_active_count_update_all(s: Seq<Listener>, i: int, l: Listener)
    requires
        0 <= i < s.len(),
    ensures
        forall|e: EventType|
            spec_active_count(s.update(i, l), e) + weight(s[i], e) == spec_active_count(s, e)
                + weight(l, e),
{
    assert forall|e: EventType|
        spec_active_count(s.update(i, l), e) + weight(s[i], e) == spec_active_count(s, e)
            + weight(l, e) by {
        lemma_active_count_update(s, i, l, e);
    }
}

} // verus!
