//! The client: one session, one notifier, and the wire subscription state
//! that keeps the server-side subscriptions aligned with the local listeners.

use vstd::prelude::*;
use crate::errors::RpcClientError;
use crate::message::{build_subscribe_request, ResponsePayload, RpcRequest, RpcResponse};
use crate::notifier::{NotificationChannel, Notifier};
use crate::ops::{EventType, RpcApiOps, SubscribeCommand};
use crate::resolver::Pending;
use crate::session::{Inner, ResponseRouting};
use crate::subscription::NotificationType;

verus! {

/// One boolean per event type: whether a wire subscribe for it is in flight
/// or acknowledged.
#[derive(Clone, Copy, Debug)]
pub struct EventFlags {
    pub block_added: bool,
    pub chain_changed: bool,
    pub finality_conflict: bool,
    pub finality_conflict_resolved: bool,
    pub utxos_changed: bool,
    pub blue_score_changed: bool,
    pub daa_score_changed: bool,
    pub pruning_point_override: bool,
    pub new_block_template: bool,
}

/// The flag held for an event type.
pub open spec fn flag_of(f: EventFlags, e: EventType) -> bool {
    match e {
        EventType::BlockAdded => f.block_added,
        EventType::VirtualSelectedParentChainChanged => f.chain_changed,
        EventType::FinalityConflict => f.finality_conflict,
        EventType::FinalityConflictResolved => f.finality_conflict_resolved,
        EventType::UtxosChanged => f.utxos_changed,
        EventType::VirtualSelectedParentBlueScoreChanged => f.blue_score_changed,
        EventType::VirtualDaaScoreChanged => f.daa_score_changed,
        EventType::PruningPointUtxoSetOverride => f.pruning_point_override,
        EventType::NewBlockTemplate => f.new_block_template,
    }
}

impl EventFlags {
    pub fn new() -> (r: EventFlags)
        ensures
            forall|e: EventType| !flag_of(r, e),
    {
        EventFlags {
            block_added: false,
            chain_changed: false,
            finality_conflict: false,
            finality_conflict_resolved: false,
            utxos_changed: false,
            blue_score_changed: false,
            daa_score_changed: false,
            pruning_point_override: false,
            new_block_template: false,
        }
    }

    pub fn get(&self, e: EventType) -> (r: bool)
        ensures
            r == flag_of(*self, e),
    {
        match e {
            EventType::BlockAdded => self.block_added,
            EventType::VirtualSelectedParentChainChanged => self.chain_changed,
            EventType::FinalityConflict => self.finality_conflict,
            EventType::FinalityConflictResolved => self.finality_conflict_resolved,
            EventType::UtxosChanged => self.utxos_changed,
            EventType::VirtualSelectedParentBlueScoreChanged => self.blue_score_changed,
            EventType::VirtualDaaScoreChanged => self.daa_score_changed,
            EventType::PruningPointUtxoSetOverride => self.pruning_point_override,
            EventType::NewBlockTemplate => self.new_block_template,
        }
    }

    #[verifier::rlimit(100)]
    pub fn set(&mut self, e: EventType, v: bool)
        ensures
            flag_of(*final(self), e) == v,
            forall|e2: EventType| e2 != e ==> flag_of(*final(self), e2) == flag_of(*old(self), e2),
    {
        match e {
            EventType::BlockAdded => {
                self.block_added = v;
            },
            EventType::VirtualSelectedParentChainChanged => {
                self.chain_changed = v;
            },
            EventType::FinalityConflict => {
                self.finality_conflict = v;
            },
            EventType::FinalityConflictResolved => {
                self.finality_conflict_resolved = v;
            },
            EventType::UtxosChanged => {
                self.utxos_changed = v;
            },
            EventType::VirtualSelectedParentBlueScoreChanged => {
                self.blue_score_changed = v;
            },
            EventType::VirtualDaaScoreChanged => {
                self.daa_score_changed = v;
            },
            EventType::PruningPointUtxoSetOverride => {
                self.pruning_point_override = v;
            },
            EventType::NewBlockTemplate => {
                self.new_block_template = v;
            },
        }
    }
}

/// The wire unsubscribe emitted for one event type while reconciling the wire
/// flags: one Stop request when the wire subscribe stands and the event's
/// global count is zero, nothing otherwise.
pub open spec fn spec_stop_requests_for(
    flags: EventFlags,
    n: Notifier,
    e: EventType,
) -> Seq<RpcRequest> {
    if flag_of(flags, e) && n.spec_count(e) == 0 {
        seq![crate::message::spec_subscribe_request(e, SubscribeCommand::Stop)]
    } else {
        Seq::empty()
    }
}

/// The wire unsubscribes owed for the first five event types, in order.
pub open spec fn spec_stop_requests_front(flags: EventFlags, n: Notifier) -> Seq<RpcRequest> {
    spec_stop_requests_for(flags, n, EventType::BlockAdded) + spec_stop_requests_for(
        flags,
        n,
        EventType::VirtualSelectedParentChainChanged,
    ) + spec_stop_requests_for(flags, n, EventType::FinalityConflict) + spec_stop_requests_for(
        flags,
        n,
        EventType::FinalityConflictResolved,
    ) + spec_stop_requests_for(flags, n, EventType::UtxosChanged)
}

/// The wire unsubscribes owed for the last four event types, in order.
pub open spec fn spec_stop_requests_back(flags: EventFlags, n: Notifier) -> Seq<RpcRequest> {
    spec_stop_requests_for(flags, n, EventType::VirtualSelectedParentBlueScoreChanged)
        + spec_stop_requests_for(flags, n, EventType::VirtualDaaScoreChanged)
        + spec_stop_requests_for(flags, n, EventType::PruningPointUtxoSetOverride)
        + spec_stop_requests_for(flags, n, EventType::NewBlockTemplate)
}

/// Every wire unsubscribe owed after listener state shrank, one per event
/// type whose wire subscribe stands with a zero count, in the fixed event
/// order.
pub open spec fn spec_stop_requests(flags: EventFlags, n: Notifier) -> Seq<RpcRequest> {
    spec_stop_requests_front(flags, n) + spec_stop_requests_back(flags, n)
}

/// The streaming RPC client: a connected session, the notifier, and one wire
/// subscription flag per event type.
///
/// The wire invariant: an event type with at least one active listener always
/// has its wire subscribe in flight or acknowledged; and where the server
/// supports wire unsubscribe commands, an event type with no active listener
/// has none.
#[derive(Clone, Debug)]
pub struct GrpcClient {
    pub inner: Inner,
    pub notifier: Notifier,
    pub wire_active: EventFlags,
}

impl GrpcClient {
    pub open spec fn wf(self) -> bool {
        &&& self.inner.wf()
        &&& self.notifier.wf()
        &&& forall|e: EventType| self.notifier.spec_count(e) >= 1 ==> flag_of(self.wire_active, e)
        &&& self.inner.handle_stop_notify ==> forall|e: EventType|
            flag_of(self.wire_active, e) ==> self.notifier.spec_count(e) >= 1
    }

    /// Builds the client as `connect` leaves it right after the handshake:
    /// the capability flags are those of the server's GetInfo response, the
    /// resolver variant is chosen by the id capability, and no listener is
    /// registered yet.
    pub fn new(handle_stop_notify: bool, handle_message_id: bool) -> (r: GrpcClient)
        ensures
            r.wf(),
            r.inner.handle_stop_notify == handle_stop_notify,
            r.inner.handle_message_id == handle_message_id,
            r.inner.resolver.is_id_based() == handle_message_id,
            r.inner.state == crate::session::SessionState::Ready,
            r.inner.spec_pendings().len() == 0,
            r.inner.next_waiter == 0,
            r.inner.send_queue@.len() == 0,
            r.inner.receiver_is_running,
            r.inner.timeout_is_running,
            r.inner.timeout_duration == crate::session::REQUEST_TIMEOUT_DURATION,
            r.inner.timeout_timer_interval == crate::session::TIMEOUT_MONITORING_INTERVAL,
            r.notifier.listeners@.len() == 0,
            r.notifier.next_listener_id == 0,
            forall|e: EventType| !flag_of(r.wire_active, e),
            forall|e: EventType| r.notifier.spec_count(e) == 0,
    {
        GrpcClient {
            inner: Inner::new(handle_stop_notify, handle_message_id),
            notifier: Notifier::new(),
            wire_active: EventFlags::new(),
        }
    }

    /// Whether responses carry per-message correlation ids on this session.
    pub fn handle_message_id(&self) -> (r: bool)
        ensures
            r == self.inner.handle_message_id,
    {
        self.inner.handle_message_id()
    }

    /// Whether the server accepts wire unsubscribe commands.
    pub fn handle_stop_notify(&self) -> (r: bool)
        ensures
            r == self.inner.handle_stop_notify,
    {
        self.inner.handle_stop_notify()
    }

    /// Registers a call under a freshly drawn id; see `Inner::call`.
    pub fn call(&mut self, op: RpcApiOps, request: RpcRequest, now: u64) -> (r: Result<
        u64,
        RpcClientError,
    >)
        requires
            old(self).wf(),
            old(self).inner.next_waiter < u64::MAX,
            now + old(self).inner.timeout_duration <= u64::MAX,
        ensures
            final(self).wf(),
            final(self).notifier == old(self).notifier,
            final(self).wire_active == old(self).wire_active,
            request.payload is None ==> r == Err::<u64, RpcClientError>(
                RpcClientError::MissingRequestPayload,
            ) && *final(self) == *old(self),
            request.payload is Some && !(old(self).inner.state
                is Ready) ==> r == Err::<u64, RpcClientError>(RpcClientError::ChannelRecvError)
                && *final(self) == *old(self),
            request.payload is Some && old(self).inner.state is Ready ==> (r matches Ok(w)
                && exists|id: u64|
                crate::session::call_registered(
                    old(self).inner,
                    final(self).inner,
                    op,
                    request,
                    id,
                    now,
                    w,
                )) || r == Err::<u64, RpcClientError>(RpcClientError::DuplicateRequestId),
            request.payload is Some && old(self).inner.state is Ready && (!old(
                self,
            ).inner.handle_message_id || old(self).inner.spec_pendings().len() == 0) ==> r is Ok,
    {
        self.inner.call(op, request, now)
    }

    /// Routes one inbound message: a call reply completes its pending; a
    /// notification is converted and fanned out to the listeners, after which
    /// it is also returned. A reply matching no pending is dropped with a
    /// diagnostic; a notification for an event type with no active listener
    /// is dropped by the fan-out.
    pub fn handle_response(&mut self, response: RpcResponse) -> (r: ResponseRouting)
        requires
            old(self).wf(),
        ensures
            final(self).wf(),
            final(self).wire_active == old(self).wire_active,
            final(self).inner.state == old(self).inner.state,
            final(self).notifier.next_listener_id == old(self).notifier.next_listener_id,
            response.spec_is_notification() ==> (r matches ResponseRouting::Notify(n)
                && response.payload == Some(ResponsePayload::Notify { notification: n })),
            !response.spec_is_notification() && response.payload is None ==> r is Ignored,
            !response.spec_is_notification() && (response.payload matches Some(p) && p is Call)
                ==> (r is Completed || r is Unmatched),
            r matches ResponseRouting::Notify(n) ==> {
                &&& final(self).inner == old(self).inner
                &&& final(self).notifier.listeners@.len() == old(self).notifier.listeners@.len()
                &&& forall|k: int|
                    0 <= k < old(self).notifier.listeners@.len() ==> crate::notifier::dispatch_rel(
                        old(self).notifier.listeners@[k],
                        #[trigger] final(self).notifier.listeners@[k],
                        n,
                    )
            },
            !(r is Notify) ==> final(self).notifier == old(self).notifier,
            r is Ignored ==> *final(self) == *old(self),
            r is Unmatched ==> *final(self) == *old(self) && forall|i: int|
                0 <= i < old(self).inner.spec_pendings().len() ==> !crate::resolver::response_matches(
                    old(self).inner.resolver,
                    old(self).inner.spec_pendings()[i],
                    response.op,
                    response.id,
                    crate::session::spec_response_key(response),
                ),
            r matches ResponseRouting::Completed(p) ==> {
                &&& p.op == response.op
                &&& crate::resolver::response_matches(
                    old(self).inner.resolver,
                    p,
                    response.op,
                    response.id,
                    crate::session::spec_response_key(response),
                )
                &&& final(self).inner.in_flight == old(self).inner.in_flight - 1
                &&& exists|i: int|
                    #![trigger old(self).inner.spec_pendings()[i]]
                    {
                        &&& 0 <= i < old(self).inner.spec_pendings().len()
                        &&& old(self).inner.spec_pendings()[i] == p
                        &&& final(self).inner.spec_pendings() == old(
                            self,
                        ).inner.spec_pendings().remove(i)
                        &&& forall|j: int|
                            0 <= j < i ==> !crate::resolver::response_matches(
                                old(self).inner.resolver,
                                old(self).inner.spec_pendings()[j],
                                response.op,
                                response.id,
                                crate::session::spec_response_key(response),
                            )
                    }
            },
    {
        let routed = self.inner.handle_response(response);
        match routed {
            ResponseRouting::Notify(n) => {
                self.notifier.dispatch(&n);
                ResponseRouting::Notify(n)
            },
            other => other,
        }
    }

    /// One tick of the reaper; see `Inner::remove_expired_requests`.
    pub fn remove_expired_requests(&mut self, now: u64) -> (expired: Vec<Pending>)
        requires
            old(self).wf(),
        ensures
            final(self).wf(),
            final(self).notifier == old(self).notifier,
            final(self).wire_active == old(self).wire_active,
            final(self).inner.spec_pendings() == old(self).inner.spec_pendings().filter(
                |p: Pending| p.deadline > now,
            ),
            expired@ == old(self).inner.spec_pendings().filter(|p: Pending| p.deadline <= now),
    {
        self.inner.remove_expired_requests(now)
    }

    /// The receive task observed end of stream; see `Inner::on_stream_closed`.
    pub fn on_stream_closed(&mut self)
        requires
            old(self).wf(),
        ensures
            final(self).wf(),
            final(self).notifier == old(self).notifier,
            final(self).wire_active == old(self).wire_active,
            !final(self).inner.receiver_is_running,
            !(old(self).inner.state is Closed) ==> final(self).inner.state is Draining,
    {
        self.inner.on_stream_closed()
    }

    /// Shuts the session down; the listener registry and the wire
    /// subscription state are left as they are, since the session is gone.
    /// See `Inner::shutdown`.
    pub fn shutdown(&mut self) -> (cancelled: Vec<Pending>)
        requires
            old(self).wf(),
        ensures
            final(self).wf(),
            final(self).notifier == old(self).notifier,
            final(self).wire_active == old(self).wire_active,
            crate::session::shutdown_rel(old(self).inner, final(self).inner, cancelled@),
    {
        self.inner.shutdown()
    }

    /// Registers a new listener and returns its id. The harness pairs the id
    /// with the receiving end of the listener's channel.
    pub fn register_new_listener(&mut self, channel: Option<NotificationChannel>) -> (id: u64)
        requires
            old(self).wf(),
            old(self).notifier.next_listener_id < u64::MAX,
        ensures
            final(self).wf(),
            final(self).inner == old(self).inner,
            final(self).wire_active == old(self).wire_active,
            crate::notifier::register_rel(old(self).notifier, final(self).notifier, id),
    {
        self.notifier.register_new_listener(channel)
    }

    /// Unregisters a listener: every subscription it held stops counting, and
    /// for each event type whose count reached zero — where the server
    /// supports wire unsubscribe commands — exactly one wire unsubscribe
    /// request is returned for the harness to send.
    pub fn unregister_listener(&mut self, id: u64) -> (r: Result<Vec<RpcRequest>, RpcClientError>)
        requires
            old(self).wf(),
        ensures
            final(self).wf(),
            final(self).inner == old(self).inner,
            r matches Err(e) ==> e == RpcClientError::ListenerNotFound && *final(self) == *old(
                self,
            ) && forall|i: int|
                0 <= i < old(self).notifier.listeners@.len() ==> old(
                    self,
                ).notifier.listeners@[i].id != id,
            r matches Ok(requests) ==> {
                &&& crate::notifier::unregister_rel(old(self).notifier, final(self).notifier, id)
                &&& !old(self).inner.handle_stop_notify ==> requests@ == Seq::<
                    RpcRequest,
                >::empty() && final(self).wire_active == old(self).wire_active
                &&& old(self).inner.handle_stop_notify ==> {
                    &&& requests@ == spec_stop_requests(
                        old(self).wire_active,
                        final(self).notifier,
                    )
                    &&& forall|e: EventType|
                        flag_of(final(self).wire_active, e) == (flag_of(old(self).wire_active, e)
                            && final(self).notifier.spec_count(e) >= 1)
                }
            },
    {
        match self.notifier.unregister_listener(id) {
            Err(e) => Err(e),
            Ok(()) => {
                let requests = self.reconcile_wire_flags();
                Ok(requests)
            },
        }
    }

    /// After listener state shrank, clears the wire flag of — and returns one
    /// unsubscribe request for — every event type whose count reached zero,
    /// where the server supports wire unsubscribe commands.
    #[verifier::rlimit(100)]
    fn reconcile_wire_flags(&mut self) -> (requests: Vec<RpcRequest>)
        requires
            old(self).inner.wf(),
            old(self).notifier.wf(),
            forall|e: EventType|
                old(self).notifier.spec_count(e) >= 1 ==> flag_of(old(self).wire_active, e),
        ensures
            final(self).wf(),
            final(self).inner == old(self).inner,
            final(self).notifier == old(self).notifier,
            !old(self).inner.handle_stop_notify ==> *final(self) == *old(self) && requests@
                == Seq::<RpcRequest>::empty(),
            old(self).inner.handle_stop_notify ==> {
                &&& requests@ == spec_stop_requests(old(self).wire_active, old(self).notifier)
                &&& forall|e: EventType|
                    flag_of(final(self).wire_active, e) == (flag_of(old(self).wire_active, e)
                        && old(self).notifier.spec_count(e) >= 1)
            },
    {
        let mut requests: Vec<RpcRequest> = Vec::new();
        if !self.inner.handle_stop_notify() {
            return requests;
        }
        let ghost f = self.wire_active;
        let ghost n0 = self.notifier;
        self.reconcile_front(&mut requests);
        proof {
            assert(requests@ =~= spec_stop_requests_front(f, n0));
            assert(spec_stop_requests_back(self.wire_active, n0) =~= spec_stop_requests_back(
                f,
                n0,
            ));
        }
        let ghost r_front = requests@;
        let ghost w_mid = self.wire_active;
        self.reconcile_back(&mut requests);
        proof {
            assert(requests@ =~= r_front + spec_stop_requests_back(w_mid, n0));
            assert(requests@ =~= spec_stop_requests(f, n0));
        }
        requests
    }

    /// Reconciles the wire flags of the first five event types, appending
    /// their owed unsubscribe requests in order.
    #[verifier::rlimit(100)]
    fn reconcile_front(&mut self, requests: &mut Vec<RpcRequest>)
        ensures
            final(self).inner == old(self).inner,
            final(self).notifier == old(self).notifier,
            flag_of(final(self).wire_active, EventType::BlockAdded) == (flag_of(
                old(self).wire_active,
                EventType::BlockAdded,
            ) && old(self).notifier.spec_count(EventType::BlockAdded) >= 1),
            flag_of(final(self).wire_active, EventType::VirtualSelectedParentChainChanged) == (
            flag_of(old(self).wire_active, EventType::VirtualSelectedParentChainChanged) && old(
                self,
            ).notifier.spec_count(EventType::VirtualSelectedParentChainChanged) >= 1),
            flag_of(final(self).wire_active, EventType::FinalityConflict) == (flag_of(
                old(self).wire_active,
                EventType::FinalityConflict,
            ) && old(self).notifier.spec_count(EventType::FinalityConflict) >= 1),
            flag_of(final(self).wire_active, EventType::FinalityConflictResolved) == (flag_of(
                old(self).wire_active,
                EventType::FinalityConflictResolved,
            ) && old(self).notifier.spec_count(EventType::FinalityConflictResolved) >= 1),
            flag_of(final(self).wire_active, EventType::UtxosChanged) == (flag_of(
                old(self).wire_active,
                EventType::UtxosChanged,
            ) && old(self).notifier.spec_count(EventType::UtxosChanged) >= 1),
            flag_of(final(self).wire_active, EventType::VirtualSelectedParentBlueScoreChanged)
                == flag_of(old(self).wire_active, EventType::VirtualSelectedParentBlueScoreChanged),
            flag_of(final(self).wire_active, EventType::VirtualDaaScoreChanged) == flag_of(
                old(self).wire_active,
                EventType::VirtualDaaScoreChanged,
            ),
            flag_of(final(self).wire_active, EventType::PruningPointUtxoSetOverride) == flag_of(
                old(self).wire_active,
                EventType::PruningPointUtxoSetOverride,
            ),
            flag_of(final(self).wire_active, EventType::NewBlockTemplate) == flag_of(
                old(self).wire_active,
                EventType::NewBlockTemplate,
            ),
            final(requests)@ == old(requests)@ + spec_stop_requests_front(
                old(self).wire_active,
                old(self).notifier,
            ),
    {
        let ghost f = self.wire_active;
        let ghost n0 = self.notifier;
        let ghost r0 = requests@;
        self.reconcile_event(EventType::BlockAdded, requests);
        let ghost r1 = requests@;
        let ghost w1 = self.wire_active;
        self.reconcile_event(EventType::VirtualSelectedParentChainChanged, requests);
        proof {
            assert(spec_stop_requests_for(w1, n0, EventType::VirtualSelectedParentChainChanged)
                =~= spec_stop_requests_for(f, n0, EventType::VirtualSelectedParentChainChanged));
        }
        let ghost r2 = requests@;
        let ghost w2 = self.wire_active;
        self.reconcile_event(EventType::FinalityConflict, requests);
        proof {
            assert(spec_stop_requests_for(w2, n0, EventType::FinalityConflict)
                =~= spec_stop_requests_for(f, n0, EventType::FinalityConflict));
        }
        let ghost r3 = requests@;
        let ghost w3 = self.wire_active;
        self.reconcile_event(EventType::FinalityConflictResolved, requests);
        proof {
            assert(spec_stop_requests_for(w3, n0, EventType::FinalityConflictResolved)
                =~= spec_stop_requests_for(f, n0, EventType::FinalityConflictResolved));
        }
        let ghost r4 = requests@;
        let ghost w4 = self.wire_active;
        self.reconcile_event(EventType::UtxosChanged, requests);
        proof {
            assert(spec_stop_requests_for(w4, n0, EventType::UtxosChanged)
                =~= spec_stop_requests_for(f, n0, EventType::UtxosChanged));
            assert(requests@ =~= r0 + spec_stop_requests_front(f, n0));
        }
    }

    /// Reconciles the wire flags of the last four event types, appending
    /// their owed unsubscribe requests in order.
    #[verifier::rlimit(100)]
    fn reconcile_back(&mut self, requests: &mut Vec<RpcRequest>)
        ensures
            final(self).inner == old(self).inner,
            final(self).notifier == old(self).notifier,
            flag_of(final(self).wire_active, EventType::VirtualSelectedParentBlueScoreChanged) == (
            flag_of(old(self).wire_active, EventType::VirtualSelectedParentBlueScoreChanged)
                && old(self).notifier.spec_count(EventType::VirtualSelectedParentBlueScoreChanged)
                >= 1),
            flag_of(final(self).wire_active, EventType::VirtualDaaScoreChanged) == (flag_of(
                old(self).wire_active,
                EventType::VirtualDaaScoreChanged,
            ) && old(self).notifier.spec_count(EventType::VirtualDaaScoreChanged) >= 1),
            flag_of(final(self).wire_active, EventType::PruningPointUtxoSetOverride) == (flag_of(
                old(self).wire_active,
                EventType::PruningPointUtxoSetOverride,
            ) && old(self).notifier.spec_count(EventType::PruningPointUtxoSetOverride) >= 1),
            flag_of(final(self).wire_active, EventType::NewBlockTemplate) == (flag_of(
                old(self).wire_active,
                EventType::NewBlockTemplate,
            ) && old(self).notifier.spec_count(EventType::NewBlockTemplate) >= 1),
            flag_of(final(self).wire_active, EventType::BlockAdded) == flag_of(
                old(self).wire_active,
                EventType::BlockAdded,
            ),
            flag_of(final(self).wire_active, EventType::VirtualSelectedParentChainChanged)
                == flag_of(old(self).wire_active, EventType::VirtualSelectedParentChainChanged),
            flag_of(final(self).wire_active, EventType::FinalityConflict) == flag_of(
                old(self).wire_active,
                EventType::FinalityConflict,
            ),
            flag_of(final(self).wire_active, EventType::FinalityConflictResolved) == flag_of(
                old(self).wire_active,
                EventType::FinalityConflictResolved,
            ),
            flag_of(final(self).wire_active, EventType::UtxosChanged) == flag_of(
                old(self).wire_active,
                EventType::UtxosChanged,
            ),
            final(requests)@ == old(requests)@ + spec_stop_requests_back(
                old(self).wire_active,
                old(self).notifier,
            ),
    {
        let ghost f = self.wire_active;
        let ghost n0 = self.notifier;
        let ghost r0 = requests@;
        self.reconcile_event(EventType::VirtualSelectedParentBlueScoreChanged, requests);
        let ghost r1 = requests@;
        let ghost w1 = self.wire_active;
        self.reconcile_event(EventType::VirtualDaaScoreChanged, requests);
        proof {
            assert(spec_stop_requests_for(w1, n0, EventType::VirtualDaaScoreChanged)
                =~= spec_stop_requests_for(f, n0, EventType::VirtualDaaScoreChanged));
        }
        let ghost r2 = requests@;
        let ghost w2 = self.wire_active;
        self.reconcile_event(EventType::PruningPointUtxoSetOverride, requests);
        proof {
            assert(spec_stop_requests_for(w2, n0, EventType::PruningPointUtxoSetOverride)
                =~= spec_stop_requests_for(f, n0, EventType::PruningPointUtxoSetOverride));
        }
        let ghost r3 = requests@;
        let ghost w3 = self.wire_active;
        self.reconcile_event(EventType::NewBlockTemplate, requests);
        proof {
            assert(spec_stop_requests_for(w3, n0, EventType::NewBlockTemplate)
                =~= spec_stop_requests_for(f, n0, EventType::NewBlockTemplate));
            assert(requests@ =~= r0 + spec_stop_requests_back(f, n0));
        }
    }

    /// Clears the wire flag of one event type — and appends its unsubscribe
    /// request — when the flag is set and the event's count reached zero.
    fn reconcile_event(&mut self, e: EventType, requests: &mut Vec<RpcRequest>)
        ensures
            final(self).inner == old(self).inner,
            final(self).notifier == old(self).notifier,
            flag_of(final(self).wire_active, e) == (flag_of(old(self).wire_active, e) && old(
                self,
            ).notifier.spec_count(e) >= 1),
            forall|e2: EventType|
                e2 != e ==> flag_of(final(self).wire_active, e2) == flag_of(
                    old(self).wire_active,
                    e2,
                ),
            final(requests)@ == old(requests)@ + spec_stop_requests_for(
                old(self).wire_active,
                old(self).notifier,
                e,
            ),
    {
        let ghost before = requests@;
        if self.wire_active.get(e) && self.notifier.active_count(e) == 0 {
            self.wire_active.set(e, false);
            requests.push(build_subscribe_request(e, SubscribeCommand::Stop));
            proof {
                assert(requests@ =~= before + spec_stop_requests_for(
                    old(self).wire_active,
                    old(self).notifier,
                    e,
                ));
            }
        } else {
            proof {
                assert(requests@ =~= before + spec_stop_requests_for(
                    old(self).wire_active,
                    old(self).notifier,
                    e,
                ));
            }
        }
    }

    /// Records the listener's interest; when the event type's global count
    /// rose from zero, a wire subscribe request is returned for the harness
    /// to send, exactly once per rise.
    pub fn start_notify(&mut self, id: u64, nt: NotificationType) -> (r: Result<
        Option<RpcRequest>,
        RpcClientError,
    >)
        requires
            old(self).wf(),
        ensures
            final(self).wf(),
            final(self).inner == old(self).inner,
            r matches Err(e) ==> e == RpcClientError::ListenerNotFound && *final(self) == *old(
                self,
            ) && forall|i: int|
                0 <= i < old(self).notifier.listeners@.len() ==> old(
                    self,
                ).notifier.listeners@[i].id != id,
            r matches Ok(cmd) ==> {
                &&& crate::notifier::start_rel(old(self).notifier, final(self).notifier, id, nt)
                &&& (cmd is Some <==> !flag_of(old(self).wire_active, nt.spec_event_type()))
                &&& flag_of(final(self).wire_active, nt.spec_event_type())
                &&& (forall|e2: EventType|
                    e2 != nt.spec_event_type() ==> flag_of(final(self).wire_active, e2) == flag_of(
                        old(self).wire_active,
                        e2,
                    ))
                &&& (cmd matches Some(q) ==> q == crate::message::spec_subscribe_request(
                    nt.spec_event_type(),
                    SubscribeCommand::Start,
                ))
            },
    {
        let e = nt.event_type();
        match self.notifier.start_notify(id, nt) {
            Err(err) => Err(err),
            Ok(()) => {
                if !self.wire_active.get(e) {
                    self.wire_active.set(e, true);
                    Ok(Some(build_subscribe_request(e, SubscribeCommand::Start)))
                } else {
                    Ok(None)
                }
            },
        }
    }

    /// Withdraws the listener's interest. Where the server does not support
    /// wire unsubscribe commands the explicit request is refused as
    /// unsupported. When the event type's global count reached zero, a wire
    /// unsubscribe request is returned for the harness to send.
    pub fn stop_notify(&mut self, id: u64, nt: NotificationType) -> (r: Result<
        Option<RpcRequest>,
        RpcClientError,
    >)
        requires
            old(self).wf(),
        ensures
            final(self).wf(),
            final(self).inner == old(self).inner,
            r matches Err(e) ==> e == RpcClientError::UnsupportedFeature || e
                == RpcClientError::ListenerNotFound,
            (r == Err::<Option<RpcRequest>, RpcClientError>(RpcClientError::UnsupportedFeature))
                <==> !old(self).inner.handle_stop_notify,
            !old(self).inner.handle_stop_notify ==> *final(self) == *old(self),
            r matches Err(e) && e == RpcClientError::ListenerNotFound ==> *final(self) == *old(
                self,
            ) && forall|i: int|
                0 <= i < old(self).notifier.listeners@.len() ==> old(
                    self,
                ).notifier.listeners@[i].id != id,
            r matches Ok(cmd) ==> {
                &&& crate::notifier::stop_rel(
                    old(self).notifier,
                    final(self).notifier,
                    id,
                    nt.spec_event_type(),
                )
                &&& (cmd is Some <==> flag_of(old(self).wire_active, nt.spec_event_type())
                    && final(self).notifier.spec_count(nt.spec_event_type()) == 0)
                &&& (forall|e2: EventType|
                    e2 != nt.spec_event_type() ==> flag_of(final(self).wire_active, e2) == flag_of(
                        old(self).wire_active,
                        e2,
                    ))
                &&& (cmd matches Some(q) ==> q == crate::message::spec_subscribe_request(
                    nt.spec_event_type(),
                    SubscribeCommand::Stop,
                ))
            },
    {
        if !self.inner.handle_stop_notify() {
            return Err(RpcClientError::UnsupportedFeature);
        }
        let e = nt.event_type();
        match self.notifier.stop_notify(id, e) {
            Err(err) => Err(err),
            Ok(()) => {
                if self.wire_active.get(e) && self.notifier.active_count(e) == 0 {
                    self.wire_active.set(e, false);
                    Ok(Some(build_subscribe_request(e, SubscribeCommand::Stop)))
                } else {
                    Ok(None)
                }
            },
        }
    }
}

/// A wire subscribe for an event type is in flight or acknowledged iff its
/// global count is at least one, where the server supports wire notify
/// commands.
pub proof fn lemma_wire_subscription_iff_count(c: GrpcClient, e: EventType)
    requires
        c.wf(),
        c.inner.handle_stop_notify,
    ensures
        flag_of(c.wire_active, e) <==> c.notifier.spec_count(e) >= 1,
{
}

/// Starting and then stopping a subscription issues wire commands only at the
/// edges: when no other listener is subscribed to the event type, the start
/// issues the subscribe and the stop issues the matching unsubscribe; when
/// another listener is subscribed, neither issues a command. The hypotheses
/// are the contracts of `start_notify` and `stop_notify` on a server that
/// supports wire notify commands, for a listener whose record for the event
/// type is the inactive default.
pub proof fn lemma_start_stop_wire_commands_pair(
    c0: GrpcClient,
    c1: GrpcClient,
    c2: GrpcClient,
    id: u64,
    nt: NotificationType,
    at: int,
    subscribe_issued: bool,
    unsubscribe_issued: bool,
)
    requires
        c0.wf(),
        c0.inner.handle_stop_notify,
        0 <= at < c0.notifier.listeners@.len(),
        c0.notifier.listeners@[at].id == id,
        crate::notifier::spec_record(
            c0.notifier.listeners@[at].subscriptions,
            nt.spec_event_type(),
        ) == crate::notifier::spec_inactive_record(),
        crate::notifier::start_rel(c0.notifier, c1.notifier, id, nt),
        subscribe_issued <==> !flag_of(c0.wire_active, nt.spec_event_type()),
        flag_of(c1.wire_active, nt.spec_event_type()),
        crate::notifier::stop_rel(c1.notifier, c2.notifier, id, nt.spec_event_type()),
        unsubscribe_issued <==> flag_of(c1.wire_active, nt.spec_event_type())
            && c2.notifier.spec_count(nt.spec_event_type()) == 0,
    ensures
        subscribe_issued <==> c0.notifier.spec_count(nt.spec_event_type()) == 0,
        unsubscribe_issued <==> subscribe_issued,
{
    crate::notifier::lemma_start_stop_round_trip(
        c0.notifier,
        c1.notifier,
        c2.notifier,
        id,
        nt,
        at,
    );
}

} // verus!
